//! The game state and its three transitions: per-frame input, the simulation
//! tick, and the confirm action that leaves the paused and game-over states.

use vstd::prelude::*;

verus! {

use crate::SQUARES;
use crate::input::{Dir, KeyInput, resolved_dir_spec, resolve_direction};
use crate::point::{Point, in_grid, near_grid};
use crate::rng::random_cell;
use crate::snake::{Snake, SnakeModel, initial_snake, new_snake, chain_spec, lemma_chain_len,
    lemma_chain_index, lemma_chain_in_grid, lemma_chain_near_grid, body_contains};
use crate::speed::{SPEED_START_NUM, SPEED_START_DEN, speed_rat, lemma_speed_bounds,
    speed_after_fruit};

/// The whole game state. The seconds-per-tick interval is carried as the
/// exact fraction `speed_num / speed_den` (see the speed module); wall-clock
/// gating of ticks is the caller's concern.
pub struct Game {
    snake: Snake,
    fruit: Point,
    score: u64,
    fruits_eaten: u64,
    speed_num: u128,
    speed_den: u128,
    game_over: bool,
    paused: bool,
}

/// The game state as mathematics.
#[verifier::ext_equal]
pub struct GameModel {
    pub snake: SnakeModel,
    pub fruit: Point,
    pub score: int,
    pub fruits_eaten: nat,
    pub speed_num: int,
    pub speed_den: int,
    pub game_over: bool,
    pub paused: bool,
}

impl View for Game {
    type V = GameModel;

    closed spec fn view(&self) -> GameModel {
        GameModel {
            snake: self.snake@,
            fruit: self.fruit,
            score: self.score as int,
            fruits_eaten: self.fruits_eaten as nat,
            speed_num: self.speed_num as int,
            speed_den: self.speed_den as int,
            game_over: self.game_over,
            paused: self.paused,
        }
    }
}

/// A fresh game around the given fruit cell: the starting snake, nothing
/// scored, the starting speed, and neither flag set (the paused flag is
/// handed through because the reset after a game over leaves it alone).
pub open spec fn fresh_model(fruit: Point, paused: bool) -> GameModel {
    GameModel {
        snake: initial_snake(),
        fruit,
        score: 0,
        fruits_eaten: 0,
        speed_num: 3,
        speed_den: 20,
        game_over: false,
        paused,
    }
}

/// Every state the game can reach satisfies this. While the game is running
/// the snake lies in the field; the direction pair is never a reversal; the
/// two flags are never set together; the fruit is in the field; the body
/// holds the two starting segments plus one per fruit eaten; the score is at
/// least 50 per fruit; and the speed fraction is exactly the one the fruit
/// count prescribes.
pub open spec fn wf_model(m: GameModel) -> bool {
    &&& m.snake.dir != m.snake.odir.opposite_spec()
    &&& !(m.game_over && m.paused)
    &&& in_grid(m.fruit)
    &&& m.snake.body.len() == 2 + m.fruits_eaten
    &&& m.score >= 50 * m.fruits_eaten
    &&& (m.speed_num, m.speed_den) == speed_rat(m.fruits_eaten)
    &&& !m.game_over ==> {
        &&& in_grid(m.snake.head)
        &&& forall|i: int| 0 <= i < m.snake.body.len() ==> in_grid(#[trigger] m.snake.body[i])
    }
}

/// Where the head stands after one tick: one cell along the active direction.
pub open spec fn moved_head(s: SnakeModel) -> Point {
    Point { x: (s.head.x + s.dir.dx_spec()) as i16, y: (s.head.y + s.dir.dy_spec()) as i16 }
}

/// One simulation tick of a running game, with `roll` standing for the cell
/// the generator hands out if a fruit is eaten. In order: the head moves one
/// cell; the body runs the follow chain; any net tail movement scores one
/// point; on `head == fruit` the fruit is replaced by `roll`, the body grows
/// by a copy of its last segment, fifty points are scored and the speed
/// steps; leaving the field or landing on the body sets the game-over flag;
/// and the applied direction commits.
pub open spec fn tick_step(m: GameModel, roll: Point) -> GameModel {
    let h = moved_head(m.snake);
    let chained = chain_spec(m.snake.body, h);
    let bonus: int = if m.snake.body.len() > 0 && m.snake.body.last() != chained.last() {
        1
    } else {
        0
    };
    let ate = h == m.fruit;
    let grown = if ate {
        chained.push(
            if chained.len() == 0 {
                h
            } else {
                chained.last()
            },
        )
    } else {
        chained
    };
    GameModel {
        snake: SnakeModel { head: h, body: grown, dir: m.snake.dir, odir: m.snake.dir },
        fruit: if ate {
            roll
        } else {
            m.fruit
        },
        score: m.score + bonus + if ate {
            50int
        } else {
            0int
        },
        fruits_eaten: m.fruits_eaten + if ate {
            1nat
        } else {
            0nat
        },
        speed_num: if ate {
            speed_rat(m.fruits_eaten + 1).0
        } else {
            m.speed_num
        },
        speed_den: if ate {
            speed_rat(m.fruits_eaten + 1).1
        } else {
            m.speed_den
        },
        game_over: !in_grid(h) || grown.contains(h),
        paused: m.paused,
    }
}

/// The per-frame input transition of a running game: the first key rule that
/// matches sets the requested direction; failing that, a held pause key
/// pauses. A paused or finished game ignores direction and pause keys.
pub open spec fn input_step(m: GameModel, k: KeyInput) -> GameModel {
    if m.game_over || m.paused {
        m
    } else {
        match resolved_dir_spec(m.snake.odir, k) {
            Some(d) => GameModel { snake: SnakeModel { dir: d, ..m.snake }, ..m },
            None => if k.pause {
                GameModel { paused: true, ..m }
            } else {
                m
            },
        }
    }
}

/// The confirm transition: from game over, a full reset around the rolled
/// fruit cell; from paused, back to running; otherwise nothing.
pub open spec fn confirm_step(m: GameModel, roll: Point) -> GameModel {
    if m.game_over {
        fresh_model(roll, m.paused)
    } else if m.paused {
        GameModel { paused: false, ..m }
    } else {
        m
    }
}

/// A tick preserves well-formedness.
pub proof fn lemma_tick_preserves_wf(m: GameModel, roll: Point)
    requires
        wf_model(m),
        !m.game_over,
        !m.paused,
        in_grid(roll),
    ensures
        wf_model(tick_step(m, roll)),
{
    let h = moved_head(m.snake);
    let chained = chain_spec(m.snake.body, h);
    lemma_chain_len(m.snake.body, h);
    lemma_speed_bounds(m.fruits_eaten);
    let t = tick_step(m, roll);
    if !t.game_over {
        assert(in_grid(h));
        lemma_chain_in_grid(m.snake.body, h);
        assert forall|i: int| 0 <= i < t.snake.body.len() implies in_grid(
            #[trigger] t.snake.body[i],
        ) by {
            if i < chained.len() {
                assert(t.snake.body[i] == chained[i]);
            } else {
                assert(t.snake.body[i] == chained.last());
            }
        }
    }
}

/// The input transition preserves well-formedness.
pub proof fn lemma_input_preserves_wf(m: GameModel, k: KeyInput)
    requires
        wf_model(m),
    ensures
        wf_model(input_step(m, k)),
{
}

/// The confirm transition preserves well-formedness.
pub proof fn lemma_confirm_preserves_wf(m: GameModel, roll: Point)
    requires
        wf_model(m),
        in_grid(roll),
    ensures
        wf_model(confirm_step(m, roll)),
{
}

impl Game {
    /// The game state is well formed.
    pub open spec fn wf(&self) -> bool {
        wf_model(self@)
    }

    /// A fresh game: starting snake, a randomly placed fruit, score zero,
    /// starting speed, running.
    pub fn new() -> (g: Game)
        ensures
            g.wf(),
            g@ == fresh_model(g@.fruit, false),
            in_grid(g@.fruit),
    {
        let snake = new_snake();
        let fruit = random_cell();
        let g = Game {
            snake,
            fruit,
            score: 0,
            fruits_eaten: 0,
            speed_num: SPEED_START_NUM,
            speed_den: SPEED_START_DEN,
            game_over: false,
            paused: false,
        };
        proof {
            assert(g@.snake =~= initial_snake());
            assert(g@ =~~= fresh_model(g@.fruit, false));
            assert(g@.snake.body.len() == 2);
            assert(forall|i: int| 0 <= i < g@.snake.body.len() ==> in_grid(
                #[trigger] g@.snake.body[i],
            ));
        }
        g
    }

    /// Apply one frame of held keys, as `input_step` says.
    pub fn apply_input(&mut self, k: KeyInput)
        requires
            old(self).wf(),
        ensures
            final(self).wf(),
            final(self)@ == input_step(old(self)@, k),
    {
        if self.game_over || self.paused {
            return ;
        }
        match resolve_direction(self.snake.odir, k) {
            Some(d) => {
                self.snake.dir = d;
            },
            None => {
                if k.pause {
                    self.paused = true;
                }
            },
        }
        proof {
            assert(self@ =~~= input_step(old(self)@, k));
        }
    }

    /// Run one simulation tick. A paused or finished game is left untouched;
    /// a running game steps as `tick_step` says, around some in-field fruit
    /// roll. The score bound keeps one tick's points (at most 51) from
    /// overflowing the counter.
    pub fn tick(&mut self)
        requires
            old(self).wf(),
            old(self)@.score + 51 <= u64::MAX,
        ensures
            final(self).wf(),
            old(self)@.game_over || old(self)@.paused ==> final(self)@ == old(self)@,
            !old(self)@.game_over && !old(self)@.paused ==> exists|roll: Point|
                in_grid(roll) && final(self)@ == #[trigger] tick_step(old(self)@, roll),
    {
        if self.game_over || self.paused {
            return ;
        }
        let ghost pre = self@;
        let d = self.snake.dir;
        let hx: i16 = self.snake.head.x + d.dx();
        let hy: i16 = self.snake.head.y + d.dy();
        let h = Point { x: hx, y: hy };
        let ghost old_body = pre.snake.body;
        let ghost chained = chain_spec(old_body, h);
        let n: usize = self.snake.body.len();
        let old_tail: Point = self.snake.body[n - 1];
        self.snake.head = h;
        proof {
            assert(h == moved_head(pre.snake));
            lemma_chain_len(old_body, h);
            lemma_chain_near_grid(old_body, h);
        }
        let mut i: usize = 0;
        while i < n
            invariant
                0 <= i <= n,
                n == old_body.len(),
                n >= 2,
                self.snake.body.len() == n,
                self.snake.head == h,
                self.snake.dir == pre.snake.dir,
                self.snake.odir == pre.snake.odir,
                self.fruit == pre.fruit,
                self.score == pre.score,
                self.fruits_eaten == pre.fruits_eaten,
                self.speed_num == pre.speed_num,
                self.speed_den == pre.speed_den,
                self.game_over == false,
                self.paused == false,
                chained == chain_spec(old_body, h),
                chained.len() == n,
                near_grid(h),
                forall|j: int| 0 <= j < n ==> in_grid(#[trigger] old_body[j]),
                forall|j: int| 0 <= j < n ==> near_grid(#[trigger] chained[j]),
                forall|j: int| 0 <= j < i ==> self.snake.body@[j] == chained[j],
                forall|j: int| i <= j < n ==> self.snake.body@[j] == old_body[j],
            decreases n - i,
        {
            let target: Point = if i == 0 {
                h
            } else {
                self.snake.body[i - 1]
            };
            let mut p: Point = self.snake.body[i];
            proof {
                lemma_chain_index(old_body, h, i as int);
            }
            p.follow(&target);
            self.snake.body[i] = p;
            i = i + 1;
        }
        proof {
            assert(self.snake.body@ =~= chained);
        }
        let new_tail: Point = self.snake.body[n - 1];
        if old_tail != new_tail {
            self.score = self.score + 1;
        }
        let ate: bool = h == self.fruit;
        if ate {
            self.fruit = random_cell();
            let tail: Point = self.snake.body[n - 1];
            self.snake.body.push(tail);
            self.score = self.score + 50;
            let stepped: (u128, u128) = speed_after_fruit(
                self.speed_num,
                self.speed_den,
                self.fruits_eaten,
            );
            self.speed_num = stepped.0;
            self.speed_den = stepped.1;
            self.fruits_eaten = self.fruits_eaten + 1;
        }
        if hx < 0 || hy < 0 || hx >= SQUARES || hy >= SQUARES {
            self.game_over = true;
        }
        if body_contains(&self.snake.body, h) {
            self.game_over = true;
        }
        self.snake.odir = d;
        proof {
            let w = if ate {
                self.fruit
            } else {
                pre.fruit
            };
            assert(in_grid(w));
            assert(old_body.last() == old_tail && chained.last() == new_tail);
            assert(self@.snake.body =~= tick_step(pre, w).snake.body);
            assert(self@ =~~= tick_step(pre, w));
            lemma_tick_preserves_wf(pre, w);
        }
    }

    /// Apply the confirm key: reset out of game over, resume out of pause.
    pub fn confirm(&mut self)
        requires
            old(self).wf(),
        ensures
            final(self).wf(),
            exists|roll: Point|
                in_grid(roll) && final(self)@ == #[trigger] confirm_step(old(self)@, roll),
    {
        let ghost pre = self@;
        if self.game_over {
            self.snake = new_snake();
            self.fruit = random_cell();
            self.score = 0;
            self.fruits_eaten = 0;
            self.speed_num = SPEED_START_NUM;
            self.speed_den = SPEED_START_DEN;
            self.game_over = false;
            proof {
                assert(self@ =~~= confirm_step(pre, self.fruit));
                lemma_confirm_preserves_wf(pre, self.fruit);
            }
        } else if self.paused {
            self.paused = false;
            proof {
                assert(self@ =~~= confirm_step(pre, pre.fruit));
            }
        } else {
            proof {
                assert(self@ =~~= confirm_step(pre, pre.fruit));
            }
        }
    }

    /// Place the fruit on a chosen cell; a cell outside the field is
    /// ignored. This is the deterministic stand-in for the random draw, for
    /// replays and tests.
    pub fn set_fruit(&mut self, p: Point)
        requires
            old(self).wf(),
        ensures
            final(self).wf(),
            in_grid(p) ==> final(self)@ == (GameModel { fruit: p, ..old(self)@ }),
            !in_grid(p) ==> final(self)@ == old(self)@,
    {
        if p.x >= 0 && p.x < SQUARES && p.y >= 0 && p.y < SQUARES {
            self.fruit = p;
            proof {
                assert(self@ =~~= (GameModel { fruit: p, ..old(self)@ }));
            }
        }
    }

    pub fn score(&self) -> (r: u64)
        ensures
            r as int == self@.score,
    {
        self.score
    }

    pub fn fruits_eaten(&self) -> (r: u64)
        ensures
            r as int == self@.fruits_eaten,
    {
        self.fruits_eaten
    }

    pub fn speed_num(&self) -> (r: u128)
        ensures
            r as int == self@.speed_num,
    {
        self.speed_num
    }

    pub fn speed_den(&self) -> (r: u128)
        ensures
            r as int == self@.speed_den,
    {
        self.speed_den
    }

    pub fn is_game_over(&self) -> (r: bool)
        ensures
            r == self@.game_over,
    {
        self.game_over
    }

    pub fn is_paused(&self) -> (r: bool)
        ensures
            r == self@.paused,
    {
        self.paused
    }

    pub fn fruit(&self) -> (r: Point)
        ensures
            r == self@.fruit,
    {
        self.fruit
    }

    pub fn head(&self) -> (r: Point)
        ensures
            r == self@.snake.head,
    {
        self.snake.head
    }

    pub fn dir(&self) -> (r: Dir)
        ensures
            r == self@.snake.dir,
    {
        self.snake.dir
    }

    pub fn odir(&self) -> (r: Dir)
        ensures
            r == self@.snake.odir,
    {
        self.snake.odir
    }

    pub fn body(&self) -> (r: &Vec<Point>)
        ensures
            r@ == self@.snake.body,
    {
        &self.snake.body
    }

    pub fn body_len(&self) -> (r: usize)
        ensures
            r as int == self@.snake.body.len(),
    {
        self.snake.body.len()
    }

    pub fn body_at(&self, i: usize) -> (r: Point)
        requires
            i < self@.snake.body.len(),
        ensures
            r == self@.snake.body[i as int],
    {
        self.snake.body[i]
    }
}

} // verus!
