//! Laws of the game: facts that hold of every tick of every well-formed
//! state, proved once and for all over the spec-level transition `tick_step`.
//! Each law speaks of a running game, since a paused or finished game does
//! not tick.

use vstd::prelude::*;

verus! {

use crate::game::{GameModel, wf_model, moved_head, tick_step, input_step};
use crate::input::KeyInput;
use crate::point::{Point, iabs, in_grid};
use crate::snake::{chain_spec, lemma_chain_len};
use crate::speed::{lemma_speed_bounds, lemma_speed_monotone};

/// Law: in one tick the head moves exactly one cell: the Manhattan distance
/// between the old and the new head is 1.
pub proof fn lemma_tick_head_moves_one_cell(m: GameModel, roll: Point)
    requires
        wf_model(m),
        !m.game_over,
        !m.paused,
    ensures
        iabs(tick_step(m, roll).snake.head.x - m.snake.head.x) + iabs(
            tick_step(m, roll).snake.head.y - m.snake.head.y,
        ) == 1,
{
}

/// Law: at the moment a tick commits, the requested direction equals the
/// applied one, so the pair is never a reversal.
pub proof fn lemma_tick_no_reversal(m: GameModel, roll: Point)
    requires
        wf_model(m),
        !m.game_over,
        !m.paused,
    ensures
        tick_step(m, roll).snake.dir != tick_step(m, roll).snake.odir.opposite_spec(),
{
}

/// Law: the input transition never produces a reversal either: the requested
/// direction is never the opposite of the one applied last tick.
pub proof fn lemma_input_no_reversal(m: GameModel, k: KeyInput)
    requires
        wf_model(m),
    ensures
        input_step(m, k).snake.dir != input_step(m, k).snake.odir.opposite_spec(),
{
}

/// Law: a fruit-eating tick grows the body by exactly one segment, scores
/// the fifty fruit points plus at most one tail-movement point, and leaves
/// the new fruit inside the field.
pub proof fn lemma_tick_fruit_growth(m: GameModel, roll: Point)
    requires
        wf_model(m),
        !m.game_over,
        !m.paused,
        in_grid(roll),
        moved_head(m.snake) == m.fruit,
    ensures
        tick_step(m, roll).snake.body.len() == m.snake.body.len() + 1,
        tick_step(m, roll).score >= m.score + 50,
        tick_step(m, roll).score <= m.score + 51,
        tick_step(m, roll).fruit == roll,
        in_grid(tick_step(m, roll).fruit),
        tick_step(m, roll).fruits_eaten == m.fruits_eaten + 1,
{
    lemma_chain_len(m.snake.body, moved_head(m.snake));
}

/// Law: a tick without a fruit keeps the body's length; so across any tick
/// the body never shrinks.
pub proof fn lemma_tick_body_never_shrinks(m: GameModel, roll: Point)
    requires
        wf_model(m),
        !m.game_over,
        !m.paused,
    ensures
        tick_step(m, roll).snake.body.len() >= m.snake.body.len(),
        moved_head(m.snake) != m.fruit ==> tick_step(m, roll).snake.body.len()
            == m.snake.body.len(),
{
    lemma_chain_len(m.snake.body, moved_head(m.snake));
}

/// Law: the speed interval never increases across a tick, and never falls
/// below the floor of 3/50 seconds; both read by cross-multiplication.
pub proof fn lemma_tick_speed_monotone(m: GameModel, roll: Point)
    requires
        wf_model(m),
        !m.game_over,
        !m.paused,
    ensures
        tick_step(m, roll).speed_num * m.speed_den <= m.speed_num * tick_step(m, roll).speed_den,
        50 * tick_step(m, roll).speed_num >= 3 * tick_step(m, roll).speed_den,
{
    lemma_speed_bounds(m.fruits_eaten);
    lemma_speed_bounds(m.fruits_eaten + 1);
    lemma_speed_monotone(m.fruits_eaten);
}

/// Law: if the head leaves the field in a tick, that tick ends with the
/// game-over flag set.
pub proof fn lemma_tick_wall_collision(m: GameModel, roll: Point)
    requires
        wf_model(m),
        !m.game_over,
        !m.paused,
        !in_grid(moved_head(m.snake)),
    ensures
        tick_step(m, roll).game_over,
{
}

/// Law: if the head lands on any body segment as the follow chain leaves it,
/// that tick ends with the game-over flag set.
pub proof fn lemma_tick_self_collision(m: GameModel, roll: Point)
    requires
        wf_model(m),
        !m.game_over,
        !m.paused,
        chain_spec(m.snake.body, moved_head(m.snake)).contains(moved_head(m.snake)),
    ensures
        tick_step(m, roll).game_over,
{
    let h = moved_head(m.snake);
    let chained = chain_spec(m.snake.body, h);
    let grown = tick_step(m, roll).snake.body;
    let j = choose|j: int| 0 <= j < chained.len() && chained[j] == h;
    if h == m.fruit {
        assert(grown[j] == h);
    }
    assert(grown.contains(h));
}

} // verus!
