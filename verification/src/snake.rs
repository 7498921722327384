//! The snake and the sequential follow chain.

use vstd::prelude::*;

verus! {

use crate::SQUARES;
use crate::input::Dir;
use crate::point::{Point, follow_spec, in_grid, near_grid, lemma_follow_in_grid,
    lemma_follow_near_grid};

/// The snake: a distinct head cell, the trailing segments ordered nearest
/// first, the direction requested for the next tick, and the direction
/// actually applied last tick (which forbids instant reversals).
pub struct Snake {
    pub head: Point,
    pub body: Vec<Point>,
    pub dir: Dir,
    pub odir: Dir,
}

/// The snake as mathematics: the body as a sequence of cells.
#[verifier::ext_equal]
pub struct SnakeModel {
    pub head: Point,
    pub body: Seq<Point>,
    pub dir: Dir,
    pub odir: Dir,
}

impl View for Snake {
    type V = SnakeModel;

    open spec fn view(&self) -> SnakeModel {
        SnakeModel { head: self.head, body: self.body@, dir: self.dir, odir: self.odir }
    }
}

/// The snake every game starts with: the head in the middle of the field,
/// two trailing segments to its right, heading left.
pub open spec fn initial_snake() -> SnakeModel {
    SnakeModel {
        head: Point { x: (SQUARES / 2) as i16, y: (SQUARES / 2) as i16 },
        body: seq![
            Point { x: (SQUARES / 2 + 1) as i16, y: (SQUARES / 2) as i16 },
            Point { x: (SQUARES / 2 + 2) as i16, y: (SQUARES / 2) as i16 },
        ],
        dir: Dir::Left,
        odir: Dir::Left,
    }
}

/// Build the starting snake.
pub fn new_snake() -> (s: Snake)
    ensures
        s@ =~= initial_snake(),
{
    let mut body: Vec<Point> = Vec::new();
    body.push(Point::new(SQUARES / 2 + 1, SQUARES / 2));
    body.push(Point::new(SQUARES / 2 + 2, SQUARES / 2));
    Snake { head: Point::new(SQUARES / 2, SQUARES / 2), body, dir: Dir::Left, odir: Dir::Left }
}

/// Whether any segment of `body` sits on the cell `p`.
pub fn body_contains(body: &Vec<Point>, p: Point) -> (r: bool)
    ensures
        r == body@.contains(p),
{
    let mut i: usize = 0;
    while i < body.len()
        invariant
            0 <= i <= body@.len(),
            forall|j: int| 0 <= j < i ==> body@[j] != p,
        decreases body@.len() - i,
    {
        if body[i] == p {
            return true;
        }
        i = i + 1;
    }
    false
}

/// The follow chain applied to a whole body: the first segment chases
/// `target`, and each later segment chases the already-updated position of
/// the segment ahead of it.
pub open spec fn chain_spec(body: Seq<Point>, target: Point) -> Seq<Point>
    decreases body.len(),
{
    if body.len() == 0 {
        Seq::empty()
    } else {
        let first = follow_spec(body[0], target);
        seq![first] + chain_spec(body.skip(1), first)
    }
}

/// The follow chain keeps the body's length.
pub proof fn lemma_chain_len(body: Seq<Point>, target: Point)
    ensures
        chain_spec(body, target).len() == body.len(),
    decreases body.len(),
{
    if body.len() > 0 {
        lemma_chain_len(body.skip(1), follow_spec(body[0], target));
    }
}

/// Each chained segment is its old self chased one step toward the updated
/// position of the segment ahead (toward `target` for the first segment).
pub proof fn lemma_chain_index(body: Seq<Point>, target: Point, i: int)
    requires
        0 <= i < body.len(),
    ensures
        chain_spec(body, target).len() == body.len(),
        chain_spec(body, target)[i] == follow_spec(
            body[i],
            if i == 0 {
                target
            } else {
                chain_spec(body, target)[i - 1]
            },
        ),
    decreases body.len(),
{
    lemma_chain_len(body, target);
    let first = follow_spec(body[0], target);
    lemma_chain_len(body.skip(1), first);
    if i > 0 {
        lemma_chain_index(body.skip(1), first, i - 1);
        if i == 1 {
            assert(chain_spec(body, target)[0] == first);
        } else {
            assert(chain_spec(body, target)[i - 1] == chain_spec(body.skip(1), first)[i - 2]);
        }
    }
}

/// A body whose segments all lie in the field, chasing a target in the field,
/// stays in the field.
pub proof fn lemma_chain_in_grid(body: Seq<Point>, target: Point)
    requires
        in_grid(target),
        forall|i: int| 0 <= i < body.len() ==> in_grid(#[trigger] body[i]),
    ensures
        forall|i: int| 0 <= i < body.len() ==> in_grid(#[trigger] chain_spec(body, target)[i]),
    decreases body.len(),
{
    if body.len() > 0 {
        let first = follow_spec(body[0], target);
        lemma_follow_in_grid(body[0], target);
        assert(forall|i: int|
            0 <= i < body.len() - 1 ==> in_grid(#[trigger] body.skip(1)[i]));
        lemma_chain_in_grid(body.skip(1), first);
        lemma_chain_len(body.skip(1), first);
        assert forall|i: int| 0 <= i < body.len() implies in_grid(
            #[trigger] chain_spec(body, target)[i],
        ) by {
            if i > 0 {
                assert(chain_spec(body, target)[i] == chain_spec(body.skip(1), first)[i - 1]);
            }
        }
    }
}

/// The same containment one cell wider, for the tick in which the head may
/// stand one cell outside the field.
pub proof fn lemma_chain_near_grid(body: Seq<Point>, target: Point)
    requires
        near_grid(target),
        forall|i: int| 0 <= i < body.len() ==> near_grid(#[trigger] body[i]),
    ensures
        forall|i: int| 0 <= i < body.len() ==> near_grid(#[trigger] chain_spec(body, target)[i]),
    decreases body.len(),
{
    if body.len() > 0 {
        let first = follow_spec(body[0], target);
        lemma_follow_near_grid(body[0], target);
        assert(forall|i: int|
            0 <= i < body.len() - 1 ==> near_grid(#[trigger] body.skip(1)[i]));
        lemma_chain_near_grid(body.skip(1), first);
        lemma_chain_len(body.skip(1), first);
        assert forall|i: int| 0 <= i < body.len() implies near_grid(
            #[trigger] chain_spec(body, target)[i],
        ) by {
            if i > 0 {
                assert(chain_spec(body, target)[i] == chain_spec(body.skip(1), first)[i - 1]);
            }
        }
    }
}

} // verus!
