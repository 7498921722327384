//! Grid cells and the per-segment chase rule.

use vstd::prelude::*;

verus! {

use crate::SQUARES;

/// One cell of the playing field, addressed by column `x` and row `y`.
#[derive(Clone, Copy, Debug, PartialEq, Eq, Structural, Hash)]
pub struct Point {
    pub x: i16,
    pub y: i16,
}

/// Absolute value of a mathematical integer.
pub open spec fn iabs(d: int) -> int {
    if d < 0 {
        -d
    } else {
        d
    }
}

/// Sign of a mathematical integer: -1, 0 or 1.
pub open spec fn sgn(d: int) -> int {
    if d > 0 {
        1
    } else if d < 0 {
        -1
    } else {
        0
    }
}

/// Both coordinates lie inside the playing field.
pub open spec fn in_grid(p: Point) -> bool {
    0 <= p.x < SQUARES && 0 <= p.y < SQUARES
}

/// Both coordinates lie in the field or at most one cell outside it: where a
/// point can stand during the single tick in which the head crosses a wall.
pub open spec fn near_grid(p: Point) -> bool {
    -1 <= p.x <= SQUARES && -1 <= p.y <= SQUARES
}

/// Coordinates far enough from the ends of `i16` that one-cell moves and
/// coordinate differences cannot overflow.
pub open spec fn coord_ok(p: Point) -> bool {
    -8192 <= p.x <= 8192 && -8192 <= p.y <= 8192
}

/// The chase rule: where the Chebyshev distance from `s` to `t` is at least 2,
/// `s` moves one cell toward `t` along each axis independently (diagonal moves
/// included); otherwise `s` stays where it is.
pub open spec fn follow_spec(s: Point, t: Point) -> Point {
    if iabs(t.x - s.x) >= 2 || iabs(t.y - s.y) >= 2 {
        Point { x: (s.x + sgn(t.x - s.x)) as i16, y: (s.y + sgn(t.y - s.y)) as i16 }
    } else {
        s
    }
}

/// Sign of an `i16`, as an `i16`.
pub fn sign16(d: i16) -> (s: i16)
    ensures
        s as int == sgn(d as int),
{
    if d > 0 {
        1
    } else if d < 0 {
        -1
    } else {
        0
    }
}

impl Point {
    pub fn new(x: i16, y: i16) -> (p: Point)
        ensures
            p == (Point { x, y }),
    {
        Point { x, y }
    }

    /// Move this point one step of the chase rule toward `other`.
    pub fn follow(&mut self, other: &Point)
        requires
            coord_ok(*old(self)),
            coord_ok(*other),
        ensures
            *final(self) == follow_spec(*old(self), *other),
    {
        let dx: i16 = other.x - self.x;
        let dy: i16 = other.y - self.y;
        if dx >= 2 || dx <= -2 || dy >= 2 || dy <= -2 {
            self.x = self.x + sign16(dx);
            self.y = self.y + sign16(dy);
        }
    }
}

/// The chase rule never moves a point past its target: from a cell in the
/// field toward a target in the field, the result stays in the field.
pub proof fn lemma_follow_in_grid(s: Point, t: Point)
    requires
        in_grid(s),
        in_grid(t),
    ensures
        in_grid(follow_spec(s, t)),
{
}

/// The same containment one cell wider: chasing a target that may stand one
/// cell outside the field keeps the chaser within one cell of the field.
pub proof fn lemma_follow_near_grid(s: Point, t: Point)
    requires
        near_grid(s),
        near_grid(t),
    ensures
        near_grid(follow_spec(s, t)),
{
}

} // verus!
