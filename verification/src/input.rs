//! Directions and the key-to-direction resolver.

use vstd::prelude::*;

verus! {

/// One of the four unit directions the snake can head in.
#[derive(Clone, Copy, Debug, PartialEq, Eq, Structural)]
pub enum Dir {
    Up,
    Down,
    Left,
    Right,
}

impl Dir {
    /// Horizontal component of the direction as a unit step.
    pub open spec fn dx_spec(self) -> int {
        match self {
            Dir::Left => -1,
            Dir::Right => 1,
            _ => 0,
        }
    }

    /// Vertical component of the direction as a unit step; the y axis grows
    /// downward, so `Up` is -1.
    pub open spec fn dy_spec(self) -> int {
        match self {
            Dir::Up => -1,
            Dir::Down => 1,
            _ => 0,
        }
    }

    /// The direction that points exactly the other way.
    pub open spec fn opposite_spec(self) -> Dir {
        match self {
            Dir::Up => Dir::Down,
            Dir::Down => Dir::Up,
            Dir::Left => Dir::Right,
            Dir::Right => Dir::Left,
        }
    }

    pub fn dx(self) -> (r: i16)
        ensures
            r as int == self.dx_spec(),
    {
        match self {
            Dir::Left => -1,
            Dir::Right => 1,
            _ => 0,
        }
    }

    pub fn dy(self) -> (r: i16)
        ensures
            r as int == self.dy_spec(),
    {
        match self {
            Dir::Up => -1,
            Dir::Down => 1,
            _ => 0,
        }
    }

    pub fn opposite(self) -> (r: Dir)
        ensures
            r == self.opposite_spec(),
    {
        match self {
            Dir::Up => Dir::Down,
            Dir::Down => Dir::Up,
            Dir::Left => Dir::Right,
            Dir::Right => Dir::Left,
        }
    }
}

/// Which logical keys are held this frame. How physical keys map onto these
/// (arrows as well as WASD, space for pause) is the caller's concern.
#[derive(Clone, Copy, Debug, PartialEq, Eq, Structural)]
pub struct KeyInput {
    pub right: bool,
    pub left: bool,
    pub up: bool,
    pub down: bool,
    pub pause: bool,
}

/// The direction the held keys ask for, if any: the rules are tried in the
/// fixed order right, left, up, down, and the first one whose key is held and
/// whose direction is not the exact opposite of `odir` wins. A held key whose
/// direction would reverse `odir` does not stop the later rules.
pub open spec fn resolved_dir_spec(odir: Dir, k: KeyInput) -> Option<Dir> {
    if k.right && odir != Dir::Left {
        Some(Dir::Right)
    } else if k.left && odir != Dir::Right {
        Some(Dir::Left)
    } else if k.up && odir != Dir::Down {
        Some(Dir::Up)
    } else if k.down && odir != Dir::Up {
        Some(Dir::Down)
    } else {
        None
    }
}

/// Resolve the held keys against the direction applied last tick.
pub fn resolve_direction(odir: Dir, k: KeyInput) -> (r: Option<Dir>)
    ensures
        r == resolved_dir_spec(odir, k),
{
    if k.right && odir != Dir::Left {
        Some(Dir::Right)
    } else if k.left && odir != Dir::Right {
        Some(Dir::Left)
    } else if k.up && odir != Dir::Down {
        Some(Dir::Up)
    } else if k.down && odir != Dir::Up {
        Some(Dir::Down)
    } else {
        None
    }
}

/// A resolved direction is never the opposite of the direction applied last
/// tick: the resolver refuses instant reversals.
pub proof fn lemma_resolved_never_reverses(odir: Dir, k: KeyInput)
    ensures
        forall|d: Dir| resolved_dir_spec(odir, k) == Some(d) ==> d != odir.opposite_spec(),
{
}

} // verus!
