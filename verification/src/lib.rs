//! Core of a grid snake game: the snake's chase-style segment movement,
//! fruit consumption and growth, the speed ramp, collision rules, and the
//! running / paused / game-over state machine. Rendering, input polling and
//! frame timing live outside this crate; the game state is advanced through
//! the methods of `game::Game`.

use vstd::prelude::*;

pub mod game;
pub mod input;
pub mod laws;
pub mod point;
mod rng;
pub mod snake;
pub mod speed;

verus! {

/// Width and height of the square playing field, in cells.
pub const SQUARES: i16 = 32;

} // verus!
