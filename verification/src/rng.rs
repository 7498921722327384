//! The crate's one outside call: drawing a fruit cell from the global
//! pseudo-random generator.

use vstd::prelude::*;

verus! {

use crate::SQUARES;
use crate::point::{Point, in_grid};

/// Relies on `macroquad::rand::gen_range` (quad-rand's global generator,
/// re-exported as macroquad's `rand` module). For integers it computes
/// `low + (high - low) * (rand() / 2^32)` in `f64` and truncates toward
/// zero; with the arguments 0 and 32 both scalings are exact powers of two,
/// the quotient lies in [0, 1), and the truncation lands in 0..32.
#[verifier::external_body]
fn gen_coord() -> (c: i16)
    ensures
        0 <= c < SQUARES,
{
    macroquad::rand::gen_range(0, SQUARES)
}

/// A pseudo-randomly drawn cell of the field, each axis drawn independently.
pub(crate) fn random_cell() -> (p: Point)
    ensures
        in_grid(p),
{
    let x: i16 = gen_coord();
    let y: i16 = gen_coord();
    Point::new(x, y)
}

} // verus!
