//! Random placement: a uniform draw of a grid position.

use vstd::prelude::*;

use crate::grid::Position;
use rand::Rng;

verus! {

/// Relies on rand::thread_rng and rand::Rng::gen_range: for a non-empty
/// half-open integer range, the sample lies within it (gen_range panics on an
/// empty range, which `min < max` rules out).
#[verifier::external_body]
fn random_in_range(min: i32, max: i32) -> (r: i32)
    requires
        min < max,
    ensures
        min <= r < max,
{
    rand::thread_rng().gen_range(min..max)
}

/// A position drawn uniformly from the half-open rectangle
/// `[min_x, max_x) x [min_y, max_y)`.
pub fn random_position(min_x: i32, max_x: i32, min_y: i32, max_y: i32) -> (p: Position)
    requires
        min_x < max_x,
        min_y < max_y,
    ensures
        min_x <= p.x < max_x,
        min_y <= p.y < max_y,
{
    let x: i32 = random_in_range(min_x, max_x);
    let y: i32 = random_in_range(min_y, max_y);
    let pos = Position { x, y };
    pos
}

} // verus!
