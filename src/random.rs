use rand::Rng;
use vstd::prelude::*;

use crate::geometry::{MILLI, X_LIMIT};

verus! {

/// Largest horizontal distance from the centre at which a minion appears,
/// in playfield units.
pub const SPAWN_SPREAD: u32 = 600;

/// Relies on rand's `Rng::gen_range` over the inclusive range `0..=hi`,
/// which is never empty: the draw lies in that range.
#[verifier::external_body]
fn draw_up_to(hi: u32) -> (r: u32)
    ensures
        r <= hi,
{
    rand::thread_rng().gen_range(0..=hi)
}

/// Relies on rand's `Rng::gen_ratio(1, 2)`: a fair coin. Its arguments are
/// valid (numerator at most the denominator, denominator not zero).
#[verifier::external_body]
fn flip_coin() -> (r: bool) {
    rand::thread_rng().gen_ratio(1, 2)
}

/// The horizontal spawn position, in thousandths of a unit, for a drawn
/// magnitude (in units) and sign.
pub fn spawn_x(magnitude: u32, negative: bool) -> (x: i64)
    requires
        magnitude <= SPAWN_SPREAD,
    ensures
        x == (if negative { -(magnitude as int) } else { magnitude as int }) * MILLI,
        -X_LIMIT <= x <= X_LIMIT,
{
    let m: i64 = magnitude as i64 * MILLI;
    if negative {
        -m
    } else {
        m
    }
}

/// Draws a horizontal spawn position: a magnitude in `[0, 600]` units and an
/// independent fair sign.
pub fn draw_spawn_x() -> (x: i64)
    ensures
        -X_LIMIT <= x <= X_LIMIT,
        x % MILLI == 0,
{
    let magnitude = draw_up_to(SPAWN_SPREAD);
    let negative = flip_coin();
    spawn_x(magnitude, negative)
}

} // verus!
