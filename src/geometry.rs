use vstd::prelude::*;

verus! {

/// Thousandths of a playfield unit per unit.
pub const MILLI: i64 = 1000;

/// Speeds, in playfield units per second.
pub const PLAYER_SPEED: i64 = 200;
pub const MINIONS_SPEED: i64 = 75;
pub const BULLET_SPEED: i64 = 250;

/// Visual sizes, in playfield units.
pub const PLAYER_SIZE: i64 = 65;
pub const MINIONS_SIZE: i64 = 50;
pub const BULLET_SIZE: i64 = 10;

/// Collision radii (half the visual size), in thousandths of a unit.
pub const PLAYER_RADIUS: i64 = PLAYER_SIZE * 500;
pub const MINION_RADIUS: i64 = MINIONS_SIZE * 500;
pub const BULLET_RADIUS: i64 = BULLET_SIZE * 500;

/// Half-width and half-height of the region the player may move in.
pub const X_LIMIT: i64 = 600 * MILLI;
pub const Y_LIMIT: i64 = 300 * MILLI;

/// Height at which minions appear, and below which they leave the field.
pub const MINION_TOP: i64 = 400 * MILLI;
pub const MINION_FLOOR: i64 = -400 * MILLI;

/// Height above which bullets leave the field.
pub const BULLET_CEILING: i64 = 300 * MILLI;

/// No coordinate ever leaves `[-COORD_BOUND, COORD_BOUND]`.
pub const COORD_BOUND: i64 = 1_000_000_000_000;

/// A position on the playfield, in thousandths of a unit.
#[derive(Clone, Copy, Debug, PartialEq, Eq, Structural)]
pub struct Point {
    pub x: i64,
    pub y: i64,
}

impl Point {
    pub open spec fn in_bounds(self) -> bool {
        -COORD_BOUND <= self.x <= COORD_BOUND && -COORD_BOUND <= self.y <= COORD_BOUND
    }
}

/// Square of the Euclidean distance between two points.
pub open spec fn dist_sq(a: Point, b: Point) -> int {
    (a.x - b.x) * (a.x - b.x) + (a.y - b.y) * (a.y - b.y)
}

/// Two round bodies whose radii add up to `reach` overlap when their centres
/// are closer than `reach`.
pub open spec fn touching(a: Point, b: Point, reach: int) -> bool {
    dist_sq(a, b) < reach * reach
}

/// Keeps a coordinate inside `[-COORD_BOUND, COORD_BOUND]`.
pub open spec fn bounded(v: int) -> int {
    if v > COORD_BOUND {
        COORD_BOUND as int
    } else if v < -COORD_BOUND {
        -COORD_BOUND
    } else {
        v
    }
}

/// Whether the centres of two bodies are closer than `reach`, the sum of
/// their radii. The test compares squared distances, so it is exact.
pub fn contact(a: Point, b: Point, reach: i64) -> (r: bool)
    requires
        a.in_bounds(),
        b.in_bounds(),
        0 <= reach <= COORD_BOUND,
    ensures
        r == touching(a, b, reach as int),
{
    let dx: i128 = a.x as i128 - b.x as i128;
    let dy: i128 = a.y as i128 - b.y as i128;
    let rr: i128 = reach as i128;
    assert(dx * dx <= 4_000_000_000_000_000_000_000_000) by (nonlinear_arith)
        requires
            -2_000_000_000_000 <= dx <= 2_000_000_000_000,
    ;
    assert(dy * dy <= 4_000_000_000_000_000_000_000_000) by (nonlinear_arith)
        requires
            -2_000_000_000_000 <= dy <= 2_000_000_000_000,
    ;
    assert(0 <= dx * dx && 0 <= dy * dy) by (nonlinear_arith);
    assert(rr * rr <= 1_000_000_000_000_000_000_000_000) by (nonlinear_arith)
        requires
            0 <= rr <= 1_000_000_000_000,
    ;
    dx * dx + dy * dy < rr * rr
}

} // verus!
