//! Simulation core of a small 2D arcade game: a player ship that fires
//! bullets at minions descending from the top of the playfield.
//!
//! Coordinates are fixed-point integers in thousandths of a playfield unit,
//! time is counted in milliseconds, and speeds are playfield units per
//! second, so that a body moving at speed `s` for `t` milliseconds travels
//! exactly `s * t` thousandths of a unit.

pub mod body;
pub mod clock;
pub mod geometry;
pub mod laws;
pub mod random;
pub mod world;

pub use body::Body;
pub use world::{Cues, MinionPlugin, Player, Steer, World, MINION_CAP};

pub use clock::Clock;
pub use geometry::{
    contact, Point, BULLET_CEILING, BULLET_RADIUS, BULLET_SIZE, BULLET_SPEED, COORD_BOUND,
    MILLI, MINIONS_SIZE, MINIONS_SPEED, MINION_FLOOR, MINION_RADIUS, MINION_TOP, PLAYER_RADIUS,
    PLAYER_SIZE, PLAYER_SPEED, X_LIMIT, Y_LIMIT,
};
pub use random::{draw_spawn_x, spawn_x};
