//! Frame-stepped core of a side-scrolling obstacle-avoidance game.
//!
//! A body charges and releases jumps over flat ground while a single obstacle
//! approaches from the right; contact ends the round. The crate holds the
//! physics, the obstacle's lifecycle, the collision test and the game-state
//! machine. It never draws: a frame takes a time delta and an input snapshot
//! and gives back the new state and the entities to create or destroy.
//!
//! All quantities are fixed-point integers, so a run is reproducible bit for
//! bit: time in microseconds, velocities in millionths of a world unit per
//! second, positions in millionths of that again. With these scales one
//! integration step is exact and needs no rounding. A frame's time delta is
//! an `i32`, which holds a little under 36 minutes.

pub mod collision;
pub mod frame;
pub mod input;
pub mod laws;
pub mod lifecycle;
pub mod physics;
pub mod spawner;
pub mod state;
pub mod vector;
pub mod world;
