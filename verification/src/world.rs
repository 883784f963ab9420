//! The world's fixed configuration, in fixed-point units.

use vstd::prelude::*;

verus! {

/// Position sub-units in one world unit.
pub const UNIT: i64 = 1_000_000_000_000;

/// Velocity sub-units in one world unit per second.
pub const SPEED_UNIT: i64 = 1_000_000;

/// Time sub-units (microseconds) in one second.
pub const SECOND: i32 = 1_000_000;

/// Width of the visible field.
pub const FIELD_WIDTH: i64 = 1_200_000_000_000_000;

/// Height of the visible field.
pub const FIELD_HEIGHT: i64 = 800_000_000_000_000;

/// The x coordinate of the field's left edge.
pub const FIELD_LEFT_EDGE: i64 = -600_000_000_000_000;

/// Height of the ground's surface.
pub const GROUND_Y: i64 = -200_000_000_000_000;

/// The x coordinate of the ground slab's centre.
pub const GROUND_X: i64 = 0;

/// The y coordinate of the ground slab's centre.
pub const GROUND_CENTER_Y: i64 = -300_000_000_000_000;

/// Thickness of the ground slab, from the field's bottom to the surface.
pub const GROUND_HEIGHT: i64 = 200_000_000_000_000;

/// Width of the body.
pub const BODY_WIDTH: i64 = 100_000_000_000_000;

/// Height of the body.
pub const BODY_HEIGHT: i64 = 40_000_000_000_000;

/// Half of the body's width.
pub const BODY_HALF_WIDTH: i64 = 50_000_000_000_000;

/// Half of the body's height.
pub const BODY_HALF_HEIGHT: i64 = 20_000_000_000_000;

/// Height of the body's centre when it rests on the ground.
pub const FLOOR_Y: i64 = -180_000_000_000_000;

/// Where a new body appears. It starts with its centre on the surface and is
/// lifted to rest on the ground by the first integration step.
pub const BODY_SPAWN_X: i64 = -400_000_000_000_000;

/// See [`BODY_SPAWN_X`].
pub const BODY_SPAWN_Y: i64 = -200_000_000_000_000;

/// The largest speed a jump can start with: a full charge.
pub const MAX_JUMP_SPEED: i64 = 800_000_000;

/// Twice the energy of the strongest jump, per unit of mass: the square of
/// `MAX_JUMP_SPEED`.
pub const MAX_ENERGY: i64 = 640_000_000_000_000_000;

/// Charge gained per microsecond of holding the jump input. A full charge
/// takes one second.
pub const CHARGE_RATE: i64 = 800;

/// Downward speed gained per microsecond of falling.
pub const GRAVITY: i64 = 800;

/// Width of the obstacle.
pub const OBSTACLE_WIDTH: i64 = 100_000_000_000_000;

/// Height of the obstacle.
pub const OBSTACLE_HEIGHT: i64 = 40_000_000_000_000;

/// Half of the obstacle's width.
pub const OBSTACLE_HALF_WIDTH: i64 = 50_000_000_000_000;

/// Half of the obstacle's height.
pub const OBSTACLE_HALF_HEIGHT: i64 = 20_000_000_000_000;

/// The obstacle's leftward speed.
pub const OBSTACLE_SPEED: i64 = 200_000_000;

/// Where a new obstacle appears: just beyond the right edge, on the ground.
pub const OBSTACLE_SPAWN_X: i64 = 650_000_000_000_000;

/// See [`OBSTACLE_SPAWN_X`].
pub const OBSTACLE_SPAWN_Y: i64 = -180_000_000_000_000;

} // verus!
