//! The obstacle and its single-slot lifecycle: move it while it is there,
//! ask for its removal once it has left the field, ask for a new one when
//! there is none.

use vstd::prelude::*;
use crate::lifecycle::{EntityId, EntityKind, LifecycleRequest};
use crate::vector::{Point, Vec2};
use crate::world::{
    FIELD_LEFT_EDGE, OBSTACLE_HALF_WIDTH, OBSTACLE_SPAWN_X, OBSTACLE_SPAWN_Y, OBSTACLE_SPEED,
};

verus! {

/// The model of an [`Obstacle`].
pub struct ObstacleModel {
    pub position: Point,
    pub velocity: Point,
}

impl ObstacleModel {
    /// A freshly created obstacle: at the spawn point, moving left.
    pub open spec fn spawn() -> ObstacleModel {
        ObstacleModel {
            position: Point { x: OBSTACLE_SPAWN_X as int, y: OBSTACLE_SPAWN_Y as int },
            velocity: Point { x: -OBSTACLE_SPEED, y: 0 },
        }
    }

    /// The obstacle's box has fully left the field on the left.
    pub open spec fn exited(self) -> bool {
        self.position.x + OBSTACLE_HALF_WIDTH < FIELD_LEFT_EDGE
    }

    /// What holds of every obstacle between frames: it moves left at the
    /// fixed speed and has not left the field.
    pub open spec fn wf(self) -> bool {
        &&& self.velocity == (Point { x: -OBSTACLE_SPEED, y: 0 })
        &&& !self.exited()
    }

    /// The obstacle after moving left for `dt` microseconds.
    pub open spec fn advance(self, dt: int) -> ObstacleModel {
        ObstacleModel {
            position: Point { x: self.position.x - OBSTACLE_SPEED * dt, y: self.position.y },
            ..self
        }
    }
}

/// What the spawner does to the slot in one frame: the obstacle after its
/// move, if there is one.
pub open spec fn spawner_moves(slot: Option<ObstacleModel>, dt: int) -> Option<ObstacleModel> {
    match slot {
        Some(obstacle) => Some(obstacle.advance(dt)),
        None => None,
    }
}

/// What the spawner asks for in one frame: a new obstacle where there is
/// none, the removal of one that has left the field with this move, nothing
/// otherwise.
pub open spec fn spawner_requests(slot: Option<ObstacleModel>, dt: int) -> Option<
    LifecycleRequest,
> {
    match slot {
        Some(obstacle) => if obstacle.advance(dt).exited() {
            Some(LifecycleRequest::Destroy(EntityId { slot: EntityKind::Obstacle.slot() }))
        } else {
            None
        },
        None => Some(LifecycleRequest::Create(EntityKind::Obstacle)),
    }
}

/// The thing to jump over.
#[derive(Clone, Copy, Debug, PartialEq, Eq, Structural)]
pub struct Obstacle {
    /// Centre of the obstacle, in position units.
    pub position: Vec2,
    /// In velocity units.
    pub velocity: Vec2,
}

impl View for Obstacle {
    type V = ObstacleModel;

    open spec fn view(&self) -> ObstacleModel {
        ObstacleModel { position: self.position@, velocity: self.velocity@ }
    }
}

/// The model of an optional obstacle.
pub open spec fn slot_view(slot: Option<Obstacle>) -> Option<ObstacleModel> {
    match slot {
        Some(obstacle) => Some(obstacle@),
        None => None,
    }
}

/// What one frame of the spawner gives: the obstacle after its move, and what
/// the spawner asks of the lifecycle.
#[derive(Clone, Copy, Debug, PartialEq, Eq, Structural)]
pub struct SpawnerOutcome {
    pub obstacle: Option<Obstacle>,
    pub request: Option<LifecycleRequest>,
}

impl Obstacle {
    /// Validity of an obstacle: see [`ObstacleModel::wf`].
    pub open spec fn wf(&self) -> bool {
        self@.wf()
    }

    /// A freshly created obstacle: at the spawn point, moving left.
    pub fn spawn() -> (obstacle: Obstacle)
        ensures
            obstacle@ == ObstacleModel::spawn(),
            obstacle.wf(),
    {
        Obstacle {
            position: Vec2 { x: OBSTACLE_SPAWN_X, y: OBSTACLE_SPAWN_Y },
            velocity: Vec2 { x: -OBSTACLE_SPEED, y: 0 },
        }
    }

    /// Whether the obstacle's box has fully left the field on the left.
    pub fn has_exited(&self) -> (exited: bool)
        ensures
            exited == self@.exited(),
    {
        (self.position.x as i128) + (OBSTACLE_HALF_WIDTH as i128) < FIELD_LEFT_EDGE as i128
    }

    /// Whether the obstacle is valid.
    pub fn is_valid(&self) -> (valid: bool)
        ensures
            valid == self.wf(),
    {
        self.velocity.x == -OBSTACLE_SPEED && self.velocity.y == 0 && !self.has_exited()
    }

    /// The obstacle at the given position, moving left at the fixed speed, if
    /// that position is still in the field.
    pub fn at(position: Vec2) -> (made: Option<Obstacle>)
        ensures
            made == (if (Obstacle {
                position,
                velocity: Vec2 { x: (-OBSTACLE_SPEED) as i64, y: 0 },
            }).wf() {
                Some(Obstacle { position, velocity: Vec2 { x: (-OBSTACLE_SPEED) as i64, y: 0 } })
            } else {
                None
            }),
    {
        let obstacle = Obstacle { position, velocity: Vec2 { x: -OBSTACLE_SPEED, y: 0 } };
        if obstacle.is_valid() {
            Some(obstacle)
        } else {
            None
        }
    }

    /// The obstacle after moving left for `delta_time` microseconds. The
    /// result may have left the field.
    pub fn advance(&self, delta_time: i32) -> (out: Obstacle)
        requires
            self.wf(),
            0 <= delta_time,
        ensures
            out@ == self@.advance(delta_time as int),
    {
        let travelled: i64 = OBSTACLE_SPEED * (delta_time as i64);
        Obstacle {
            position: Vec2 { x: self.position.x - travelled, y: self.position.y },
            velocity: self.velocity,
        }
    }
}

/// One frame of the spawner on the obstacle's slot.
pub fn update_obstacle(slot: Option<Obstacle>, delta_time: i32) -> (out: SpawnerOutcome)
    requires
        slot matches Some(obstacle) ==> obstacle.wf(),
        0 <= delta_time,
    ensures
        slot_view(out.obstacle) == spawner_moves(slot_view(slot), delta_time as int),
        out.request == spawner_requests(slot_view(slot), delta_time as int),
{
    match slot {
        Some(obstacle) => {
            let moved = obstacle.advance(delta_time);
            let request = if moved.has_exited() {
                Some(LifecycleRequest::Destroy(EntityKind::Obstacle.id()))
            } else {
                None
            };
            SpawnerOutcome { obstacle: Some(moved), request }
        },
        None => SpawnerOutcome {
            obstacle: None,
            request: Some(LifecycleRequest::Create(EntityKind::Obstacle)),
        },
    }
}

} // verus!
