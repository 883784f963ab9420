//! Entities and the commands that create and destroy them.
//!
//! The core never builds or drops anything that is drawn. It says what is to
//! be created or destroyed, and whoever renders the game follows.

use vstd::prelude::*;
use crate::vector::Vec2;
use crate::world::{
    BODY_HEIGHT, BODY_SPAWN_X, BODY_SPAWN_Y, BODY_WIDTH, FIELD_WIDTH, GROUND_CENTER_Y,
    GROUND_HEIGHT, GROUND_X, OBSTACLE_HEIGHT, OBSTACLE_SPAWN_X, OBSTACLE_SPAWN_Y, OBSTACLE_SPEED,
    OBSTACLE_WIDTH,
};

verus! {

/// What an entity is.
#[derive(Clone, Copy, Debug, PartialEq, Eq, Structural)]
pub enum EntityKind {
    Body,
    Ground,
    Obstacle,
}

/// Names a live entity. At most one entity of each kind lives at a time, so
/// an entity is named by the slot of its kind.
#[derive(Clone, Copy, Debug, PartialEq, Eq, Structural)]
pub struct EntityId {
    pub slot: u8,
}

/// What a new entity starts with. Position and size are in position units,
/// velocity in velocity units.
#[derive(Clone, Copy, Debug, PartialEq, Eq, Structural)]
pub struct InitialFields {
    pub position: Vec2,
    pub velocity: Vec2,
    pub size: Vec2,
}

/// A subsystem's wish to have an entity created or destroyed. The state
/// machine grants it at the frame boundary.
#[derive(Clone, Copy, Debug, PartialEq, Eq, Structural)]
pub enum LifecycleRequest {
    Create(EntityKind),
    Destroy(EntityId),
}

/// A creation or destruction that has taken place at a frame boundary.
#[derive(Clone, Copy, Debug, PartialEq, Eq, Structural)]
pub enum LifecycleEvent {
    Create(EntityKind, InitialFields),
    Destroy(EntityId),
}

impl EntityKind {
    /// The slot that an entity of this kind occupies.
    pub open spec fn slot(self) -> u8 {
        match self {
            EntityKind::Body => 0,
            EntityKind::Ground => 1,
            EntityKind::Obstacle => 2,
        }
    }

    /// What an entity of this kind starts with.
    pub open spec fn initial_fields(self) -> InitialFields {
        match self {
            EntityKind::Body => InitialFields {
                position: Vec2 { x: BODY_SPAWN_X, y: BODY_SPAWN_Y },
                velocity: Vec2 { x: 0, y: 0 },
                size: Vec2 { x: BODY_WIDTH, y: BODY_HEIGHT },
            },
            EntityKind::Ground => InitialFields {
                position: Vec2 { x: GROUND_X, y: GROUND_CENTER_Y },
                velocity: Vec2 { x: 0, y: 0 },
                size: Vec2 { x: FIELD_WIDTH, y: GROUND_HEIGHT },
            },
            EntityKind::Obstacle => InitialFields {
                position: Vec2 { x: OBSTACLE_SPAWN_X, y: OBSTACLE_SPAWN_Y },
                velocity: Vec2 { x: (-OBSTACLE_SPEED) as i64, y: 0 },
                size: Vec2 { x: OBSTACLE_WIDTH, y: OBSTACLE_HEIGHT },
            },
        }
    }

    /// The event that creates an entity of this kind.
    pub open spec fn created(self) -> LifecycleEvent {
        LifecycleEvent::Create(self, self.initial_fields())
    }

    /// The event that destroys the entity of this kind.
    pub open spec fn destroyed(self) -> LifecycleEvent {
        LifecycleEvent::Destroy(EntityId { slot: self.slot() })
    }

    /// The name of the entity of this kind.
    pub fn id(self) -> (id: EntityId)
        ensures
            id.slot == self.slot(),
            id.kind() == Some(self),
    {
        match self {
            EntityKind::Body => EntityId { slot: 0 },
            EntityKind::Ground => EntityId { slot: 1 },
            EntityKind::Obstacle => EntityId { slot: 2 },
        }
    }

    /// The fields that an entity of this kind starts with.
    pub fn initial(self) -> (fields: InitialFields)
        ensures
            fields == self.initial_fields(),
    {
        match self {
            EntityKind::Body => InitialFields {
                position: Vec2 { x: BODY_SPAWN_X, y: BODY_SPAWN_Y },
                velocity: Vec2 { x: 0, y: 0 },
                size: Vec2 { x: BODY_WIDTH, y: BODY_HEIGHT },
            },
            EntityKind::Ground => InitialFields {
                position: Vec2 { x: GROUND_X, y: GROUND_CENTER_Y },
                velocity: Vec2 { x: 0, y: 0 },
                size: Vec2 { x: FIELD_WIDTH, y: GROUND_HEIGHT },
            },
            EntityKind::Obstacle => InitialFields {
                position: Vec2 { x: OBSTACLE_SPAWN_X, y: OBSTACLE_SPAWN_Y },
                velocity: Vec2 { x: -OBSTACLE_SPEED, y: 0 },
                size: Vec2 { x: OBSTACLE_WIDTH, y: OBSTACLE_HEIGHT },
            },
        }
    }

    /// The event that creates an entity of this kind.
    pub fn create_event(self) -> (event: LifecycleEvent)
        ensures
            event == self.created(),
    {
        LifecycleEvent::Create(self, self.initial())
    }

    /// The event that destroys the entity of this kind.
    pub fn destroy_event(self) -> (event: LifecycleEvent)
        ensures
            event == self.destroyed(),
    {
        LifecycleEvent::Destroy(self.id())
    }
}

impl EntityId {
    /// The kind of entity that this names, if it names one.
    pub open spec fn kind(self) -> Option<EntityKind> {
        if self.slot == 0 {
            Some(EntityKind::Body)
        } else if self.slot == 1 {
            Some(EntityKind::Ground)
        } else if self.slot == 2 {
            Some(EntityKind::Obstacle)
        } else {
            None
        }
    }

    /// The kind of entity that this names, if it names one.
    pub fn entity_kind(self) -> (kind: Option<EntityKind>)
        ensures
            kind == self.kind(),
    {
        if self.slot == 0 {
            Some(EntityKind::Body)
        } else if self.slot == 1 {
            Some(EntityKind::Ground)
        } else if self.slot == 2 {
            Some(EntityKind::Obstacle)
        } else {
            None
        }
    }
}

} // verus!
