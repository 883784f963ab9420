//! Axis-aligned bounding boxes and the contact test between body and
//! obstacle.

use vstd::prelude::*;
use crate::physics::{Body, BodyModel};
use crate::spawner::{slot_view, Obstacle, ObstacleModel};
use crate::vector::{Point, Vec2};
use crate::world::{
    BODY_HALF_HEIGHT, BODY_HALF_WIDTH, OBSTACLE_HALF_HEIGHT, OBSTACLE_HALF_WIDTH,
};

verus! {

/// The distance between two integers.
pub open spec fn distance(a: int, b: int) -> int {
    if a >= b {
        a - b
    } else {
        b - a
    }
}

/// The model of an [`Aabb`].
pub struct AabbModel {
    pub center: Point,
    pub half_extents: Point,
}

impl AabbModel {
    /// Two boxes intersect when, on each axis, their centres are no further
    /// apart than the sum of their half-extents. Touching counts.
    pub open spec fn overlaps(self, other: AabbModel) -> bool {
        &&& distance(self.center.x, other.center.x) <= self.half_extents.x + other.half_extents.x
        &&& distance(self.center.y, other.center.y) <= self.half_extents.y + other.half_extents.y
    }

    /// The lower left corner.
    pub open spec fn low(self) -> Point {
        Point { x: self.center.x - self.half_extents.x, y: self.center.y - self.half_extents.y }
    }

    /// The upper right corner.
    pub open spec fn high(self) -> Point {
        Point { x: self.center.x + self.half_extents.x, y: self.center.y + self.half_extents.y }
    }
}

/// An axis-aligned box, given by its centre and its half-extents.
#[derive(Clone, Copy, Debug, PartialEq, Eq, Structural)]
pub struct Aabb {
    pub center: Vec2,
    pub half_extents: Vec2,
}

impl View for Aabb {
    type V = AabbModel;

    open spec fn view(&self) -> AabbModel {
        AabbModel { center: self.center@, half_extents: self.half_extents@ }
    }
}

impl Aabb {
    /// The box with the given centre and half-extents.
    pub fn new(center: Vec2, half_extents: Vec2) -> (made: Aabb)
        ensures
            made == (Aabb { center, half_extents }),
    {
        Aabb { center, half_extents }
    }

    /// Whether two boxes intersect.
    pub fn intersects(&self, other: &Aabb) -> (hit: bool)
        ensures
            hit == self@.overlaps(other@),
    {
        let dx: i128 = if self.center.x >= other.center.x {
            (self.center.x as i128) - (other.center.x as i128)
        } else {
            (other.center.x as i128) - (self.center.x as i128)
        };
        let dy: i128 = if self.center.y >= other.center.y {
            (self.center.y as i128) - (other.center.y as i128)
        } else {
            (other.center.y as i128) - (self.center.y as i128)
        };
        let reach_x: i128 = (self.half_extents.x as i128) + (other.half_extents.x as i128);
        let reach_y: i128 = (self.half_extents.y as i128) + (other.half_extents.y as i128);
        dx <= reach_x && dy <= reach_y
    }
}

/// The box of a body at the given place.
pub open spec fn body_box_at(position: Point) -> AabbModel {
    AabbModel {
        center: position,
        half_extents: Point { x: BODY_HALF_WIDTH as int, y: BODY_HALF_HEIGHT as int },
    }
}

/// The box of an obstacle at the given place.
pub open spec fn obstacle_box_at(position: Point) -> AabbModel {
    AabbModel {
        center: position,
        half_extents: Point { x: OBSTACLE_HALF_WIDTH as int, y: OBSTACLE_HALF_HEIGHT as int },
    }
}

/// Whether a body touches what is in the obstacle's slot. An empty slot
/// touches nothing.
pub open spec fn contact(body: BodyModel, slot: Option<ObstacleModel>) -> bool {
    match slot {
        Some(obstacle) => obstacle_box_at(obstacle.position).overlaps(body_box_at(body.position)),
        None => false,
    }
}

/// The box that a body occupies.
pub fn body_box(body: &Body) -> (made: Aabb)
    ensures
        made@ == body_box_at(body@.position),
{
    Aabb::new(body.position, Vec2 { x: BODY_HALF_WIDTH, y: BODY_HALF_HEIGHT })
}

/// The box that an obstacle occupies.
pub fn obstacle_box(obstacle: &Obstacle) -> (made: Aabb)
    ensures
        made@ == obstacle_box_at(obstacle@.position),
{
    Aabb::new(obstacle.position, Vec2 { x: OBSTACLE_HALF_WIDTH, y: OBSTACLE_HALF_HEIGHT })
}

/// Tests the body against the obstacle, if there is one.
pub fn check_collision(body: &Body, slot: &Option<Obstacle>) -> (hit: bool)
    ensures
        hit == contact(body@, slot_view(*slot)),
{
    match slot {
        Some(obstacle) => {
            let rock = obstacle_box(obstacle);
            let car = body_box(body);
            rock.intersects(&car)
        },
        None => false,
    }
}

/// Intersection does not depend on which box is asked.
pub proof fn lemma_intersects_symmetric(a: AabbModel, b: AabbModel)
    ensures
        a.overlaps(b) == b.overlaps(a),
{
}

/// Two boxes intersect exactly when, on each axis, neither begins after the
/// other ends.
pub proof fn lemma_intersects_by_corners(a: AabbModel, b: AabbModel)
    ensures
        a.overlaps(b) <==> {
            &&& a.low().x <= b.high().x
            &&& a.high().x >= b.low().x
            &&& a.low().y <= b.high().y
            &&& a.high().y >= b.low().y
        },
{
}

} // verus!
