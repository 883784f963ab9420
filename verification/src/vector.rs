//! Two-dimensional fixed-point vectors and their mathematical model.

use vstd::prelude::*;

verus! {

/// A point of the integer plane: the model of a [`Vec2`].
pub struct Point {
    pub x: int,
    pub y: int,
}

/// A pair of fixed-point coordinates. Which scale a value carries depends on
/// what it measures: a position or a velocity.
#[derive(Clone, Copy, Debug, PartialEq, Eq, Structural)]
pub struct Vec2 {
    pub x: i64,
    pub y: i64,
}

impl View for Vec2 {
    type V = Point;

    open spec fn view(&self) -> Point {
        Point { x: self.x as int, y: self.y as int }
    }
}

impl Vec2 {
    /// The origin.
    pub fn zero() -> (v: Vec2)
        ensures
            v@ == (Point { x: 0, y: 0 }),
    {
        Vec2 { x: 0, y: 0 }
    }

    /// The vector with the given coordinates.
    pub fn new(x: i64, y: i64) -> (v: Vec2)
        ensures
            v@ == (Point { x: x as int, y: y as int }),
    {
        Vec2 { x, y }
    }
}

/// Two vectors with the same model are the same vector.
pub proof fn lemma_view_injective(a: Vec2, b: Vec2)
    requires
        a@ == b@,
    ensures
        a == b,
{
}

} // verus!
