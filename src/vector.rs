//! Plain two- and three-component vectors of fixed-point values.
use vstd::prelude::*;

verus! {

/// A two-component vector, each component in millionths of a unit.
#[derive(Clone, Copy, Debug, PartialEq, Eq, Structural, Default)]
pub struct Vector2 {
    pub x: i64,
    pub y: i64,
}

/// A three-component vector, each component in millionths of a unit.
#[derive(Clone, Copy, Debug, PartialEq, Eq, Structural, Default)]
pub struct Vector3 {
    pub x: i64,
    pub y: i64,
    pub z: i64,
}

impl Vector2 {
    pub fn new(x: i64, y: i64) -> (r: Vector2)
        ensures
            r.x == x,
            r.y == y,
    {
        Vector2 { x, y }
    }

    /// Both components set to `v`.
    pub fn splat(v: i64) -> (r: Vector2)
        ensures
            r.x == v,
            r.y == v,
    {
        Vector2 { x: v, y: v }
    }
}

impl Vector3 {
    pub fn new(x: i64, y: i64, z: i64) -> (r: Vector3)
        ensures
            r.x == x,
            r.y == y,
            r.z == z,
    {
        Vector3 { x, y, z }
    }
}

} // verus!
