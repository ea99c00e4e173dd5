//! Position of the moving body in the plane.
use vstd::prelude::*;

use crate::motion::div_toward_zero;
use crate::vector::{Vector2, Vector3};
use crate::SCALE;

verus! {

/// A point in the plane, each coordinate in millionths of a pixel.
#[derive(Clone, Copy, Debug, PartialEq, Eq, Structural, Default)]
pub struct Position2d {
    pub x: i64,
    pub y: i64,
}

/// `c / z` in fixed point, rounded toward zero.
pub open spec fn projected(c: int, z: int) -> int {
    div_toward_zero(c * SCALE, z)
}

pub open spec fn fits_i64(v: int) -> bool {
    i64::MIN <= v <= i64::MAX
}

fn project(c: i64, z: i64) -> (r: i64)
    requires
        z != 0,
        fits_i64(projected(c as int, z as int)),
    ensures
        r == projected(c as int, z as int),
{
    let scaled: i128 = c as i128 * SCALE as i128;
    let magnitude: i128 = if scaled >= 0 {
        scaled
    } else {
        -scaled
    };
    let divisor: i128 = if z > 0 {
        z as i128
    } else {
        -(z as i128)
    };
    let q: i128 = magnitude / divisor;
    if (scaled >= 0) == (z > 0) {
        q as i64
    } else {
        -q as i64
    }
}

impl Position2d {
    /// The point that the homogeneous coordinates `(x, y, z)` stand for:
    /// `(x / z, y / z)`.
    pub fn from_vec3(vec3: Vector3) -> (r: Position2d)
        requires
            vec3.z != 0,
            fits_i64(projected(vec3.x as int, vec3.z as int)),
            fits_i64(projected(vec3.y as int, vec3.z as int)),
        ensures
            r.x == projected(vec3.x as int, vec3.z as int),
            r.y == projected(vec3.y as int, vec3.z as int),
    {
        Position2d { x: project(vec3.x, vec3.z), y: project(vec3.y, vec3.z) }
    }

    /// The point `(x, y)`, with `z` dropped.
    pub fn lossy_from_vec3(vec3: Vector3) -> (r: Position2d)
        ensures
            r.x == vec3.x,
            r.y == vec3.y,
    {
        Position2d { x: vec3.x, y: vec3.y }
    }
}

impl From<Vector2> for Position2d {
    fn from(value: Vector2) -> (r: Position2d) {
        Position2d { x: value.x, y: value.y }
    }
}

impl vstd::std_specs::convert::FromSpecImpl<Vector2> for Position2d {
    open spec fn obeys_from_spec() -> bool {
        true
    }

    open spec fn from_spec(value: Vector2) -> Position2d {
        Position2d { x: value.x, y: value.y }
    }
}

impl From<Position2d> for Vector2 {
    fn from(value: Position2d) -> (r: Vector2) {
        Vector2 { x: value.x, y: value.y }
    }
}

impl vstd::std_specs::convert::FromSpecImpl<Position2d> for Vector2 {
    open spec fn obeys_from_spec() -> bool {
        true
    }

    open spec fn from_spec(value: Position2d) -> Vector2 {
        Vector2 { x: value.x, y: value.y }
    }
}

/// The point as homogeneous coordinates, with `z` at one.
impl From<Position2d> for Vector3 {
    fn from(value: Position2d) -> (r: Vector3) {
        Vector3 { x: value.x, y: value.y, z: SCALE }
    }
}

impl vstd::std_specs::convert::FromSpecImpl<Position2d> for Vector3 {
    open spec fn obeys_from_spec() -> bool {
        true
    }

    open spec fn from_spec(value: Position2d) -> Vector3 {
        Vector3 { x: value.x, y: value.y, z: SCALE }
    }
}

/// Turning a point into homogeneous coordinates and back gives the same point.
pub proof fn lemma_homogeneous_round_trip(p: Position2d)
    ensures
        projected(p.x as int, SCALE as int) == p.x,
        projected(p.y as int, SCALE as int) == p.y,
{
    assert(projected(p.x as int, SCALE as int) == p.x) by (nonlinear_arith)
        requires
            p.x >= 0 ==> projected(p.x as int, SCALE as int) == (p.x * SCALE) / SCALE as int,
            p.x < 0 ==> projected(p.x as int, SCALE as int) == -((-p.x * SCALE) / SCALE as int),
    ;
    assert(projected(p.y as int, SCALE as int) == p.y) by (nonlinear_arith)
        requires
            p.y >= 0 ==> projected(p.y as int, SCALE as int) == (p.y * SCALE) / SCALE as int,
            p.y < 0 ==> projected(p.y as int, SCALE as int) == -((-p.y * SCALE) / SCALE as int),
    ;
}

} // verus!
