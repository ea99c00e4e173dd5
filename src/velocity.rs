//! Rate components attached to the moving body.
use vstd::prelude::*;

use crate::vector::Vector2;

verus! {

/// Current velocity, in millionths of a pixel per second.
#[derive(Clone, Copy, Debug, PartialEq, Eq, Structural, Default)]
pub struct Velocity(pub Vector2);

/// Largest speed allowed on each axis, in millionths of a pixel per second.
#[derive(Clone, Copy, Debug, PartialEq, Eq, Structural, Default)]
pub struct MaxVelocity(pub Vector2);

/// Current acceleration, in millionths of a pixel per second squared.
#[derive(Clone, Copy, Debug, PartialEq, Eq, Structural, Default)]
pub struct Acceleration(pub Vector2);

} // verus!
