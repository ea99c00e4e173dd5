//! Simulation core of a square that bounces vertically between two walls
//! and pulses in size as it moves.
//!
//! All quantities are fixed-point integers: lengths, speeds, accelerations,
//! scale factors and sine values are counted in millionths of their unit
//! (`SCALE` steps per unit), and time is counted in microseconds.
use vstd::prelude::*;

pub mod bounds;
pub mod motion;
pub mod position;
pub mod size;
pub mod vector;
pub mod velocity;

verus! {

/// Number of fixed-point steps in one unit (one pixel, one unit of scale,
/// a sine of one), and number of microseconds in one second.
pub const SCALE: i64 = 1_000_000;

} // verus!
