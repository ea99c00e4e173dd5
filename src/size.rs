//! The pulsing scale of the square: `|sin(t * v / max * 5)| * 50`.
//!
//! The phase is handed out as an exact fraction; taking its sine is left to
//! the caller, who hands the sine back to `pulse_size`.
use vstd::prelude::*;

use crate::motion::abs;
use crate::SCALE;

verus! {

/// How many radians the phase advances per second at full speed.
pub const PULSE_RATE: i64 = 5;

/// The largest scale the square pulses to, in whole units.
pub const PULSE_AMPLITUDE: i64 = 50;

/// Uniform scale factor of the square, in millionths.
#[derive(Clone, Copy, Debug, PartialEq, Eq, Structural, Default)]
pub struct Size {
    pub size: i64,
}

/// An input on which the scale is undefined.
#[derive(Clone, Copy, Debug, PartialEq, Eq, Structural)]
pub enum DomainError {
    /// The largest speed is zero, so the speed ratio has no value.
    ZeroMaxVelocity,
}

/// The angle `numerator / denominator` radians, held exactly.
#[derive(Clone, Copy, Debug, PartialEq, Eq, Structural)]
pub struct Phase {
    pub numerator: i128,
    pub denominator: i128,
}

impl Size {
    pub fn new(size: i64) -> (r: Size)
        ensures
            r.size == size,
    {
        Size { size }
    }
}

/// The oscillation angle after `elapsed` microseconds at vertical speed
/// `velocity_y`, against the largest speed `max_velocity_y`: in radians,
/// `elapsed / SCALE * (velocity_y / max_velocity_y) * PULSE_RATE`.
pub fn pulse_phase(elapsed: u64, velocity_y: i64, max_velocity_y: i64) -> (r: Result<
    Phase,
    DomainError,
>)
    ensures
        r is Err <==> max_velocity_y == 0,
        r matches Err(e) ==> e == DomainError::ZeroMaxVelocity,
        r matches Ok(p) ==> {
            &&& p.numerator == elapsed * velocity_y
            &&& p.denominator == max_velocity_y * (SCALE / PULSE_RATE)
            &&& p.denominator != 0
            &&& p.numerator * (SCALE * max_velocity_y) == elapsed * velocity_y * PULSE_RATE
                * p.denominator
        },
{
    if max_velocity_y == 0 {
        return Err(DomainError::ZeroMaxVelocity);
    }
    proof {
        let (e, v) = (elapsed as int, velocity_y as int);
        assert(-0x8000_0000_0000_0000 * 0xffff_ffff_ffff_ffff <= e * v
            <= 0x7fff_ffff_ffff_ffff * 0xffff_ffff_ffff_ffff) by (nonlinear_arith)
            requires
                -0x8000_0000_0000_0000 <= v <= 0x7fff_ffff_ffff_ffff,
                0 <= e <= 0xffff_ffff_ffff_ffff,
        ;
    }
    let numerator: i128 = elapsed as i128 * velocity_y as i128;
    let per_radian: i64 = SCALE / PULSE_RATE;
    proof {
        let m = max_velocity_y as int;
        assert(per_radian == 200_000);
        assert(-0x8000_0000_0000_0000 * 200_000 <= m * 200_000 <= 0x7fff_ffff_ffff_ffff * 200_000)
            by (nonlinear_arith)
            requires
                -0x8000_0000_0000_0000 <= m <= 0x7fff_ffff_ffff_ffff,
        ;
    }
    let denominator: i128 = max_velocity_y as i128 * per_radian as i128;
    proof {
        let (n, m) = (numerator as int, max_velocity_y as int);
        assert(n * (1_000_000 * m) == n * 5 * (m * 200_000)) by (nonlinear_arith);
    }
    Ok(Phase { numerator, denominator })
}

/// The scale for a phase whose sine is `sine` (in millionths):
/// `|sine| * PULSE_AMPLITUDE`.
pub fn pulse_size(sine: i64) -> (r: Size)
    requires
        -SCALE <= sine <= SCALE,
    ensures
        r.size == abs(sine as int) * PULSE_AMPLITUDE,
        0 <= r.size <= PULSE_AMPLITUDE * SCALE,
{
    let magnitude: i64 = if sine < 0 {
        -sine
    } else {
        sine
    };
    Size { size: magnitude * PULSE_AMPLITUDE }
}

} // verus!
