//! One integration step of the bouncing body.
use vstd::prelude::*;

use crate::bounds::Bounds;
use crate::position::Position2d;
use crate::velocity::{Acceleration, MaxVelocity, Velocity};
use crate::SCALE;

verus! {

/// The state of the single simulated body.
#[derive(Clone, Copy, Debug, PartialEq, Eq, Structural)]
pub struct Body {
    pub position: Position2d,
    pub velocity: Velocity,
    pub max_velocity: MaxVelocity,
    pub acceleration: Acceleration,
}

/// `a / d` rounded toward zero, as Rust's integer division does.
pub open spec fn div_toward_zero(a: int, d: int) -> int {
    if (a >= 0) == (d > 0) {
        abs(a) / abs(d)
    } else {
        -(abs(a) / abs(d))
    }
}

pub open spec fn abs(v: int) -> int {
    if v < 0 {
        -v
    } else {
        v
    }
}

/// Sign of `v`, where zero counts as positive.
pub open spec fn sign(v: int) -> int {
    if v < 0 {
        -1
    } else {
        1
    }
}

/// Half of the change that `rate` (per second) makes over `dt` microseconds.
pub open spec fn half_change(rate: int, dt: int) -> int {
    div_toward_zero(rate * dt, 2 * SCALE)
}

impl Body {
    /// The values of the body that `step` can compute without overflow.
    pub open spec fn steppable(&self) -> bool {
        &&& self.max_velocity.0.y > i64::MIN
        &&& self.acceleration.0.y > i64::MIN
    }

    /// Vertical position after the half-step move, before any clamping.
    pub open spec fn moved_y(&self, dt: int) -> int {
        self.position.y + half_change(self.velocity.0.y as int, dt)
    }

    /// Vertical velocity after the half-step acceleration, before any clamping.
    pub open spec fn sped_y(&self, dt: int) -> int {
        self.velocity.0.y + half_change(self.acceleration.0.y as int, dt)
    }

    /// The half-step velocity exceeds the largest speed allowed.
    pub open spec fn overspeeds(&self, dt: int) -> bool {
        abs(self.sped_y(dt)) > self.max_velocity.0.y
    }

    /// The half-step move ends above the top wall or below the bottom wall.
    pub open spec fn hits_wall(&self, bounds: Bounds, dt: int) -> bool {
        self.moved_y(dt) > bounds.top || self.moved_y(dt) < bounds.bottom
    }

    pub open spec fn next_position_y(&self, bounds: Bounds, dt: int) -> int {
        bounds.clamped(self.moved_y(dt))
    }

    pub open spec fn next_velocity_y(&self, bounds: Bounds, dt: int) -> int {
        let v = if self.overspeeds(dt) {
            self.max_velocity.0.y * sign(self.sped_y(dt))
        } else {
            self.sped_y(dt)
        };
        if self.hits_wall(bounds, dt) {
            -v
        } else {
            v
        }
    }

    pub open spec fn next_acceleration_y(&self, bounds: Bounds, dt: int) -> int {
        let a = if self.overspeeds(dt) {
            -self.acceleration.0.y
        } else {
            self.acceleration.0.y as int
        };
        if self.hits_wall(bounds, dt) {
            -a
        } else {
            a
        }
    }
}

/// Half of the change that `rate` (per second) makes over `dt` microseconds,
/// rounded toward zero.
fn half_change_of(rate: i64, dt: u64) -> (r: i128)
    ensures
        r == half_change(rate as int, dt as int),
        -0x4000_0000_0000_0000_0000_0000_0000_0000 <= r <= 0x4000_0000_0000_0000_0000_0000_0000_0000,
{
    let d: i128 = 2 * SCALE as i128;
    proof {
        let (a, b) = (rate as int, dt as int);
        assert(-0x8000_0000_0000_0000 * 0xffff_ffff_ffff_ffff <= a * b
            <= 0x7fff_ffff_ffff_ffff * 0xffff_ffff_ffff_ffff) by (nonlinear_arith)
            requires
                -0x8000_0000_0000_0000 <= a <= 0x7fff_ffff_ffff_ffff,
                0 <= b <= 0xffff_ffff_ffff_ffff,
        ;
    }
    let product: i128 = rate as i128 * dt as i128;
    let magnitude: i128 = if product >= 0 {
        product
    } else {
        -product
    };
    let q: i128 = magnitude / d;
    proof {
        let (m, dd) = (magnitude as int, d as int);
        assert(m / dd <= m / 2) by (nonlinear_arith)
            requires
                0 <= m,
                2 <= dd,
        ;
    }
    if product >= 0 {
        q
    } else {
        -q
    }
}

impl Body {
    /// Advances the body by `dt` microseconds: a half-step move and a
    /// half-step acceleration, then the speed limit, then the bounce off
    /// either wall, then the hard clamp of the position between the walls.
    pub fn step(&mut self, bounds: &Bounds, dt: u64)
        requires
            bounds.wf(),
            old(self).steppable(),
        ensures
            final(self).position.x == old(self).position.x,
            final(self).velocity.0.x == old(self).velocity.0.x,
            final(self).acceleration.0.x == old(self).acceleration.0.x,
            final(self).max_velocity == old(self).max_velocity,
            final(self).position.y == old(self).next_position_y(*bounds, dt as int),
            final(self).velocity.0.y == old(self).next_velocity_y(*bounds, dt as int),
            final(self).acceleration.0.y == old(self).next_acceleration_y(*bounds, dt as int),
            final(self).steppable(),
            bounds.bottom <= final(self).position.y <= bounds.top,
            old(self).max_velocity.0.y >= 0 ==> abs(final(self).velocity.0.y as int)
                <= final(self).max_velocity.0.y,
    {
        let max: i64 = self.max_velocity.0.y;
        let moved: i128 = self.position.y as i128 + half_change_of(self.velocity.0.y, dt);
        let sped: i128 = self.velocity.0.y as i128 + half_change_of(self.acceleration.0.y, dt);
        let speed: i128 = if sped < 0 {
            -sped
        } else {
            sped
        };
        let mut velocity: i64;
        if speed > max as i128 {
            velocity = if sped < 0 {
                -max
            } else {
                max
            };
            self.acceleration.0.y = -self.acceleration.0.y;
        } else {
            velocity = sped as i64;
        }
        if moved > bounds.top as i128 || moved < bounds.bottom as i128 {
            velocity = -velocity;
            self.acceleration.0.y = -self.acceleration.0.y;
        }
        self.velocity.0.y = velocity;
        self.position.y = bounds.clamp(moved);
    }
}

} // verus!
