//! The two horizontal walls between which the body moves.
use vstd::prelude::*;

verus! {

/// Vertical extent of the play area, in millionths of a pixel.
#[derive(Clone, Copy, Debug, PartialEq, Eq, Structural)]
pub struct Bounds {
    pub top: i64,
    pub bottom: i64,
}

/// A configuration that the simulation refuses to start with.
#[derive(Clone, Copy, Debug, PartialEq, Eq, Structural)]
pub enum ConfigError {
    /// The top wall does not lie strictly above the bottom wall.
    MalformedBounds,
}

impl Bounds {
    /// The walls are properly ordered.
    pub open spec fn wf(&self) -> bool {
        self.bottom < self.top
    }

    /// `y` moved to the nearest point of `[bottom, top]`.
    pub open spec fn clamped(&self, y: int) -> int {
        if y < self.bottom {
            self.bottom as int
        } else if y > self.top {
            self.top as int
        } else {
            y
        }
    }

    pub fn new(top: i64, bottom: i64) -> (r: Result<Bounds, ConfigError>)
        ensures
            r is Ok <==> bottom < top,
            r matches Ok(b) ==> b.top == top && b.bottom == bottom && b.wf(),
            r matches Err(e) ==> e == ConfigError::MalformedBounds,
    {
        if bottom < top {
            Ok(Bounds { top, bottom })
        } else {
            Err(ConfigError::MalformedBounds)
        }
    }

    /// Walls at `height / 2` and `-(height / 2)`, the division rounding
    /// toward zero.
    pub fn centered(height: i64) -> (r: Result<Bounds, ConfigError>)
        ensures
            r is Ok <==> height >= 2,
            r matches Ok(b) ==> b.top == height / 2 && b.bottom == -(height / 2) && b.wf(),
            r matches Err(e) ==> e == ConfigError::MalformedBounds,
    {
        if height >= 2 {
            let half: i64 = height / 2;
            Ok(Bounds { top: half, bottom: -half })
        } else {
            Err(ConfigError::MalformedBounds)
        }
    }

    /// The hard clamp: raise `y` to the bottom wall, then lower it to the
    /// top wall.
    pub fn clamp(&self, y: i128) -> (r: i64)
        requires
            self.wf(),
        ensures
            r == self.clamped(y as int),
            self.bottom <= r <= self.top,
    {
        let raised: i128 = if y < self.bottom as i128 {
            self.bottom as i128
        } else {
            y
        };
        if raised > self.top as i128 {
            self.top
        } else {
            raised as i64
        }
    }
}

/// Clamping a position that already lies between the walls leaves it
/// unchanged, so clamping twice is the same as clamping once.
pub proof fn lemma_clamp_idempotent(bounds: Bounds, y: int)
    requires
        bounds.wf(),
    ensures
        bounds.bottom <= y <= bounds.top ==> bounds.clamped(y) == y,
        bounds.clamped(bounds.clamped(y)) == bounds.clamped(y),
{
}

} // verus!
