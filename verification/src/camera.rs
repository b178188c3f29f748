//! Camera-follow policy: the camera eases toward the player's progress by a
//! fixed fraction of the remaining distance each tick, and only forward
//! progress ever pulls its target — the endless-runner convention.

use vstd::prelude::*;
use crate::player::PLAYER_X_CAP;

verus! {

/// Fraction divisor of the easing step: each tick the camera covers one
/// quarter of the distance left to its target.
pub const CAMERA_DIV: i64 = 4;

/// The camera: its current position and the target it eases toward.
#[derive(Clone, Copy, PartialEq, Eq, Structural, Debug)]
pub struct Camera {
    pub x: i64,
    pub target: i64,
}

/// The camera after one tick of following progress `p`: the target is the
/// maximum of the old target and `p` (backward motion never pulls it), and
/// the position moves a quarter of the remaining distance toward it.
pub open spec fn eased(c: Camera, p: int) -> Camera {
    let t2 = if p > c.target {
        p
    } else {
        c.target as int
    };
    Camera { x: (c.x + (t2 - c.x) / CAMERA_DIV as int) as i64, target: t2 as i64 }
}

impl Camera {
    /// Well-formed: the camera never passes its target and both stay in the
    /// world's coordinate range.
    pub open spec fn wf(self) -> bool {
        0 <= self.x <= self.target <= PLAYER_X_CAP
    }

    /// A camera at the world origin.
    pub fn origin() -> (c: Camera)
        ensures
            c == (Camera { x: 0, target: 0 }),
            c.wf(),
    {
        Camera { x: 0, target: 0 }
    }

    /// Follow the player's progress for one tick: ease toward the target,
    /// never snapping (the step never passes the target) and never moving
    /// backward.
    pub fn track(&mut self, progress: i64)
        requires
            old(self).wf(),
            0 <= progress <= PLAYER_X_CAP,
        ensures
            *final(self) == eased(*old(self), progress as int),
            final(self).wf(),
            old(self).x <= final(self).x,
            old(self).target <= final(self).target,
    {
        if progress > self.target {
            self.target = progress;
        }
        self.x = self.x + (self.target - self.x) / CAMERA_DIV;
    }
}

} // verus!
