//! The orbit camera rig: a third-person camera that circles the avatar
//! at a fixed radius, steered by the arrow keys. Angles are kept in
//! thousandths of a radian; the engine layer does the trigonometry that
//! places the camera from them.

use vstd::prelude::*;
use crate::geom::clamped;

verus! {

/// How far the camera orbits from the avatar, in tenths of a world unit.
pub const ORBIT_RADIUS_TENTHS: i64 = 3_500;

/// How fast the arrow keys swing the camera, in thousandths of a radian
/// per second.
pub const ORBIT_SPEED_MILLI_PER_S: i64 = 1_500;

/// The pitch never quite reaches straight up or straight down: it stays
/// a tenth of a radian short of a right angle, so the camera never flips
/// over the avatar.
pub const PITCH_LIMIT_MILLI: i64 = 1_470;

/// Where the camera starts: behind the avatar (half a turn around) and
/// tilted a radian upward.
pub const START_YAW_MILLI: i64 = 3_142;

/// The starting pitch of the camera.
pub const START_PITCH_MILLI: i64 = 1_000;

/// The yaw accumulates freely as the player circles the avatar; holding
/// it inside this bound keeps the steering arithmetic inside `i64`.
pub const YAW_BOUND_MILLI: i64 = 1_000_000_000_000_000;

/// A frame never advances the steering by more than this many
/// milliseconds.
pub const STEER_DELTA_BOUND_MS: u64 = 1_000_000_000;

/// The orbit camera's pose around the avatar: distance, heading and tilt.
#[derive(Clone, Copy, Debug, PartialEq, Eq, Structural)]
pub struct OrbitRig {
    pub radius_tenths: i64,
    pub yaw_milli: i64,
    pub pitch_milli: i64,
}

/// How many thousandths of a radian the camera swings in a frame of
/// `delta_ms` milliseconds.
pub open spec fn steer_step_milli(delta_ms: u64) -> int {
    ORBIT_SPEED_MILLI_PER_S * delta_ms / 1000
}

impl OrbitRig {
    /// The tilt stays short of vertical and the heading inside its
    /// working bound.
    pub open spec fn wf(self) -> bool {
        &&& -PITCH_LIMIT_MILLI <= self.pitch_milli <= PITCH_LIMIT_MILLI
        &&& -YAW_BOUND_MILLI <= self.yaw_milli <= YAW_BOUND_MILLI
    }

    /// The rig as the game starts it.
    pub fn start() -> (rig: OrbitRig)
        ensures
            rig == (OrbitRig {
                radius_tenths: ORBIT_RADIUS_TENTHS,
                yaw_milli: START_YAW_MILLI,
                pitch_milli: START_PITCH_MILLI,
            }),
            rig.wf(),
    {
        OrbitRig {
            radius_tenths: ORBIT_RADIUS_TENTHS,
            yaw_milli: START_YAW_MILLI,
            pitch_milli: START_PITCH_MILLI,
        }
    }

    /// Applies one frame of arrow-key steering: left and right swing the
    /// heading, up and down tilt the camera, and the tilt is then clamped
    /// short of vertical. Opposite keys held together cancel out.
    pub fn steer(&mut self, left: bool, right: bool, up: bool, down: bool, delta_ms: u64)
        requires
            old(self).wf(),
            delta_ms <= STEER_DELTA_BOUND_MS,
        ensures
            final(self).radius_tenths == old(self).radius_tenths,
            final(self).yaw_milli == old(self).yaw_milli
                + (if left { steer_step_milli(delta_ms) } else { 0int })
                - (if right { steer_step_milli(delta_ms) } else { 0int }),
            final(self).pitch_milli == clamped(
                old(self).pitch_milli
                    + (if up { steer_step_milli(delta_ms) } else { 0int })
                    - (if down { steer_step_milli(delta_ms) } else { 0int }),
                -PITCH_LIMIT_MILLI as int,
                PITCH_LIMIT_MILLI as int,
            ),
            -PITCH_LIMIT_MILLI <= final(self).pitch_milli <= PITCH_LIMIT_MILLI,
    {
        let step: i64 = ORBIT_SPEED_MILLI_PER_S * (delta_ms as i64) / 1000;
        if left {
            self.yaw_milli = self.yaw_milli + step;
        }
        if right {
            self.yaw_milli = self.yaw_milli - step;
        }
        if up {
            self.pitch_milli = self.pitch_milli + step;
        }
        if down {
            self.pitch_milli = self.pitch_milli - step;
        }
        if self.pitch_milli < -PITCH_LIMIT_MILLI {
            self.pitch_milli = -PITCH_LIMIT_MILLI;
        }
        if self.pitch_milli > PITCH_LIMIT_MILLI {
            self.pitch_milli = PITCH_LIMIT_MILLI;
        }
    }
}

} // verus!
