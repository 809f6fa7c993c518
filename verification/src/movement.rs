//! Per-frame movement decisions for the player avatar: which way the
//! held keys point it, whether it moves at all, and whether it turns.

use vstd::prelude::*;

verus! {

/// How fast the avatar walks, in tenths of a world unit per second.
pub const WALK_SPEED_TENTHS_PER_S: i64 = 500;

/// How fast the avatar turns toward its direction of travel, in
/// thousandths of a radian per second.
pub const TURN_SPEED_MILLI_PER_S: i64 = 3_000;

/// The direction the held keys ask the avatar to move in, one step per
/// axis: `dx` runs along the forward axis, `dz` along the sideways axis.
#[derive(Clone, Copy, Debug, PartialEq, Eq, Structural)]
pub struct MoveIntent {
    pub dx: i8,
    pub dz: i8,
    /// Whether a sideways key is held, which is what makes the avatar
    /// turn toward where it is going.
    pub sideways_held: bool,
}

/// Reads the four movement keys into a movement intent: forward and
/// backward cancel on the forward axis, left and right on the sideways
/// axis, and holding either sideways key marks the intent as turning.
pub fn move_intent(forward: bool, backward: bool, left: bool, right: bool) -> (m: MoveIntent)
    ensures
        m.dx == (if forward { 1int } else { 0int }) - (if backward { 1int } else { 0int }),
        m.dz == (if right { 1int } else { 0int }) - (if left { 1int } else { 0int }),
        m.sideways_held == (left || right),
{
    let mut dx: i8 = 0;
    let mut dz: i8 = 0;
    if forward {
        dx = dx + 1;
    }
    if backward {
        dx = dx - 1;
    }
    if left {
        dz = dz - 1;
    }
    if right {
        dz = dz + 1;
    }
    MoveIntent { dx, dz, sideways_held: left || right }
}

impl MoveIntent {
    /// Whether the avatar moves at all this frame.
    pub fn moving(&self) -> (r: bool)
        ensures
            r == (self.dx != 0 || self.dz != 0),
    {
        self.dx != 0 || self.dz != 0
    }

    /// Whether the avatar also turns toward its direction of travel:
    /// only when it moves and a sideways key is held.
    pub fn turning(&self) -> (r: bool)
        ensures
            r == ((self.dx != 0 || self.dz != 0) && self.sideways_held),
    {
        (self.dx != 0 || self.dz != 0) && self.sideways_held
    }
}

} // verus!
