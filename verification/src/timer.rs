//! Countdown timers in whole milliseconds: the splash screen delay, the
//! round clock that sends play back to the menu, and the short pause
//! after running into a person.

use vstd::prelude::*;

verus! {

/// How long the splash screen shows before the menu comes up.
pub const SPLASH_MS: u64 = 1_000;

/// How long one round of play lasts before the game returns to the menu.
pub const ROUND_MS: u64 = 60_000;

/// No timer in the game runs longer than this (about eleven days);
/// holding durations to it keeps the tick arithmetic inside `u64`.
pub const DURATION_BOUND_MS: u64 = 1_000_000_000;

/// A single frame never advances a timer by more than this.
pub const DELTA_BOUND_MS: u64 = 1_000_000_000;

/// A countdown over whole milliseconds. A one-shot timer fills up to its
/// duration and then stays finished; a repeating timer wraps around and
/// reports `finished` on every tick in which it crossed its duration.
#[derive(Clone, Copy, Debug, PartialEq, Eq, Structural)]
pub struct Countdown {
    pub duration_ms: u64,
    pub elapsed_ms: u64,
    pub repeating: bool,
    pub finished: bool,
}

impl Countdown {
    pub open spec fn wf(self) -> bool {
        &&& 1 <= self.duration_ms <= DURATION_BOUND_MS
        &&& self.elapsed_ms <= self.duration_ms
        &&& (self.repeating ==> self.elapsed_ms < self.duration_ms)
        &&& (!self.repeating ==> (self.finished <==> self.elapsed_ms == self.duration_ms))
    }

    pub fn new(duration_ms: u64, repeating: bool) -> (t: Countdown)
        requires
            1 <= duration_ms <= DURATION_BOUND_MS,
        ensures
            t == (Countdown { duration_ms, elapsed_ms: 0, repeating, finished: false }),
            t.wf(),
    {
        Countdown { duration_ms, elapsed_ms: 0, repeating, finished: false }
    }

    /// Advances the timer by one frame's worth of time. The timer reports
    /// `finished` exactly when the accumulated time reaches its duration;
    /// a repeating timer then starts over with the remainder, a one-shot
    /// timer stays full.
    pub fn tick(&mut self, delta_ms: u64)
        requires
            old(self).wf(),
            delta_ms <= DELTA_BOUND_MS,
        ensures
            final(self).duration_ms == old(self).duration_ms,
            final(self).repeating == old(self).repeating,
            final(self).wf(),
            final(self).finished == (old(self).elapsed_ms + delta_ms
                >= old(self).duration_ms),
            old(self).repeating ==> final(self).elapsed_ms == (old(self).elapsed_ms
                + delta_ms) % (old(self).duration_ms as int),
            !old(self).repeating ==> final(self).elapsed_ms == if old(self).elapsed_ms
                + delta_ms >= old(self).duration_ms {
                old(self).duration_ms
            } else {
                (old(self).elapsed_ms + delta_ms) as u64
            },
    {
        let total: u64 = self.elapsed_ms + delta_ms;
        if total >= self.duration_ms {
            self.finished = true;
            if self.repeating {
                self.elapsed_ms = total % self.duration_ms;
            } else {
                self.elapsed_ms = self.duration_ms;
            }
        } else {
            self.finished = false;
            self.elapsed_ms = total;
            proof {
                if self.repeating {
                    vstd::arithmetic::div_mod::lemma_small_mod(
                        total as nat,
                        self.duration_ms as nat,
                    );
                }
            }
        }
    }

    /// Starts the countdown over.
    pub fn reset(&mut self)
        ensures
            *final(self) == (Countdown {
                elapsed_ms: 0,
                finished: false,
                ..*old(self)
            }),
    {
        self.elapsed_ms = 0;
        self.finished = false;
    }
}

} // verus!
