//! Countdown timer used throughout the simulation: cooldowns, the coyote
//! window, respawn delays, destruction delays and animation frame pacing.
//!
//! A timer counts elapsed milliseconds up to a fixed duration.  A
//! non-repeating timer clamps at its duration and then reports `finished`
//! forever (until reset); a repeating timer wraps around and reports
//! `finished` only on the ticks where it wrapped.  A paused timer ignores
//! elapsed time entirely, so pausing and resetting the coyote timer freezes
//! the grace window while the player stands on ground.

use vstd::prelude::*;

verus! {

/// Upper bound on a timer's duration, in milliseconds.
pub const MAX_DURATION_MS: u64 = 1_000_000_000;

/// Upper bound on a single tick's elapsed time, in milliseconds.
pub const MAX_DELTA_MS: u64 = 1_000_000_000;

#[derive(Clone, Copy, Debug, PartialEq, Eq, Structural)]
pub struct Timer {
    pub duration_ms: u64,
    pub elapsed_ms: u64,
    pub repeating: bool,
    pub paused: bool,
    pub just_finished: bool,
}

impl Timer {
    /// A timer is well formed when its duration is positive, bounded, and the
    /// elapsed time never exceeds the duration.
    pub open spec fn wf(self) -> bool {
        0 < self.duration_ms <= MAX_DURATION_MS && self.elapsed_ms <= self.duration_ms
    }

    /// Whether the timer reports completion: a repeating timer only on the
    /// tick where it wrapped, a non-repeating timer from the moment it ran out.
    pub open spec fn spec_finished(self) -> bool {
        if self.repeating {
            self.just_finished
        } else {
            self.elapsed_ms >= self.duration_ms
        }
    }

    /// The state after one tick of `delta_ms` elapsed milliseconds.
    pub open spec fn spec_tick(self, delta_ms: u64) -> Timer {
        if self.paused {
            self
        } else if self.repeating {
            if self.elapsed_ms + delta_ms >= self.duration_ms {
                Timer {
                    elapsed_ms: ((self.elapsed_ms + delta_ms) % (self.duration_ms as int)) as u64,
                    just_finished: true,
                    ..self
                }
            } else {
                Timer { elapsed_ms: (self.elapsed_ms + delta_ms) as u64, just_finished: false, ..self }
            }
        } else {
            if self.elapsed_ms + delta_ms >= self.duration_ms {
                Timer { elapsed_ms: self.duration_ms, just_finished: self.elapsed_ms < self.duration_ms, ..self }
            } else {
                Timer { elapsed_ms: (self.elapsed_ms + delta_ms) as u64, just_finished: false, ..self }
            }
        }
    }

    /// A fresh, unpaused, unfinished timer.
    pub fn from_millis(duration_ms: u64, repeating: bool) -> (t: Timer)
        requires
            0 < duration_ms <= MAX_DURATION_MS,
        ensures
            t == (Timer {
                duration_ms,
                elapsed_ms: 0,
                repeating,
                paused: false,
                just_finished: false,
            }),
            t.wf(),
    {
        Timer { duration_ms, elapsed_ms: 0, repeating, paused: false, just_finished: false }
    }

    /// Advance the timer by `delta_ms` elapsed milliseconds.  While paused
    /// this is a no-op.
    pub fn tick(&mut self, delta_ms: u64)
        requires
            old(self).wf(),
            delta_ms <= MAX_DELTA_MS,
        ensures
            *final(self) == old(self).spec_tick(delta_ms),
            final(self).wf(),
    {
        if self.paused {
            return;
        }
        let total: u64 = self.elapsed_ms + delta_ms;
        if self.repeating {
            if total >= self.duration_ms {
                self.elapsed_ms = total % self.duration_ms;
                self.just_finished = true;
            } else {
                self.elapsed_ms = total;
                self.just_finished = false;
            }
        } else {
            if total >= self.duration_ms {
                self.just_finished = self.elapsed_ms < self.duration_ms;
                self.elapsed_ms = self.duration_ms;
            } else {
                self.elapsed_ms = total;
                self.just_finished = false;
            }
        }
    }

    /// Whether the timer has completed (see `spec_finished`).
    pub fn finished(&self) -> (r: bool)
        ensures
            r == self.spec_finished(),
    {
        if self.repeating {
            self.just_finished
        } else {
            self.elapsed_ms >= self.duration_ms
        }
    }

    /// Rewind to the start without touching the paused flag.
    pub fn reset(&mut self)
        ensures
            *final(self) == (Timer { elapsed_ms: 0, just_finished: false, ..*old(self) }),
    {
        self.elapsed_ms = 0;
        self.just_finished = false;
    }

    /// Stop consuming elapsed time.
    pub fn pause(&mut self)
        ensures
            *final(self) == (Timer { paused: true, ..*old(self) }),
    {
        self.paused = true;
    }

    /// Resume consuming elapsed time.
    pub fn unpause(&mut self)
        ensures
            *final(self) == (Timer { paused: false, ..*old(self) }),
    {
        self.paused = false;
    }
}

} // verus!
