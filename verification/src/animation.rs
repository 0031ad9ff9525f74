//! Frame-window animation: each animated entity carries a frame range
//! `[start, end)` and a repeating per-frame timer.  Each time the timer
//! elapses the sprite index advances by one and wraps inside the window; a
//! play-once animation collapses its window onto the terminal frame so
//! playback holds there instead of looping.

use vstd::prelude::*;
use crate::timer::Timer;
use crate::timer::MAX_DELTA_MS;
use crate::timer::MAX_DURATION_MS;

verus! {

/// Upper bound on any frame index.
pub const FRAME_LIMIT: usize = 1_000_000;

#[derive(Clone, Copy, Debug, PartialEq, Eq, Structural)]
pub struct Animated {
    pub timer: Timer,
    pub start: usize,
    pub end: usize,
    pub play_once: bool,
}

impl Animated {
    /// The frame window is non-empty and bounded, and the pacing timer well
    /// formed and repeating.
    pub open spec fn wf(self) -> bool {
        &&& self.start < self.end <= FRAME_LIMIT
        &&& self.timer.wf()
        &&& self.timer.repeating
    }

    /// A fresh animation over `[start, end)` advancing one frame every
    /// `ms_per_frame` milliseconds.
    pub fn new(ms_per_frame: u64, start: usize, end: usize, play_once: bool) -> (a: Animated)
        requires
            0 < ms_per_frame <= MAX_DURATION_MS,
            start < end <= FRAME_LIMIT,
        ensures
            a == (Animated {
                timer: Timer {
                    duration_ms: ms_per_frame,
                    elapsed_ms: 0,
                    repeating: true,
                    paused: false,
                    just_finished: false,
                },
                start,
                end,
                play_once,
            }),
            a.wf(),
    {
        Animated { timer: Timer::from_millis(ms_per_frame, true), start, end, play_once }
    }

    /// The sprite index one frame later: an index below the window snaps to
    /// its start first, then the index advances by one, wrapping inside
    /// `[start, end)`.
    pub open spec fn spec_advance(self, index: usize) -> usize
        recommends
            self.start < self.end,
    {
        let base = if index < self.start {
            self.start as int
        } else {
            index as int
        };
        (((base - self.start + 1) % (self.end - self.start)) + self.start) as usize
    }
}

/// Advance one animated sprite by `delta_ms` elapsed milliseconds.  When the
/// pacing timer elapses, the sprite index moves one frame forward inside the
/// window; if the animation plays once and the terminal frame is reached, the
/// window start collapses onto that frame so the animation holds there.
pub fn system(sprite_index: &mut usize, animation: &mut Animated, delta_ms: u64)
    requires
        old(animation).wf(),
        delta_ms <= MAX_DELTA_MS,
        *old(sprite_index) <= FRAME_LIMIT,
    ensures
        final(animation).timer == old(animation).timer.spec_tick(delta_ms),
        final(animation).end == old(animation).end,
        final(animation).play_once == old(animation).play_once,
        old(animation).timer.spec_tick(delta_ms).spec_finished() ==> {
            &&& *final(sprite_index) == old(animation).spec_advance(*old(sprite_index))
            &&& final(animation).start == (if old(animation).play_once && old(animation).spec_advance(
                *old(sprite_index),
            ) + 1 == old(animation).end {
                old(animation).spec_advance(*old(sprite_index))
            } else {
                old(animation).start
            })
        },
        !old(animation).timer.spec_tick(delta_ms).spec_finished() ==> {
            &&& *final(sprite_index) == *old(sprite_index)
            &&& final(animation).start == old(animation).start
        },
        final(animation).wf(),
        *final(sprite_index) <= FRAME_LIMIT,
{
    animation.timer.tick(delta_ms);
    if animation.timer.finished() {
        if *sprite_index < animation.start {
            *sprite_index = animation.start;
        }
        *sprite_index = ((*sprite_index - animation.start + 1) % (animation.end - animation.start))
            + animation.start;
        if animation.play_once && *sprite_index + 1 == animation.end {
            animation.start = *sprite_index;
        }
    }
}

} // verus!
