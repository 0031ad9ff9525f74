//! The per-player input/movement component.
//!
//! Input decoding happens outside the core; each frame the decoded intent
//! flags (`left`, `right`, `jumping`, `interacting`, `ability`) are written
//! into this component, which also carries the movement tuning values and the
//! ability cooldown.  Speeds and accelerations are measured in thousandths of
//! a world unit per second (per second squared for the acceleration).

use vstd::prelude::*;
use crate::timer::Timer;

verus! {

/// Default top horizontal speed, in milli-units per second.
pub const DEFAULT_MAX_SPEED: i64 = 100_000;

/// Default upward velocity applied by a jump, in milli-units per second.
pub const DEFAULT_JUMP_VELOCITY: i64 = 200_000;

/// Default horizontal acceleration, in milli-units per second squared.
pub const DEFAULT_ACCELERATION: i64 = 400_000;

/// Cooldown between two ability casts, in milliseconds.
pub const ABILITY_COOLDOWN_MS: u64 = 300;

/// Length of the jump-input buffer window, in milliseconds.
pub const JUMP_BUFFER_MS: u64 = 200;

/// Upper bound on any tuning value, in milli-units; keeps every velocity
/// computation inside `i64`.
pub const TUNING_LIMIT: i64 = 1_000_000_000;

#[derive(Clone, Copy, Debug, PartialEq, Eq, Structural)]
pub struct Controllable {
    pub max_speed: i64,
    pub jump_velocity: i64,
    pub acceleration: i64,
    pub camera_follow: bool,
    pub left: bool,
    pub right: bool,
    pub jumping: bool,
    pub interacting: bool,
    pub ability: bool,
    pub ability_timer: Timer,
    pub jump_buffer: Timer,
}

impl Controllable {
    /// Tuning values are positive and bounded, and the timers well formed.
    pub open spec fn wf(self) -> bool {
        &&& 0 < self.max_speed <= TUNING_LIMIT
        &&& 0 < self.jump_velocity <= TUNING_LIMIT
        &&& 0 < self.acceleration <= TUNING_LIMIT
        &&& self.ability_timer.wf()
        &&& self.jump_buffer.wf()
    }

    /// The component a freshly spawned (or respawned) player carries: default
    /// tuning, no intent held, both timers running from zero.
    pub open spec fn spec_new() -> Controllable {
        Controllable {
            max_speed: DEFAULT_MAX_SPEED,
            jump_velocity: DEFAULT_JUMP_VELOCITY,
            acceleration: DEFAULT_ACCELERATION,
            camera_follow: true,
            left: false,
            right: false,
            jumping: false,
            interacting: false,
            ability: false,
            ability_timer: Timer {
                duration_ms: ABILITY_COOLDOWN_MS,
                elapsed_ms: 0,
                repeating: false,
                paused: false,
                just_finished: false,
            },
            jump_buffer: Timer {
                duration_ms: JUMP_BUFFER_MS,
                elapsed_ms: 0,
                repeating: false,
                paused: false,
                just_finished: false,
            },
        }
    }

    /// A fresh component with the default tuning, no intent held, and both
    /// timers running from zero.
    pub fn new() -> (c: Controllable)
        ensures
            c == Controllable::spec_new(),
            c.wf(),
    {
        Controllable {
            max_speed: DEFAULT_MAX_SPEED,
            jump_velocity: DEFAULT_JUMP_VELOCITY,
            acceleration: DEFAULT_ACCELERATION,
            camera_follow: true,
            left: false,
            right: false,
            jumping: false,
            interacting: false,
            ability: false,
            ability_timer: Timer::from_millis(ABILITY_COOLDOWN_MS, false),
            jump_buffer: Timer::from_millis(JUMP_BUFFER_MS, false),
        }
    }
}

} // verus!
