//! The goblin enemy: a patrolling hazard with idle/walk/death animation
//! states.

use vstd::prelude::*;
use crate::animation::Animated;
use crate::input::TUNING_LIMIT;
use crate::physics::Pos;
use crate::physics::Velocity;

verus! {

/// Patrol walking speed, in milli-units per second.
pub const MOVEMENT_SPEED: i64 = 20_000;

/// Marker for an enemy entity.
#[derive(Clone, Copy, Debug, PartialEq, Eq, Structural)]
pub struct Enemy;

/// A patrol route between two points; an enemy without points stands still.
#[derive(Clone, Copy, Debug, PartialEq, Eq)]
pub struct Patrol {
    pub points: Option<(Pos, Pos)>,
    pub movement_speed: i64,
    pub face_left: bool,
}

impl Patrol {
    pub open spec fn wf(self) -> bool {
        0 <= self.movement_speed <= TUNING_LIMIT
    }
}

/// The goblin's discrete animation states.
#[derive(Clone, Copy, Debug, PartialEq, Eq, Structural)]
pub enum AnimationState {
    Idle,
    Walking,
    Death,
}

impl Default for AnimationState {
    fn default() -> (s: AnimationState)
        ensures
            s == AnimationState::Idle,
    {
        AnimationState::Idle
    }
}

/// The starting animation of a freshly spawned goblin: walking when it has a
/// patrol route, idle otherwise.
pub fn init_animation_state(patrol: &Patrol) -> (s: AnimationState)
    ensures
        s == (if patrol.points is Some {
            AnimationState::Walking
        } else {
            AnimationState::Idle
        }),
{
    if patrol.points.is_some() {
        AnimationState::Walking
    } else {
        AnimationState::Idle
    }
}

/// The horizontal velocity after one patrol step: turn around (and walk) at
/// either end of the route, start walking when standing still, and keep the
/// current velocity in between.
pub open spec fn spec_patrol_velocity_x(patrol: Patrol, vx: int, x: int) -> int {
    match patrol.points {
        Some((start, end)) => {
            let low = if start.x <= end.x {
                start.x as int
            } else {
                end.x as int
            };
            let high = if start.x >= end.x {
                start.x as int
            } else {
                end.x as int
            };
            if x < low || vx == 0 {
                patrol.movement_speed as int
            } else if x > high {
                -(patrol.movement_speed as int)
            } else {
                vx
            }
        },
        None => vx,
    }
}

/// The facing after one patrol step: face the walking direction when turning,
/// keep the current facing in between.
pub open spec fn spec_patrol_facing(patrol: Patrol, facing_left: bool, vx: int, x: int) -> bool {
    match patrol.points {
        Some((start, end)) => {
            let low = if start.x <= end.x {
                start.x as int
            } else {
                end.x as int
            };
            let high = if start.x >= end.x {
                start.x as int
            } else {
                end.x as int
            };
            if x < low || vx == 0 {
                false
            } else if x > high {
                true
            } else {
                facing_left
            }
        },
        None => facing_left,
    }
}

/// One patrol step for a goblin standing at horizontal position `x`.
pub fn patrol(patrol: &Patrol, velocity: &mut Velocity, x: i64, facing_left: &mut bool)
    requires
        patrol.wf(),
    ensures
        final(velocity).x as int == spec_patrol_velocity_x(*patrol, old(velocity).x as int, x as int),
        final(velocity).y == old(velocity).y,
        *final(facing_left) == spec_patrol_facing(*patrol, *old(facing_left), old(velocity).x as int, x as int),
{
    if let Some((start, end)) = patrol.points {
        let low = if start.x <= end.x {
            start.x
        } else {
            end.x
        };
        let high = if start.x >= end.x {
            start.x
        } else {
            end.x
        };
        if x < low || velocity.x == 0 {
            velocity.x = patrol.movement_speed;
            *facing_left = false;
        } else if x > high {
            velocity.x = -patrol.movement_speed;
            *facing_left = true;
        }
    }
}

/// The frame window of each goblin animation state; the death animation plays
/// once and holds on its last frame.
pub open spec fn spec_frames(state: AnimationState) -> (usize, usize) {
    match state {
        AnimationState::Idle => (18usize, 22usize),
        AnimationState::Walking => (0usize, 6usize),
        AnimationState::Death => (6usize, 12usize),
    }
}

/// React to a change of a goblin's animation state: retarget the frame window
/// (the death animation becomes play-once) and snap the sprite onto its first
/// frame.  Returns the new sprite index.
pub fn animation_state_update(animation: &mut Animated, state: &AnimationState) -> (index: usize)
    requires
        old(animation).wf(),
    ensures
        final(animation).start == spec_frames(*state).0,
        final(animation).end == spec_frames(*state).1,
        final(animation).timer == old(animation).timer,
        final(animation).play_once == (if *state is Death {
            true
        } else {
            old(animation).play_once
        }),
        index == spec_frames(*state).0,
        final(animation).wf(),
{
    match state {
        AnimationState::Idle => {
            animation.start = 18;
            animation.end = 22;
        },
        AnimationState::Walking => {
            animation.start = 0;
            animation.end = 6;
        },
        AnimationState::Death => {
            animation.start = 6;
            animation.end = 12;
            animation.play_once = true;
        },
    }
    animation.start
}

} // verus!
