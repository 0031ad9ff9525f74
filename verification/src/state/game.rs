//! The in-game schedule: one deterministic simulation tick.
//!
//! All systems run synchronously in a fixed order — ground detection, then
//! movement and jumping, then ability casting, then damage detection and the
//! kill/respawn transitions — so shared player state is touched by one system
//! at a time and every tick is reproducible.  Collision notifications are
//! drained as this tick's finite batch; none carry over.

use vstd::prelude::*;
use crate::abilities::spec_cast_result;
use crate::abilities::spec_casts;
use crate::abilities::use_ability;
use crate::abilities::ProjectileSpawn;
use crate::damage;
use crate::damage::spec_kill;
use crate::damage::spec_resists;
use crate::damage::spec_respawn;
use crate::damage::HazardKind;
use crate::damage::PlayerLife;
use crate::debug::DebugSettings;
use crate::entity::player::AnimationState;
use crate::entity::player::Player;
use crate::input::Controllable;
use crate::physics::check_grounded;
use crate::physics::handle_controllables;
use crate::physics::spec_animation_after;
use crate::physics::spec_detector_after_jump;
use crate::physics::spec_facing_left;
use crate::physics::spec_horizontal_velocity;
use crate::physics::spec_jump_effect;
use crate::physics::spec_vertical_velocity;
use crate::physics::ContactEvent;
use crate::physics::GroundDetector;
use crate::physics::JumpEffect;
use crate::physics::Pos;
use crate::physics::Velocity;
use crate::timer::Timer;
use crate::timer::MAX_DELTA_MS;

verus! {

/// Owner of the in-game schedule.
#[derive(Clone, Copy, Debug, PartialEq, Eq, Structural)]
pub struct GamePlugin;

/// Every per-player component the simulation tick reads or writes.
#[derive(Clone, Copy, Debug, PartialEq, Eq)]
pub struct PlayerState {
    pub life: PlayerLife,
    pub velocity: Velocity,
    pub animation: AnimationState,
    pub facing_left: bool,
    pub detector: GroundDetector,
    pub position: Pos,
    pub level_selection: u32,
    pub player: Player,
}

impl PlayerState {
    pub open spec fn wf(self) -> bool {
        &&& self.life.wf()
        &&& self.velocity.wf()
        &&& self.detector.wf()
        &&& (self.life.controllable matches Some(c) ==> c.wf())
    }
}

/// What one tick asks the collaborators to do: play a jump effect, spawn a
/// projectile, and whether the player died or respawned this tick.
#[derive(Clone, Copy, Debug, PartialEq, Eq)]
pub struct TickEffects {
    pub jump_effect: Option<JumpEffect>,
    pub projectile: Option<ProjectileSpawn>,
    pub killed: bool,
    pub respawned: bool,
}

/// The state after the movement phase: with control granted the movement
/// controller runs on the ground-detection result, otherwise (dead player)
/// everything but the detector stays put.
pub open spec fn spec_move_phase(s: PlayerState, d1: GroundDetector, debug: DebugSettings, delta_ms: u64) -> PlayerState {
    match s.life.controllable {
        Some(c) => PlayerState {
            velocity: Velocity {
                x: spec_horizontal_velocity(
                    s.velocity.x as int,
                    c,
                    s.player,
                    d1.is_grounded,
                    delta_ms,
                ) as i64,
                y: spec_vertical_velocity(s.velocity.y as int, c, s.player, d1, debug) as i64,
            },
            animation: spec_animation_after(
                spec_horizontal_velocity(s.velocity.x as int, c, s.player, d1.is_grounded, delta_ms),
                spec_vertical_velocity(s.velocity.y as int, c, s.player, d1, debug),
                d1.is_grounded,
            ),
            facing_left: spec_facing_left(s.facing_left, c),
            detector: spec_detector_after_jump(c, s.player, d1, debug),
            ..s
        },
        None => PlayerState { detector: d1, ..s },
    }
}

/// The cooldown component after the ability phase (see `use_ability`).
pub open spec fn spec_cooldown_phase(c: Controllable, player: Player, delta_ms: u64) -> Controllable {
    Controllable {
        ability_timer: if spec_casts(c, player, delta_ms) {
            Timer { elapsed_ms: 0, just_finished: false, ..c.ability_timer.spec_tick(delta_ms) }
        } else {
            c.ability_timer.spec_tick(delta_ms)
        },
        ..c
    }
}

/// One whole simulation tick over a player's state: ground detection first,
/// then movement and jump resolution, then ability casting, then lethal
/// contact and the kill or respawn transition.  A kill armed this tick defers
/// its respawn countdown to the next tick, the way a staged command buffer
/// would apply it.
pub open spec fn spec_tick(
    s: PlayerState,
    debug: DebugSettings,
    events: Seq<ContactEvent>,
    hazard: Option<HazardKind>,
    delta_ms: u64,
) -> (PlayerState, TickEffects) {
    let d1 = (GroundDetector {
        coyote_timer: s.detector.coyote_timer.spec_tick(delta_ms),
        ..s.detector
    }).spec_run_contacts(events);
    let moved = spec_move_phase(s, d1, debug, delta_ms);
    let jump_effect = match s.life.controllable {
        Some(c) => spec_jump_effect(c, s.player, d1, debug),
        None => None,
    };
    let projectile = match s.life.controllable {
        Some(c) => spec_cast_result(c, s.player, moved.facing_left, delta_ms),
        None => None,
    };
    let life2 = PlayerLife {
        controllable: match s.life.controllable {
            Some(c) => Some(spec_cooldown_phase(c, s.player, delta_ms)),
            None => None,
        },
        ..s.life
    };
    let kill_now = match hazard {
        Some(h) => !debug.immortality && !spec_resists(s.player, h),
        None => false,
    };
    if kill_now {
        let killed = spec_kill(life2, moved.animation, moved.velocity);
        (
            PlayerState {
                life: killed.0,
                velocity: killed.2,
                animation: killed.1,
                ..moved
            },
            TickEffects { jump_effect, projectile, killed: !s.life.killed, respawned: false },
        )
    } else {
        let after = spec_respawn(
            life2,
            moved.position,
            moved.level_selection,
            moved.detector,
            s.player,
            delta_ms,
        );
        (
            PlayerState {
                life: after.0,
                position: after.1,
                level_selection: after.2,
                detector: after.3,
                ..moved
            },
            TickEffects {
                jump_effect,
                projectile,
                killed: false,
                respawned: match life2.respawn_timer {
                    Some(rt) => rt.0.spec_tick(delta_ms).spec_finished(),
                    None => false,
                },
            },
        )
    }
}

/// Run one simulation tick (see `spec_tick`): drain this tick's collision
/// notifications into the ground detector, resolve movement and jumping,
/// advance the ability cooldown and cast, then detect lethal contact and run
/// the kill or respawn transition.
pub fn tick(
    s: &mut PlayerState,
    debug: &DebugSettings,
    events: &Vec<ContactEvent>,
    hazard: Option<HazardKind>,
    delta_ms: u64,
) -> (effects: TickEffects)
    requires
        old(s).wf(),
        delta_ms <= MAX_DELTA_MS,
        events@.len() < usize::MAX,
    ensures
        (*final(s), effects) == spec_tick(*old(s), *debug, events@, hazard, delta_ms),
        final(s).wf(),
{
    check_grounded(&mut s.detector, delta_ms, events);
    let mut jump_effect: Option<JumpEffect> = None;
    let mut projectile: Option<ProjectileSpawn> = None;
    if let Some(controllable) = &mut s.life.controllable {
        jump_effect = handle_controllables(
            &mut s.velocity,
            controllable,
            &s.player,
            &mut s.animation,
            &mut s.facing_left,
            &mut s.detector,
            debug,
            delta_ms,
        );
        projectile = use_ability(controllable, &s.player, s.facing_left, delta_ms);
    }
    let killed_before = s.life.killed;
    let kill_now = match hazard {
        Some(h) => damage::detect(&s.player, h, debug),
        None => false,
    };
    if kill_now {
        damage::kill(&mut s.life, &mut s.animation, &mut s.velocity);
        TickEffects { jump_effect, projectile, killed: !killed_before, respawned: false }
    } else {
        let player = s.player;
        let respawned = damage::respawn(
            &mut s.life,
            &mut s.position,
            &mut s.level_selection,
            &mut s.detector,
            &player,
            delta_ms,
        );
        TickEffects { jump_effect, projectile, killed: false, respawned }
    }
}

} // verus!
