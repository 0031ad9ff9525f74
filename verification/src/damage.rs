//! The death/respawn state machine.
//!
//! Lethal contact with a hurtbox marks the player killed (unless a debug
//! immortality flag or the equipped combination's resistance negates that
//! specific hazard).  The kill transition plays the death animation, zeroes
//! the velocity, revokes control and arms the respawn delay; when the delay
//! runs out the player returns to the last checkpoint with control restored
//! and the ground detector's contact counter force-reset.

use vstd::prelude::*;
use crate::abilities::Element;
use crate::abilities::Equipment;
use crate::debug::DebugSettings;
use crate::entity::player::AnimationState;
use crate::entity::player::Player;
use crate::input::Controllable;
use crate::physics::GroundDetector;
use crate::physics::Pos;
use crate::physics::Velocity;
use crate::timer::Timer;
use crate::timer::MAX_DELTA_MS;

verus! {

/// Delay between death and respawn, in milliseconds.
pub const RESPAWN_DELAY_MS: u64 = 600;

/// Marker for a collision volume whose contact is lethal to the player.
#[derive(Clone, Copy, Debug, PartialEq, Eq, Structural)]
pub struct Hurtbox;

/// Marker carried by the player between death detection and respawn.
#[derive(Clone, Copy, Debug, PartialEq, Eq, Structural)]
pub struct Killed;

/// Counts down from death to respawn.
#[derive(Clone, Copy, Debug, PartialEq, Eq, Structural)]
pub struct RespawnTimer(pub Timer);

/// The hazard kinds a hurtbox can belong to.
#[derive(Clone, Copy, Debug, PartialEq, Eq, Structural)]
pub enum HazardKind {
    Spikes,
    Lava,
    Water,
    Enemy,
}

/// The player's life-cycle components: the killed marker, the respawn
/// countdown (present only between death and respawn), and control (present
/// while input is applied).
#[derive(Clone, Copy, Debug, PartialEq, Eq)]
pub struct PlayerLife {
    pub killed: bool,
    pub respawn_timer: Option<RespawnTimer>,
    pub controllable: Option<Controllable>,
}

impl PlayerLife {
    pub open spec fn wf(self) -> bool {
        match self.respawn_timer {
            Some(rt) => rt.0.wf(),
            None => true,
        }
    }
}

/// Whether the equipped combination grants resistance to a hazard: the cloak
/// with water infused negates drowning, the cloak with fire infused negates
/// lava.
pub open spec fn spec_resists(player: Player, hazard: HazardKind) -> bool {
    match hazard {
        HazardKind::Water => player.spec_has_equipt(Equipment::Cloak) && player.spec_has_infused(
            Element::Water,
        ),
        HazardKind::Lava => player.spec_has_equipt(Equipment::Cloak) && player.spec_has_infused(
            Element::Fire,
        ),
        _ => false,
    }
}

/// Whether the combination resists this hazard (see `spec_resists`).
pub fn resists(player: &Player, hazard: HazardKind) -> (r: bool)
    ensures
        r == spec_resists(*player, hazard),
{
    match hazard {
        HazardKind::Water => player.has_equipt(Equipment::Cloak) && player.has_infused(
            Element::Water,
        ),
        HazardKind::Lava => player.has_equipt(Equipment::Cloak) && player.has_infused(
            Element::Fire,
        ),
        _ => false,
    }
}

/// Lethal-contact detection for one started collision between the player and
/// a hurtbox of the given hazard kind: contact kills unless the immortality
/// override is set or the equipped combination resists that hazard.
pub fn detect(player: &Player, hazard: HazardKind, debug_settings: &DebugSettings) -> (kill: bool)
    ensures
        kill == (!debug_settings.immortality && !spec_resists(*player, hazard)),
{
    !debug_settings.immortality && !resists(player, hazard)
}

/// The state after the kill transition: on a live player it plays the death
/// animation, zeroes the velocity, revokes control and arms the respawn
/// delay; on an already-killed player it changes nothing — in particular it
/// neither resets nor extends the running respawn timer.
pub open spec fn spec_kill(life: PlayerLife, animation: AnimationState, velocity: Velocity) -> (
    PlayerLife,
    AnimationState,
    Velocity,
) {
    if life.killed {
        (life, animation, velocity)
    } else {
        (
            PlayerLife {
                killed: true,
                respawn_timer: Some(RespawnTimer(Timer {
                    duration_ms: RESPAWN_DELAY_MS,
                    elapsed_ms: 0,
                    repeating: false,
                    paused: false,
                    just_finished: false,
                })),
                controllable: None,
            },
            AnimationState::Death,
            Velocity { x: 0, y: 0 },
        )
    }
}

/// Apply the kill transition (see `spec_kill`).
pub fn kill(life: &mut PlayerLife, animation: &mut AnimationState, velocity: &mut Velocity)
    requires
        old(life).wf(),
    ensures
        (*final(life), *final(animation), *final(velocity)) == spec_kill(
            *old(life),
            *old(animation),
            *old(velocity),
        ),
        final(life).wf(),
{
    if life.killed {
        return;
    }
    life.killed = true;
    life.respawn_timer = Some(RespawnTimer(Timer::from_millis(RESPAWN_DELAY_MS, false)));
    life.controllable = None;
    *animation = AnimationState::Death;
    *velocity = Velocity { x: 0, y: 0 };
}

/// The state after one respawn tick: with no respawn timer armed nothing
/// changes; otherwise the timer advances, and the moment it runs out control
/// is restored, the killed marker removed, the player teleported to the
/// stored checkpoint, the level selection switched to the checkpoint's level,
/// and the ground detector's contact counter force-reset to zero (teleporting
/// can leave stale contacts behind).
pub open spec fn spec_respawn(
    life: PlayerLife,
    position: Pos,
    level_selection: u32,
    detector: GroundDetector,
    player: Player,
    delta_ms: u64,
) -> (PlayerLife, Pos, u32, GroundDetector) {
    match life.respawn_timer {
        None => (life, position, level_selection, detector),
        Some(rt) => {
            let ticked = rt.0.spec_tick(delta_ms);
            if ticked.spec_finished() {
                (
                    PlayerLife {
                        killed: false,
                        respawn_timer: None,
                        controllable: Some(Controllable::spec_new()),
                    },
                    player.checkpoint,
                    player.checkpoint_level,
                    GroundDetector { active_collisions: 0, ..detector },
                )
            } else {
                (
                    PlayerLife { respawn_timer: Some(RespawnTimer(ticked)), ..life },
                    position,
                    level_selection,
                    detector,
                )
            }
        },
    }
}

/// Apply one respawn tick (see `spec_respawn`).  Returns whether the respawn
/// completed this tick.
pub fn respawn(
    life: &mut PlayerLife,
    position: &mut Pos,
    level_selection: &mut u32,
    detector: &mut GroundDetector,
    player: &Player,
    delta_ms: u64,
) -> (respawned: bool)
    requires
        old(life).wf(),
        delta_ms <= MAX_DELTA_MS,
    ensures
        (*final(life), *final(position), *final(level_selection), *final(detector)) == spec_respawn(
            *old(life),
            *old(position),
            *old(level_selection),
            *old(detector),
            *player,
            delta_ms,
        ),
        final(life).wf(),
        respawned == (match old(life).respawn_timer {
            Some(rt) => rt.0.spec_tick(delta_ms).spec_finished(),
            None => false,
        }),
{
    let timer = match &mut life.respawn_timer {
        Some(rt) => rt,
        None => {
            return false;
        },
    };
    timer.0.tick(delta_ms);
    if !timer.0.finished() {
        return false;
    }
    life.killed = false;
    life.respawn_timer = None;
    life.controllable = Some(Controllable::new());
    *position = player.checkpoint;
    *level_selection = player.checkpoint_level;
    detector.active_collisions = 0;
    true
}

/// Death→respawn round trip: killing a live player and letting the respawn
/// delay elapse restores control, removes the killed marker, teleports the
/// player to exactly the last recorded checkpoint position and level, and
/// force-resets the ground detector's contact counter to zero.
pub proof fn lemma_death_respawn_round_trip(
    life: PlayerLife,
    animation: AnimationState,
    velocity: Velocity,
    position: Pos,
    level_selection: u32,
    detector: GroundDetector,
    player: Player,
    t: u64,
)
    requires
        !life.killed,
        RESPAWN_DELAY_MS <= t <= MAX_DELTA_MS,
    ensures
        ({
            let killed_life = spec_kill(life, animation, velocity).0;
            let after = spec_respawn(killed_life, position, level_selection, detector, player, t);
            &&& after.0.controllable == Some(Controllable::spec_new())
            &&& !after.0.killed
            &&& after.0.respawn_timer is None
            &&& after.1 == player.checkpoint
            &&& after.2 == player.checkpoint_level
            &&& after.3.active_collisions == 0
        }),
{
}

/// Idempotence of death detection: the kill transition on an already-killed
/// player changes nothing, so the running respawn timer is neither reset nor
/// extended.
pub proof fn lemma_kill_idempotent(life: PlayerLife, animation: AnimationState, velocity: Velocity)
    requires
        life.killed,
    ensures
        spec_kill(life, animation, velocity) == (life, animation, velocity),
{
}

} // verus!
