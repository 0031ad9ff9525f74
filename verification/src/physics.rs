//! Physics-facing state of the core: velocities and positions in integer
//! milli-units, collision layer masks, and the ground detector that turns
//! collision start/stop notifications into grounded state, double-jump
//! availability and the coyote window.
//!
//! The physics engine itself (broad-phase detection, rigid-body integration)
//! is an external collaborator: the core only consumes its collision
//! notifications and writes velocities and layer masks back.

use vstd::prelude::*;
use crate::abilities::Element;
use crate::abilities::Equipment;
use crate::debug::DebugSettings;
use crate::entity::player::AnimationState;
use crate::entity::player::Player;
use crate::input::Controllable;
use crate::timer::Timer;
use crate::timer::MAX_DELTA_MS;

verus! {

/// Ordering labels for the physics-adjacent systems of the tick.
#[derive(Clone, Copy, Debug, PartialEq, Eq, Structural, Hash)]
pub enum PhysicsLabel {
    HandleControllables,
    CheckGrounded,
}

/// The collision layers of the world; each names one bit of a layer mask.
#[derive(Clone, Copy, Debug, PartialEq, Eq, Structural)]
pub enum PhysicsLayers {
    Terrain,
    PlayerBody,
    PlayerGroundDetector,
    Interactable,
    Enemy,
    Fireball,
    Wind,
    Movable,
    Wood,
    Lava,
    WaterDrop,
    Water,
    Spikes,
}

impl PhysicsLayers {
    /// The mask bit of this layer; each layer owns a distinct power of two.
    pub open spec fn spec_bit(self) -> u16 {
        match self {
            PhysicsLayers::Terrain => 0x1,
            PhysicsLayers::PlayerBody => 0x2,
            PhysicsLayers::PlayerGroundDetector => 0x4,
            PhysicsLayers::Interactable => 0x8,
            PhysicsLayers::Enemy => 0x10,
            PhysicsLayers::Fireball => 0x20,
            PhysicsLayers::Wind => 0x40,
            PhysicsLayers::Movable => 0x80,
            PhysicsLayers::Wood => 0x100,
            PhysicsLayers::Lava => 0x200,
            PhysicsLayers::WaterDrop => 0x400,
            PhysicsLayers::Water => 0x800,
            PhysicsLayers::Spikes => 0x1000,
        }
    }

    pub fn bit(self) -> (r: u16)
        ensures
            r == self.spec_bit(),
    {
        match self {
            PhysicsLayers::Terrain => 0x1,
            PhysicsLayers::PlayerBody => 0x2,
            PhysicsLayers::PlayerGroundDetector => 0x4,
            PhysicsLayers::Interactable => 0x8,
            PhysicsLayers::Enemy => 0x10,
            PhysicsLayers::Fireball => 0x20,
            PhysicsLayers::Wind => 0x40,
            PhysicsLayers::Movable => 0x80,
            PhysicsLayers::Wood => 0x100,
            PhysicsLayers::Lava => 0x200,
            PhysicsLayers::WaterDrop => 0x400,
            PhysicsLayers::Water => 0x800,
            PhysicsLayers::Spikes => 0x1000,
        }
    }
}

/// The mask covering every layer.
pub const ALL_LAYERS: u16 = 0x1FFF;

/// A body's collision layer memberships (`groups`) and the layers it collides
/// with (`masks`).
#[derive(Clone, Copy, Debug, PartialEq, Eq, Structural)]
pub struct CollisionLayers {
    pub groups: u16,
    pub masks: u16,
}

impl CollisionLayers {
    /// Member of no group, colliding with nothing.
    pub fn none() -> (r: CollisionLayers)
        ensures
            r == (CollisionLayers { groups: 0, masks: 0 }),
    {
        CollisionLayers { groups: 0, masks: 0 }
    }

    /// Member of no group, colliding with every layer.
    pub fn all_masks() -> (r: CollisionLayers)
        ensures
            r == (CollisionLayers { groups: 0, masks: ALL_LAYERS }),
    {
        CollisionLayers { groups: 0, masks: ALL_LAYERS }
    }

    pub fn with_group(self, layer: PhysicsLayers) -> (r: CollisionLayers)
        ensures
            r.groups == self.groups | layer.spec_bit(),
            r.masks == self.masks,
    {
        CollisionLayers { groups: self.groups | layer.bit(), masks: self.masks }
    }

    pub fn with_mask(self, layer: PhysicsLayers) -> (r: CollisionLayers)
        ensures
            r.groups == self.groups,
            r.masks == self.masks | layer.spec_bit(),
    {
        CollisionLayers { groups: self.groups, masks: self.masks | layer.bit() }
    }

    pub fn without_mask(self, layer: PhysicsLayers) -> (r: CollisionLayers)
        ensures
            r.groups == self.groups,
            r.masks == self.masks & !layer.spec_bit(),
    {
        CollisionLayers { groups: self.groups, masks: self.masks & !layer.bit() }
    }

    pub open spec fn spec_contains_group(self, layer: PhysicsLayers) -> bool {
        self.groups & layer.spec_bit() != 0
    }

    pub fn contains_group(self, layer: PhysicsLayers) -> (r: bool)
        ensures
            r == self.spec_contains_group(layer),
    {
        self.groups & layer.bit() != 0
    }
}

/// The rigid-body behavior of an entity, owned by the physics collaborator.
#[derive(Clone, Copy, Debug, PartialEq, Eq, Structural)]
pub enum RigidBody {
    Dynamic,
    Static,
    KinematicVelocityBased,
    Sensor,
}

/// Bound on the magnitude of any velocity component, in milli-units per
/// second; keeps every velocity computation inside `i64`.
pub const VEL_LIMIT: i64 = 10_000_000_000_000_000;

/// A linear velocity in milli-units per second.
#[derive(Clone, Copy, Debug, PartialEq, Eq, Structural)]
pub struct Velocity {
    pub x: i64,
    pub y: i64,
}

impl Velocity {
    pub open spec fn wf(self) -> bool {
        &&& -VEL_LIMIT <= self.x <= VEL_LIMIT
        &&& -VEL_LIMIT <= self.y <= VEL_LIMIT
    }
}

/// Bound on the magnitude of any position component, in world units.
pub const POS_LIMIT: i64 = 1_000_000_000_000_000;

/// A position in world units.
#[derive(Clone, Copy, Debug, PartialEq, Eq, Structural)]
pub struct Pos {
    pub x: i64,
    pub y: i64,
}

impl Pos {
    pub open spec fn wf(self) -> bool {
        &&& -POS_LIMIT <= self.x <= POS_LIMIT
        &&& -POS_LIMIT <= self.y <= POS_LIMIT
    }
}

/// One collision notification as seen by a ground detector: whether contact
/// started or stopped, and whether the detector was one of the two
/// participants.
#[derive(Clone, Copy, Debug, PartialEq, Eq, Structural)]
pub struct ContactEvent {
    pub started: bool,
    pub involves_detector: bool,
}

/// Length of the coyote window, in milliseconds.
pub const COYOTE_MS: u64 = 100;

/// A tick long enough to run the coyote timer out entirely.
pub const COYOTE_EXHAUST_MS: u64 = 10_000;

/// Sensor state under the player's feet: whether ground is touched, whether a
/// double jump is still available, the coyote countdown, and the number of
/// currently overlapping contacts.
#[derive(Clone, Copy, Debug, PartialEq, Eq, Structural)]
pub struct GroundDetector {
    pub is_grounded: bool,
    pub has_double_jump: bool,
    pub coyote_timer: Timer,
    pub active_collisions: u8,
}

impl GroundDetector {
    pub open spec fn wf(self) -> bool {
        &&& self.coyote_timer.wf()
        &&& self.coyote_timer.duration_ms == COYOTE_MS
        &&& !self.coyote_timer.repeating
    }

    /// A fresh detector: airborne, no double jump, coyote window open.
    pub fn new() -> (d: GroundDetector)
        ensures
            d == (GroundDetector {
                is_grounded: false,
                has_double_jump: false,
                coyote_timer: Timer {
                    duration_ms: COYOTE_MS,
                    elapsed_ms: 0,
                    repeating: false,
                    paused: false,
                    just_finished: false,
                },
                active_collisions: 0,
            }),
            d.wf(),
    {
        GroundDetector {
            is_grounded: false,
            has_double_jump: false,
            coyote_timer: Timer::from_millis(COYOTE_MS, false),
            active_collisions: 0,
        }
    }

    /// The contact counter after one notification: a start adds one
    /// (saturating), a stop removes one, clamping at zero when no matching
    /// start was seen.
    pub open spec fn spec_counter_after(self, ev: ContactEvent) -> u8 {
        if !ev.involves_detector {
            self.active_collisions
        } else if ev.started {
            if self.active_collisions < 255 {
                (self.active_collisions + 1) as u8
            } else {
                255u8
            }
        } else {
            if self.active_collisions > 0 {
                (self.active_collisions - 1) as u8
            } else {
                0u8
            }
        }
    }

    /// The full detector state after one notification: the counter is
    /// updated, and the grounded state re-derived from it.  While any contact
    /// is active the detector is grounded, the double jump is granted and the
    /// coyote timer is reset and paused; once the counter drops to zero the
    /// detector is airborne and the coyote timer resumes counting.
    pub open spec fn spec_apply_contact(self, ev: ContactEvent) -> GroundDetector {
        let count = self.spec_counter_after(ev);
        if count > 0 {
            GroundDetector {
                is_grounded: true,
                has_double_jump: true,
                coyote_timer: Timer {
                    elapsed_ms: 0,
                    just_finished: false,
                    paused: true,
                    ..self.coyote_timer
                },
                active_collisions: count,
            }
        } else {
            GroundDetector {
                is_grounded: false,
                has_double_jump: self.has_double_jump,
                coyote_timer: Timer { paused: false, ..self.coyote_timer },
                active_collisions: count,
            }
        }
    }

    /// The detector state after a whole batch of notifications.
    pub open spec fn spec_run_contacts(self, events: Seq<ContactEvent>) -> GroundDetector
        decreases events.len(),
    {
        if events.len() == 0 {
            self
        } else {
            self.spec_apply_contact(events[0]).spec_run_contacts(events.skip(1))
        }
    }

    /// Consume one collision notification.  Returns whether a stop arrived
    /// without a matching prior start (the counter was clamped at zero); the
    /// caller may log that, but the detector state stays consistent either
    /// way.
    pub fn apply_contact(&mut self, ev: ContactEvent) -> (underflow: bool)
        requires
            old(self).wf(),
        ensures
            *final(self) == old(self).spec_apply_contact(ev),
            final(self).wf(),
            underflow == (ev.involves_detector && !ev.started && old(self).active_collisions == 0),
    {
        let mut underflow = false;
        if ev.involves_detector {
            if ev.started {
                if self.active_collisions < 255 {
                    self.active_collisions = self.active_collisions + 1;
                }
            } else {
                if self.active_collisions > 0 {
                    self.active_collisions = self.active_collisions - 1;
                } else {
                    underflow = true;
                }
            }
        }
        if self.active_collisions > 0 {
            self.is_grounded = true;
            self.has_double_jump = true;
            self.coyote_timer.reset();
            self.coyote_timer.pause();
        } else {
            self.is_grounded = false;
            self.coyote_timer.unpause();
        }
        underflow
    }
}

/// Per-frame ground detection: advance the coyote timer by the elapsed time,
/// then drain this tick's collision notifications in order.  Returns how many
/// stop notifications arrived without a matching start.
pub fn check_grounded(detector: &mut GroundDetector, delta_ms: u64, events: &Vec<ContactEvent>) -> (underflows: usize)
    requires
        old(detector).wf(),
        delta_ms <= MAX_DELTA_MS,
        events@.len() < usize::MAX,
    ensures
        *final(detector) == (GroundDetector {
            coyote_timer: old(detector).coyote_timer.spec_tick(delta_ms),
            ..*old(detector)
        }).spec_run_contacts(events@),
        final(detector).wf(),
        underflows <= events@.len(),
{
    detector.coyote_timer.tick(delta_ms);
    let ghost ticked = *detector;
    let mut underflows: usize = 0;
    let mut i: usize = 0;
    while i < events.len()
        invariant
            i <= events@.len(),
            events@.len() < usize::MAX,
            underflows <= i,
            detector.wf(),
            *detector == ticked.spec_run_contacts(events@.take(i as int)),
        decreases events@.len() - i,
    {
        let ev = events[i];
        proof {
            assert(events@.take(i as int).push(ev) =~= events@.take(i + 1 as int));
            lemma_run_contacts_push(ticked, events@.take(i as int), ev);
        }
        let u = detector.apply_contact(ev);
        if u {
            underflows = underflows + 1;
        }
        i = i + 1;
    }
    proof {
        assert(events@.take(events@.len() as int) =~= events@);
    }
    underflows
}

/// Running a batch and then one more notification is the same as running the
/// batch extended by that notification.
proof fn lemma_run_contacts_push(d: GroundDetector, events: Seq<ContactEvent>, ev: ContactEvent)
    ensures
        d.spec_run_contacts(events).spec_apply_contact(ev) == d.spec_run_contacts(events.push(ev)),
    decreases events.len(),
{
    if events.len() == 0 {
        assert(events.push(ev)[0] == ev);
        assert(events.push(ev).skip(1) =~= Seq::<ContactEvent>::empty());
        assert(d.spec_run_contacts(events.push(ev)) == d.spec_apply_contact(ev).spec_run_contacts(
            Seq::<ContactEvent>::empty(),
        ));
        assert(d.spec_apply_contact(ev).spec_run_contacts(Seq::<ContactEvent>::empty())
            == d.spec_apply_contact(ev));
        assert(d.spec_run_contacts(events) == d);
    } else {
        assert(events.push(ev)[0] == events[0]);
        assert(events.push(ev).skip(1) =~= events.skip(1).push(ev));
        lemma_run_contacts_push(d.spec_apply_contact(events[0]), events.skip(1), ev);
        assert(d.spec_run_contacts(events.push(ev)) == d.spec_apply_contact(
            events[0],
        ).spec_run_contacts(events.skip(1).push(ev)));
        assert(d.spec_run_contacts(events) == d.spec_apply_contact(events[0]).spec_run_contacts(
            events.skip(1),
        ));
    }
}

/// Vertical velocity above which an airborne player shows the jump-up
/// animation (below its negation: jump-down), in milli-units per second.
pub const JUMP_ANIM_THRESHOLD: i64 = 100;

/// Horizontal speed above which the player shows the walking animation, in
/// milli-units per second.
pub const WALK_ANIM_THRESHOLD: i64 = 50;

/// The cosmetic effect a resolved jump asks the presentation layer to play.
#[derive(Clone, Copy, Debug, PartialEq, Eq, Structural)]
pub enum JumpEffect {
    /// Explosive boots-and-fire jump: explosion sprite and sound.
    Explosion,
    /// Plain jump: jump sound only.
    Plain,
    /// Double jump: air-puff sprite and sound.
    Puff,
}

/// Whether a jump request is honored through the coyote window (or the fly
/// override).
pub open spec fn spec_coyote_jump(c: Controllable, d: GroundDetector, debug: DebugSettings) -> bool {
    c.jumping && (!d.coyote_timer.spec_finished() || debug.flying)
}

/// Whether a jump request falls through to an available double jump, which
/// asks for the boots-and-air combination.
pub open spec fn spec_double_jump(c: Controllable, player: Player, d: GroundDetector, debug: DebugSettings) -> bool {
    &&& !spec_coyote_jump(c, d, debug)
    &&& c.jumping
    &&& d.has_double_jump
    &&& player.spec_has_equipt(Equipment::MagicBoots)
    &&& player.spec_has_infused(Element::Air)
}

/// The boots-and-fire combination boosts a ground jump by three tenths.
pub open spec fn spec_boosted_jump(player: Player) -> bool {
    player.spec_has_equipt(Equipment::MagicBoots) && player.spec_has_infused(Element::Fire)
}

/// The vertical velocity after jump resolution.
pub open spec fn spec_vertical_velocity(vy: int, c: Controllable, player: Player, d: GroundDetector, debug: DebugSettings) -> int {
    if spec_coyote_jump(c, d, debug) {
        if spec_boosted_jump(player) {
            c.jump_velocity * 13 / 10
        } else {
            c.jump_velocity as int
        }
    } else if spec_double_jump(c, player, d, debug) {
        c.jump_velocity as int
    } else {
        vy
    }
}

/// The detector after jump resolution: a coyote jump exhausts the coyote
/// window (no repeated jumps during the grace period), a double jump consumes
/// its availability.
pub open spec fn spec_detector_after_jump(c: Controllable, player: Player, d: GroundDetector, debug: DebugSettings) -> GroundDetector {
    if spec_coyote_jump(c, d, debug) {
        GroundDetector { coyote_timer: d.coyote_timer.spec_tick(COYOTE_EXHAUST_MS), ..d }
    } else if spec_double_jump(c, player, d, debug) {
        GroundDetector { has_double_jump: false, ..d }
    } else {
        d
    }
}

/// The cosmetic effect of the resolved jump, if any.
pub open spec fn spec_jump_effect(c: Controllable, player: Player, d: GroundDetector, debug: DebugSettings) -> Option<JumpEffect> {
    if spec_coyote_jump(c, d, debug) {
        if spec_boosted_jump(player) {
            Some(JumpEffect::Explosion)
        } else {
            Some(JumpEffect::Plain)
        }
    } else if spec_double_jump(c, player, d, debug) {
        Some(JumpEffect::Puff)
    } else {
        None
    }
}

/// Acceleration is halved while airborne.
pub open spec fn spec_effective_acceleration(c: Controllable, grounded: bool) -> int {
    if grounded {
        c.acceleration as int
    } else {
        c.acceleration as int / 2
    }
}

/// Top speed is doubled by the boots-and-water combination.
pub open spec fn spec_effective_max_speed(c: Controllable, player: Player) -> int {
    if player.spec_has_equipt(Equipment::MagicBoots) && player.spec_has_infused(Element::Water) {
        2 * c.max_speed
    } else {
        c.max_speed as int
    }
}

/// The velocity change one tick's acceleration accounts for, in milli-units
/// per second.
pub open spec fn spec_accel_delta(c: Controllable, grounded: bool, delta_ms: u64) -> int {
    spec_effective_acceleration(c, grounded) * delta_ms / 1000
}

/// The horizontal velocity after one tick: accelerate toward the effective
/// top speed while a single direction is held (no change once at or beyond
/// it), otherwise decelerate toward zero without ever overshooting past it.
pub open spec fn spec_horizontal_velocity(vx: int, c: Controllable, player: Player, grounded: bool, delta_ms: u64) -> int {
    let dv = spec_accel_delta(c, grounded, delta_ms);
    let top = spec_effective_max_speed(c, player);
    if c.right && !c.left {
        if vx < top {
            vx + dv
        } else {
            vx
        }
    } else if c.left && !c.right {
        if vx > -top {
            vx - dv
        } else {
            vx
        }
    } else if vx != 0 {
        if vx < 0 {
            if vx + dv < 0 {
                vx + dv
            } else {
                0
            }
        } else {
            if vx - dv > 0 {
                vx - dv
            } else {
                0
            }
        }
    } else {
        vx
    }
}

/// Which way the sprite faces after one tick: a held direction turns the
/// player, no input keeps the current facing.
pub open spec fn spec_facing_left(facing_left: bool, c: Controllable) -> bool {
    if c.right && !c.left {
        false
    } else if c.left && !c.right {
        true
    } else {
        facing_left
    }
}

/// The locomotion animation derived from the updated velocity: jump-up or
/// jump-down while airborne and moving vertically, walking while moving
/// horizontally, idle otherwise.
pub open spec fn spec_animation_after(vx: int, vy: int, grounded: bool) -> AnimationState {
    if vy > JUMP_ANIM_THRESHOLD && !grounded {
        AnimationState::JumpUp
    } else if vy < -JUMP_ANIM_THRESHOLD && !grounded {
        AnimationState::JumpDown
    } else if vx > WALK_ANIM_THRESHOLD || vx < -WALK_ANIM_THRESHOLD {
        AnimationState::Walking
    } else {
        AnimationState::Idle
    }
}

/// The per-tick movement controller.  Resolves a jump request (coyote-window
/// jump first, boosted by boots-and-fire; double jump second, asking for
/// boots-and-air), updates the horizontal velocity toward the effective top
/// speed, turns the sprite, and re-derives the locomotion animation state.
/// Returns the cosmetic effect the presentation layer should play, if any.
pub fn handle_controllables(
    velocity: &mut Velocity,
    controllable: &Controllable,
    player: &Player,
    animation: &mut AnimationState,
    facing_left: &mut bool,
    detector: &mut GroundDetector,
    debug_settings: &DebugSettings,
    delta_ms: u64,
) -> (effect: Option<JumpEffect>)
    requires
        old(velocity).wf(),
        controllable.wf(),
        old(detector).wf(),
        delta_ms <= MAX_DELTA_MS,
    ensures
        final(velocity).x as int == spec_horizontal_velocity(
            old(velocity).x as int,
            *controllable,
            *player,
            old(detector).is_grounded,
            delta_ms,
        ),
        final(velocity).y as int == spec_vertical_velocity(
            old(velocity).y as int,
            *controllable,
            *player,
            *old(detector),
            *debug_settings,
        ),
        *final(detector) == spec_detector_after_jump(*controllable, *player, *old(detector), *debug_settings),
        *final(facing_left) == spec_facing_left(*old(facing_left), *controllable),
        *final(animation) == spec_animation_after(
            final(velocity).x as int,
            final(velocity).y as int,
            old(detector).is_grounded,
        ),
        effect == spec_jump_effect(*controllable, *player, *old(detector), *debug_settings),
        final(velocity).wf(),
        final(detector).wf(),
{
    let mut effect: Option<JumpEffect> = None;
    if controllable.jumping && (!detector.coyote_timer.finished() || debug_settings.flying) {
        if player.has_equipt(Equipment::MagicBoots) && player.has_infused(Element::Fire) {
            velocity.y = ((controllable.jump_velocity as u64 * 13) / 10) as i64;
            effect = Some(JumpEffect::Explosion);
        } else {
            velocity.y = controllable.jump_velocity;
            effect = Some(JumpEffect::Plain);
        }
        // run out the coyote window so the grace period cannot be reused
        detector.coyote_timer.tick(COYOTE_EXHAUST_MS);
    } else if controllable.jumping && detector.has_double_jump && player.has_equipt(
        Equipment::MagicBoots,
    ) && player.has_infused(Element::Air) {
        velocity.y = controllable.jump_velocity;
        detector.has_double_jump = false;
        effect = Some(JumpEffect::Puff);
    }
    let acceleration_u: u64 = if detector.is_grounded {
        controllable.acceleration as u64
    } else {
        controllable.acceleration as u64 / 2
    };
    proof {
        assert(acceleration_u * delta_ms <= 1_000_000_000_000_000_000) by (nonlinear_arith)
            requires
                acceleration_u <= 1_000_000_000,
                delta_ms <= 1_000_000_000,
        ;
    }
    let dv: i64 = ((acceleration_u * delta_ms) / 1000) as i64;
    let max_speed: i64 = if player.has_equipt(Equipment::MagicBoots) && player.has_infused(
        Element::Water,
    ) {
        controllable.max_speed * 2
    } else {
        controllable.max_speed
    };
    if controllable.right && !controllable.left {
        if velocity.x < max_speed {
            velocity.x = velocity.x + dv;
        }
        *facing_left = false;
    } else if controllable.left && !controllable.right {
        if velocity.x > -max_speed {
            velocity.x = velocity.x - dv;
        }
        *facing_left = true;
    } else if velocity.x != 0 {
        if velocity.x < 0 {
            let nx = velocity.x + dv;
            velocity.x = if nx < 0 {
                nx
            } else {
                0
            };
        } else {
            let nx = velocity.x - dv;
            velocity.x = if nx > 0 {
                nx
            } else {
                0
            };
        }
    }
    let new_state = if velocity.y > JUMP_ANIM_THRESHOLD && !detector.is_grounded {
        AnimationState::JumpUp
    } else if velocity.y < -JUMP_ANIM_THRESHOLD && !detector.is_grounded {
        AnimationState::JumpDown
    } else if velocity.x > WALK_ANIM_THRESHOLD || velocity.x < -WALK_ANIM_THRESHOLD {
        AnimationState::Walking
    } else {
        AnimationState::Idle
    };
    if *animation != new_state {
        *animation = new_state;
    }
    effect
}

/// Coyote time: while the coyote window is still open, a jump request is
/// honored with the full jump velocity (setting aside the boots-and-fire
/// boost); once the window has closed — even one millisecond late — a jump
/// request with no fly override and no double jump available leaves the
/// vertical velocity unchanged.
pub proof fn lemma_coyote_window(vy: int, c: Controllable, player: Player, d: GroundDetector, debug: DebugSettings)
    requires
        c.jumping,
        !spec_boosted_jump(player),
    ensures
        !d.coyote_timer.spec_finished() ==> spec_vertical_velocity(vy, c, player, d, debug)
            == c.jump_velocity,
        d.coyote_timer.spec_finished() && !debug.flying && !d.has_double_jump
            ==> spec_vertical_velocity(vy, c, player, d, debug) == vy,
{
}

/// The coyote window's timing: from the instant the player leaves the ground
/// (the coyote timer freshly reset and resumed), a jump request `t`
/// milliseconds later still finds the window open iff `t` is below the window
/// length.
pub proof fn lemma_coyote_window_timing(d: GroundDetector, t: u64)
    requires
        d.wf(),
        !d.coyote_timer.paused,
        d.coyote_timer.elapsed_ms == 0,
        t <= MAX_DELTA_MS,
    ensures
        t < COYOTE_MS ==> !d.coyote_timer.spec_tick(t).spec_finished(),
        t >= COYOTE_MS ==> d.coyote_timer.spec_tick(t).spec_finished(),
{
}

/// Double-jump availability is exactly "grounded since the last double jump":
/// touching ground grants it, collision processing never revokes it, using
/// the double jump consumes it, and the movement step never grants it.
pub proof fn lemma_double_jump_availability(
    vy: int,
    c: Controllable,
    player: Player,
    d: GroundDetector,
    debug: DebugSettings,
    ev: ContactEvent,
)
    ensures
        d.spec_apply_contact(ev).is_grounded ==> d.spec_apply_contact(ev).has_double_jump,
        d.has_double_jump ==> d.spec_apply_contact(ev).has_double_jump,
        spec_double_jump(c, player, d, debug) ==> !spec_detector_after_jump(
            c,
            player,
            d,
            debug,
        ).has_double_jump,
        spec_double_jump(c, player, d, debug) ==> spec_vertical_velocity(vy, c, player, d, debug)
            == c.jump_velocity,
        !d.has_double_jump ==> !spec_detector_after_jump(c, player, d, debug).has_double_jump,
        !d.has_double_jump && !spec_coyote_jump(c, d, debug) ==> spec_vertical_velocity(
            vy,
            c,
            player,
            d,
            debug,
        ) == vy,
{
}

/// Contact processing alone never revokes double-jump availability.
proof fn lemma_double_jump_persists_over_contacts(d: GroundDetector, events: Seq<ContactEvent>)
    ensures
        d.has_double_jump ==> d.spec_run_contacts(events).has_double_jump,
    decreases events.len(),
{
    if events.len() > 0 {
        lemma_double_jump_persists_over_contacts(d.spec_apply_contact(events[0]), events.skip(1));
    }
}

/// Double jump availability over a whole batch of contact notifications is
/// exactly "available before, or grounded at some point of the batch": the
/// trace-level reading of `lemma_double_jump_availability`, with the movement
/// step's consumption as the only way availability is ever lost.
pub proof fn lemma_double_jump_grounded_since(d: GroundDetector, events: Seq<ContactEvent>)
    ensures
        d.spec_run_contacts(events).has_double_jump <==> (d.has_double_jump || exists|i: int|
            0 <= i < events.len() && (#[trigger] d.spec_run_contacts(
                events.take(i + 1),
            )).is_grounded),
    decreases events.len(),
{
    if events.len() == 0 {
    } else {
        let d1 = d.spec_apply_contact(events[0]);
        let rest = events.skip(1);
        lemma_double_jump_grounded_since(d1, rest);
        assert(events.take(1)[0] == events[0]);
        assert(events.take(1).skip(1) =~= Seq::<ContactEvent>::empty());
        assert(d.spec_run_contacts(events.take(1)) == d1.spec_run_contacts(
            events.take(1).skip(1),
        ));
        assert(d1.spec_run_contacts(Seq::<ContactEvent>::empty()) == d1);
        assert(d.spec_run_contacts(events.take(1)) == d1);
        assert forall|i: int| 1 <= i < events.len() implies d.spec_run_contacts(
            events.take(i + 1),
        ) == d1.spec_run_contacts(rest.take(i)) by {
            assert(events.take(i + 1)[0] == events[0]);
            assert(events.take(i + 1).skip(1) =~= rest.take(i));
        };
        // one contact grants availability exactly when it grounds the detector
        assert(d1.has_double_jump == (d.has_double_jump || d1.is_grounded));
        if d.spec_run_contacts(events).has_double_jump {
            if !d.has_double_jump {
                if d1.has_double_jump {
                    assert(d.spec_run_contacts(events.take(0int + 1)).is_grounded);
                } else {
                    let j = choose|j: int| 0 <= j < rest.len() && (#[trigger] d1.spec_run_contacts(
                        rest.take(j + 1),
                    )).is_grounded;
                    assert(d.spec_run_contacts(events.take((j + 1) + 1)).is_grounded);
                }
            }
        }
        if d.has_double_jump {
            lemma_double_jump_persists_over_contacts(d1, rest);
        } else if exists|i: int| 0 <= i < events.len() && (#[trigger] d.spec_run_contacts(
            events.take(i + 1),
        )).is_grounded {
            let i = choose|i: int| 0 <= i < events.len() && (#[trigger] d.spec_run_contacts(
                events.take(i + 1),
            )).is_grounded;
            if i == 0 {
                assert(d1.is_grounded);
            } else {
                assert(d1.spec_run_contacts(rest.take((i - 1) + 1)).is_grounded);
            }
        }
    }
}

/// The coyote-freeze invariant: after any contact notification the coyote
/// timer is reset and paused exactly while contacts are active, and counting
/// exactly while the detector is airborne — so elapsed-time ticks advance the
/// window only once the player has left the ground.
pub proof fn lemma_coyote_freeze_invariant(d: GroundDetector, ev: ContactEvent, delta_ms: u64)
    ensures
        d.spec_apply_contact(ev).active_collisions > 0 ==> {
            &&& d.spec_apply_contact(ev).coyote_timer.paused
            &&& d.spec_apply_contact(ev).coyote_timer.elapsed_ms == 0
            &&& d.spec_apply_contact(ev).coyote_timer.spec_tick(delta_ms)
                == d.spec_apply_contact(ev).coyote_timer
        },
        d.spec_apply_contact(ev).active_collisions == 0
            ==> !d.spec_apply_contact(ev).coyote_timer.paused,
{
}

/// The reentrant contact counter never underflows: for any sequence of
/// start/stop notifications — including a stop with no preceding start — the
/// counter stays a well-defined count of at least zero, and a stop seen while
/// the counter is zero leaves it at zero rather than wrapping.
pub proof fn lemma_active_collisions_never_negative(d: GroundDetector, events: Seq<ContactEvent>, ev: ContactEvent)
    requires
        d.wf(),
    ensures
        d.spec_run_contacts(events).active_collisions >= 0,
        d.spec_run_contacts(events).wf(),
        d.active_collisions == 0 && !ev.started ==> d.spec_apply_contact(ev).active_collisions == 0,
    decreases events.len(),
{
    if events.len() > 0 {
        lemma_active_collisions_never_negative(d.spec_apply_contact(events[0]), events.skip(1), ev);
    }
}

} // verus!
