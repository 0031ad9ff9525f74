//! Elemental abilities: equipment and element selection, projectile casting,
//! and the outcome of each projectile kind hitting the world.

use vstd::prelude::*;
use crate::animation::Animated;
use crate::destruction::DestructionTimer;
use crate::entity::goblin;
use crate::entity::goblin::Patrol;
use crate::entity::player::Player;
use crate::input::Controllable;
use crate::physics::CollisionLayers;
use crate::physics::PhysicsLayers;
use crate::physics::RigidBody;
use crate::physics::Velocity;
use crate::timer::Timer;
use crate::timer::MAX_DELTA_MS;

verus! {

/// A piece of equipment the player can slot into the active combination.
#[derive(Clone, Copy, Debug, PartialEq, Eq, Structural)]
pub enum Equipment {
    Staff,
    MagicBoots,
    Cloak,
}

impl Equipment {
    pub open spec fn spec_label(self) -> Seq<char> {
        match self {
            Equipment::Staff => "Staff"@,
            Equipment::MagicBoots => "Magic Boots"@,
            Equipment::Cloak => "Cloak of Resistance"@,
        }
    }

    /// Human-readable name shown by the menus.
    pub fn label(&self) -> (r: &'static str)
        ensures
            r@ == self.spec_label(),
    {
        match self {
            Equipment::Staff => "Staff",
            Equipment::MagicBoots => "Magic Boots",
            Equipment::Cloak => "Cloak of Resistance",
        }
    }
}

/// An element the player can infuse into the active combination.
#[derive(Clone, Copy, Debug, PartialEq, Eq, Structural)]
pub enum Element {
    Fire,
    Air,
    Water,
}

impl Element {
    pub open spec fn spec_label(self) -> Seq<char> {
        match self {
            Element::Fire => "Fire"@,
            Element::Air => "Air"@,
            Element::Water => "Water"@,
        }
    }

    /// Human-readable name shown by the menus.
    pub fn label(&self) -> (r: &'static str)
        ensures
            r@ == self.spec_label(),
    {
        match self {
            Element::Fire => "Fire",
            Element::Air => "Air",
            Element::Water => "Water",
        }
    }
}

/// Marker for a live fire projectile.
#[derive(Clone, Copy, Debug, PartialEq, Eq, Structural)]
pub struct FireProjectile;

/// Marker for a live wind projectile.
#[derive(Clone, Copy, Debug, PartialEq, Eq, Structural)]
pub struct WindProjectile;

/// Marker for a live water projectile.
#[derive(Clone, Copy, Debug, PartialEq, Eq, Structural)]
pub struct WaterProjectile;

/// Horizontal speed of a fire projectile, in milli-units per second.
pub const FIRE_PROJECTILE_SPEED: i64 = 150_000;

/// Horizontal speed of a wind projectile, in milli-units per second.
pub const WIND_PROJECTILE_SPEED: i64 = 50_000;

/// Horizontal speed of a water projectile, in milli-units per second.
pub const WATER_PROJECTILE_SPEED: i64 = 100_000;

/// Lifetime of a fire or wind projectile, in milliseconds; a water projectile
/// lives until its first collision instead.
pub const PROJECTILE_LIFETIME_MS: u64 = 600;

/// Delay before a killed enemy's corpse is removed, in milliseconds.
pub const ENEMY_DESTRUCTION_MS: u64 = 600;

/// Everything needed to spawn one projectile: its element, launch velocity,
/// collision layers, rigid-body behavior, lifetime and sprite animation.
#[derive(Clone, Copy, Debug, PartialEq, Eq)]
pub struct ProjectileSpawn {
    pub element: Element,
    pub velocity: Velocity,
    pub layers: CollisionLayers,
    pub body: RigidBody,
    pub lifetime: Option<DestructionTimer>,
    pub animated: Option<Animated>,
}

/// The projectile each element casts, thrown the way the player faces.
pub open spec fn spec_projectile_spawn(element: Element, facing_left: bool) -> ProjectileSpawn {
    match element {
        Element::Fire => ProjectileSpawn {
            element: Element::Fire,
            velocity: Velocity {
                x: if facing_left {
                    (-FIRE_PROJECTILE_SPEED) as i64
                } else {
                    FIRE_PROJECTILE_SPEED
                },
                y: 0,
            },
            layers: CollisionLayers {
                groups: PhysicsLayers::Fireball.spec_bit(),
                masks: PhysicsLayers::Enemy.spec_bit() | PhysicsLayers::Wood.spec_bit(),
            },
            body: RigidBody::KinematicVelocityBased,
            lifetime: Some(DestructionTimer(Timer {
                duration_ms: PROJECTILE_LIFETIME_MS,
                elapsed_ms: 0,
                repeating: false,
                paused: false,
                just_finished: false,
            })),
            animated: Some(Animated {
                timer: Timer {
                    duration_ms: 50,
                    elapsed_ms: 0,
                    repeating: true,
                    paused: false,
                    just_finished: false,
                },
                start: 0,
                end: 4,
                play_once: false,
            }),
        },
        Element::Air => ProjectileSpawn {
            element: Element::Air,
            velocity: Velocity {
                x: if facing_left {
                    (-WIND_PROJECTILE_SPEED) as i64
                } else {
                    WIND_PROJECTILE_SPEED
                },
                y: 0,
            },
            layers: CollisionLayers {
                groups: PhysicsLayers::Wind.spec_bit(),
                masks: PhysicsLayers::Movable.spec_bit(),
            },
            body: RigidBody::KinematicVelocityBased,
            lifetime: Some(DestructionTimer(Timer {
                duration_ms: PROJECTILE_LIFETIME_MS,
                elapsed_ms: 0,
                repeating: false,
                paused: false,
                just_finished: false,
            })),
            animated: Some(Animated {
                timer: Timer {
                    duration_ms: 100,
                    elapsed_ms: 0,
                    repeating: true,
                    paused: false,
                    just_finished: false,
                },
                start: 0,
                end: 5,
                play_once: false,
            }),
        },
        Element::Water => ProjectileSpawn {
            element: Element::Water,
            velocity: Velocity {
                x: if facing_left {
                    (-WATER_PROJECTILE_SPEED) as i64
                } else {
                    WATER_PROJECTILE_SPEED
                },
                y: 0,
            },
            layers: CollisionLayers {
                groups: PhysicsLayers::WaterDrop.spec_bit(),
                masks: PhysicsLayers::Terrain.spec_bit() | PhysicsLayers::Lava.spec_bit(),
            },
            body: RigidBody::Dynamic,
            lifetime: None,
            animated: None,
        },
    }
}

/// Whether an ability cast fires this tick: the intent is held, the cooldown
/// (advanced by this tick) has run out, the staff is equipped and an element
/// is infused.
pub open spec fn spec_casts(c: Controllable, player: Player, delta_ms: u64) -> bool {
    &&& c.ability
    &&& c.ability_timer.spec_tick(delta_ms).spec_finished()
    &&& player.spec_has_equipt(Equipment::Staff)
    &&& player.combination.1 is Some
}

/// The projectile cast this tick, if any.
pub open spec fn spec_cast_result(c: Controllable, player: Player, facing_left: bool, delta_ms: u64) -> Option<ProjectileSpawn> {
    match player.combination.1 {
        Some(element) => if spec_casts(c, player, delta_ms) {
            Some(spec_projectile_spawn(element, facing_left))
        } else {
            None
        },
        None => None,
    }
}

/// One tick of the ability state machine: advance the cooldown, and when a
/// cast is due (intent held, cooldown finished, staff equipped, element
/// infused) reset the cooldown and return the projectile to spawn.
pub fn use_ability(
    controllable: &mut Controllable,
    player: &Player,
    facing_left: bool,
    delta_ms: u64,
) -> (spawn: Option<ProjectileSpawn>)
    requires
        old(controllable).wf(),
        delta_ms <= MAX_DELTA_MS,
    ensures
        spawn == spec_cast_result(*old(controllable), *player, facing_left, delta_ms),
        *final(controllable) == (Controllable {
            ability_timer: if spec_casts(*old(controllable), *player, delta_ms) {
                Timer {
                    elapsed_ms: 0,
                    just_finished: false,
                    ..old(controllable).ability_timer.spec_tick(delta_ms)
                }
            } else {
                old(controllable).ability_timer.spec_tick(delta_ms)
            },
            ..*old(controllable)
        }),
        final(controllable).wf(),
{
    controllable.ability_timer.tick(delta_ms);
    let mut spawn: Option<ProjectileSpawn> = None;
    if controllable.ability && controllable.ability_timer.finished() && player.has_equipt(
        Equipment::Staff,
    ) {
        if player.has_infused(Element::Fire) {
            controllable.ability_timer.reset();
            let vx: i64 = if facing_left {
                -FIRE_PROJECTILE_SPEED
            } else {
                FIRE_PROJECTILE_SPEED
            };
            spawn = Some(ProjectileSpawn {
                element: Element::Fire,
                velocity: Velocity { x: vx, y: 0 },
                layers: CollisionLayers {
                    groups: PhysicsLayers::Fireball.bit(),
                    masks: PhysicsLayers::Enemy.bit() | PhysicsLayers::Wood.bit(),
                },
                body: RigidBody::KinematicVelocityBased,
                lifetime: Some(DestructionTimer(Timer::from_millis(PROJECTILE_LIFETIME_MS, false))),
                animated: Some(Animated::new(50, 0, 4, false)),
            });
        } else if player.has_infused(Element::Air) {
            controllable.ability_timer.reset();
            let vx: i64 = if facing_left {
                -WIND_PROJECTILE_SPEED
            } else {
                WIND_PROJECTILE_SPEED
            };
            spawn = Some(ProjectileSpawn {
                element: Element::Air,
                velocity: Velocity { x: vx, y: 0 },
                layers: CollisionLayers {
                    groups: PhysicsLayers::Wind.bit(),
                    masks: PhysicsLayers::Movable.bit(),
                },
                body: RigidBody::KinematicVelocityBased,
                lifetime: Some(DestructionTimer(Timer::from_millis(PROJECTILE_LIFETIME_MS, false))),
                animated: Some(Animated::new(100, 0, 5, false)),
            });
        } else if player.has_infused(Element::Water) {
            controllable.ability_timer.reset();
            let vx: i64 = if facing_left {
                -WATER_PROJECTILE_SPEED
            } else {
                WATER_PROJECTILE_SPEED
            };
            spawn = Some(ProjectileSpawn {
                element: Element::Water,
                velocity: Velocity { x: vx, y: 0 },
                layers: CollisionLayers {
                    groups: PhysicsLayers::WaterDrop.bit(),
                    masks: PhysicsLayers::Terrain.bit() | PhysicsLayers::Lava.bit(),
                },
                body: RigidBody::Dynamic,
                lifetime: None,
                animated: None,
            });
        }
    }
    spawn
}

/// The parts of an enemy a fire hit rewrites: animation state, velocity,
/// patrol, hurtbox and rigid-body presence, and the corpse-removal timer.
#[derive(Clone, Copy, Debug, PartialEq, Eq)]
pub struct EnemyState {
    pub state: goblin::AnimationState,
    pub velocity: Velocity,
    pub patrol: Patrol,
    pub has_hurtbox: bool,
    pub body: Option<RigidBody>,
    pub destruction: Option<DestructionTimer>,
}

/// The parts of a lava entity a water hit rewrites: its frame window, its
/// rigid-body behavior, its collision layers and its hazard tag.
#[derive(Clone, Copy, Debug, PartialEq, Eq)]
pub struct LavaState {
    pub animated: Animated,
    pub body: RigidBody,
    pub layers: CollisionLayers,
    pub is_lava: bool,
}

/// What the projectile systems see of one collision participant.  Collision
/// notifications name their two participants in no particular order, so every
/// resolution below handles both orderings through one (subject, other)
/// function invoked twice with swapped arguments.
#[derive(Clone, Copy, Debug, PartialEq, Eq)]
pub enum Participant {
    Fireball,
    WindGust { velocity: Velocity, layers: CollisionLayers },
    WaterDrop,
    Goblin(EnemyState),
    FlammableProp,
    MovableBlock { velocity: Velocity },
    LavaPool(LavaState),
    Other,
}

/// The sound a resolved projectile hit asks the presentation layer to play.
#[derive(Clone, Copy, Debug, PartialEq, Eq, Structural)]
pub enum HitSound {
    Hurt,
    Steam,
}

/// Both participants after resolving one collision (`None` when despawned),
/// and the sound to play.
#[derive(Clone, Copy, Debug, PartialEq, Eq)]
pub struct PairOutcome {
    pub first: Option<Participant>,
    pub second: Option<Participant>,
    pub sound: Option<HitSound>,
}

/// What one projectile hit does to the entity it struck, seen from the
/// projectile's side.
#[derive(Clone, Copy, Debug, PartialEq, Eq)]
pub struct HitOutcome {
    pub subject_survives: bool,
    pub other: Option<Participant>,
    pub sound: Option<HitSound>,
}

/// An enemy killed by fire: death animation, patrol and horizontal velocity
/// zeroed, hurtbox and rigid-body removed, corpse-removal timer started.
pub open spec fn spec_enemy_killed(e: EnemyState) -> EnemyState {
    EnemyState {
        state: goblin::AnimationState::Death,
        velocity: Velocity { x: 0, y: e.velocity.y },
        patrol: Patrol { movement_speed: 0, ..e.patrol },
        has_hurtbox: false,
        body: None,
        destruction: Some(DestructionTimer(Timer {
            duration_ms: ENEMY_DESTRUCTION_MS,
            elapsed_ms: 0,
            repeating: false,
            paused: false,
            just_finished: false,
        })),
    }
}

/// A fire projectile striking `other`: an enemy dies and the projectile
/// despawns; a flammable prop burns away together with the projectile;
/// anything else is untouched and the projectile flies on.
pub open spec fn spec_fire_hit(other: Participant) -> HitOutcome {
    match other {
        Participant::Goblin(e) => HitOutcome {
            subject_survives: false,
            other: Some(Participant::Goblin(spec_enemy_killed(e))),
            sound: Some(HitSound::Hurt),
        },
        Participant::FlammableProp => HitOutcome {
            subject_survives: false,
            other: None,
            sound: Some(HitSound::Hurt),
        },
        _ => HitOutcome { subject_survives: true, other: Some(other), sound: None },
    }
}

/// One collision notification resolved by the fire projectile system.
pub open spec fn spec_fire_projectile_collision(first: Participant, second: Participant) -> PairOutcome {
    if first is Fireball {
        let hit = spec_fire_hit(second);
        PairOutcome {
            first: if hit.subject_survives {
                Some(first)
            } else {
                None
            },
            second: hit.other,
            sound: hit.sound,
        }
    } else if second is Fireball {
        let hit = spec_fire_hit(first);
        PairOutcome {
            first: hit.other,
            second: if hit.subject_survives {
                Some(second)
            } else {
                None
            },
            sound: hit.sound,
        }
    } else {
        PairOutcome { first: Some(first), second: Some(second), sound: None }
    }
}

/// A fire projectile striking `other` (the projectile is the subject).
fn fire_hit(other: Participant) -> (hit: HitOutcome)
    ensures
        hit == spec_fire_hit(other),
{
    match other {
        Participant::Goblin(e) => HitOutcome {
            subject_survives: false,
            other: Some(Participant::Goblin(EnemyState {
                state: goblin::AnimationState::Death,
                velocity: Velocity { x: 0, y: e.velocity.y },
                patrol: Patrol { movement_speed: 0, ..e.patrol },
                has_hurtbox: false,
                body: None,
                destruction: Some(DestructionTimer(Timer::from_millis(ENEMY_DESTRUCTION_MS, false))),
            })),
            sound: Some(HitSound::Hurt),
        },
        Participant::FlammableProp => HitOutcome {
            subject_survives: false,
            other: None,
            sound: Some(HitSound::Hurt),
        },
        o => HitOutcome { subject_survives: true, other: Some(o), sound: None },
    }
}

/// Resolve one collision notification for the fire projectile system: if
/// either participant is a fire projectile, an enemy on the other side dies
/// (death animation, patrol and horizontal velocity zeroed, hurtbox and
/// rigid-body removed, corpse timer started) and the projectile despawns; a
/// flammable prop and the projectile both despawn; any other pairing is left
/// untouched.
pub fn fire_projectile_collision(first: Participant, second: Participant) -> (r: PairOutcome)
    ensures
        r == spec_fire_projectile_collision(first, second),
{
    match (first, second) {
        (Participant::Fireball, other) => {
            let hit = fire_hit(other);
            PairOutcome {
                first: if hit.subject_survives {
                    Some(Participant::Fireball)
                } else {
                    None
                },
                second: hit.other,
                sound: hit.sound,
            }
        },
        (other, Participant::Fireball) => {
            let hit = fire_hit(other);
            PairOutcome {
                first: hit.other,
                second: if hit.subject_survives {
                    Some(Participant::Fireball)
                } else {
                    None
                },
                sound: hit.sound,
            }
        },
        (f, s) => PairOutcome { first: Some(f), second: Some(s), sound: None },
    }
}

/// Casting fire at an enemy: in either participant order the projectile
/// despawns and the enemy transitions to its death animation with horizontal
/// velocity exactly zero and patrol speed exactly zero.
pub proof fn lemma_fire_kills_enemy(e: EnemyState)
    ensures
        spec_fire_projectile_collision(Participant::Fireball, Participant::Goblin(e)).first is None,
        spec_fire_projectile_collision(Participant::Fireball, Participant::Goblin(e)).second
            == Some(Participant::Goblin(spec_enemy_killed(e))),
        spec_fire_projectile_collision(Participant::Goblin(e), Participant::Fireball).second is None,
        spec_fire_projectile_collision(Participant::Goblin(e), Participant::Fireball).first
            == Some(Participant::Goblin(spec_enemy_killed(e))),
        spec_enemy_killed(e).state == goblin::AnimationState::Death,
        spec_enemy_killed(e).velocity.x == 0,
        spec_enemy_killed(e).patrol.movement_speed == 0,
{
}

/// One collision notification resolved by the wind projectile system: the
/// gust overwrites a movable block's velocity with its own and clears its own
/// movable mask bit so the block is not pushed again mid-flight.
pub open spec fn spec_wind_projectile_collision(first: Participant, second: Participant) -> PairOutcome {
    if first is WindGust && second is MovableBlock {
        PairOutcome {
            first: Some(Participant::WindGust {
                velocity: first->WindGust_velocity,
                layers: CollisionLayers {
                    groups: first->WindGust_layers.groups,
                    masks: first->WindGust_layers.masks & !PhysicsLayers::Movable.spec_bit(),
                },
            }),
            second: Some(Participant::MovableBlock { velocity: first->WindGust_velocity }),
            sound: None,
        }
    } else if second is WindGust && first is MovableBlock {
        PairOutcome {
            first: Some(Participant::MovableBlock { velocity: second->WindGust_velocity }),
            second: Some(Participant::WindGust {
                velocity: second->WindGust_velocity,
                layers: CollisionLayers {
                    groups: second->WindGust_layers.groups,
                    masks: second->WindGust_layers.masks & !PhysicsLayers::Movable.spec_bit(),
                },
            }),
            sound: None,
        }
    } else {
        PairOutcome { first: Some(first), second: Some(second), sound: None }
    }
}

/// Resolve one collision notification for the wind projectile system: a gust
/// hitting a movable block pushes it (the block's velocity becomes the
/// projectile's, in either participant order), and the gust stops colliding
/// with movable blocks so it cannot push twice.  Neither entity despawns; the
/// gust expires through its lifetime timer.
pub fn wind_projectile_collision(first: Participant, second: Participant) -> (r: PairOutcome)
    ensures
        r == spec_wind_projectile_collision(first, second),
{
    match (first, second) {
        (Participant::WindGust { velocity, layers }, Participant::MovableBlock { velocity: _block_velocity }) => PairOutcome {
            first: Some(Participant::WindGust {
                velocity,
                layers: layers.without_mask(PhysicsLayers::Movable),
            }),
            second: Some(Participant::MovableBlock { velocity }),
            sound: None,
        },
        (Participant::MovableBlock { velocity: _block_velocity }, Participant::WindGust { velocity, layers }) => PairOutcome {
            first: Some(Participant::MovableBlock { velocity }),
            second: Some(Participant::WindGust {
                velocity,
                layers: layers.without_mask(PhysicsLayers::Movable),
            }),
            sound: None,
        },
        (f, s) => PairOutcome { first: Some(f), second: Some(s), sound: None },
    }
}

/// A wind gust hitting a movable block: in either participant order the
/// block's velocity becomes exactly the projectile's velocity, and the gust's
/// movable mask bit is cleared afterward.
pub proof fn lemma_wind_pushes_block(v: Velocity, l: CollisionLayers, block_v: Velocity)
    ensures
        spec_wind_projectile_collision(
            Participant::WindGust { velocity: v, layers: l },
            Participant::MovableBlock { velocity: block_v },
        ).second == Some(Participant::MovableBlock { velocity: v }),
        spec_wind_projectile_collision(
            Participant::MovableBlock { velocity: block_v },
            Participant::WindGust { velocity: v, layers: l },
        ).first == Some(Participant::MovableBlock { velocity: v }),
        spec_wind_projectile_collision(
            Participant::WindGust { velocity: v, layers: l },
            Participant::MovableBlock { velocity: block_v },
        ).first == Some(Participant::WindGust {
            velocity: v,
            layers: CollisionLayers {
                groups: l.groups,
                masks: l.masks & !PhysicsLayers::Movable.spec_bit(),
            },
        }),
        (l.masks & !PhysicsLayers::Movable.spec_bit()) & PhysicsLayers::Movable.spec_bit() == 0,
{
    let m = l.masks;
    assert((m & !0x80u16) & 0x80u16 == 0) by (bit_vector);
}

/// Lava petrified by water: its frame window switches to the cooled range
/// `[8, 9)`, its rigid-body becomes static, its hazard tag is removed, and
/// its collision layers gain the terrain group.
pub open spec fn spec_lava_petrified(l: LavaState) -> LavaState {
    LavaState {
        animated: Animated { start: 8, end: 9, ..l.animated },
        body: RigidBody::Static,
        layers: CollisionLayers {
            groups: l.layers.groups | PhysicsLayers::Terrain.spec_bit(),
            masks: l.layers.masks,
        },
        is_lava: false,
    }
}

/// One collision notification resolved by the water projectile system: the
/// droplet despawns on its first collision whatever it struck, and a lava
/// entity on the other side petrifies into walkable terrain.
pub open spec fn spec_water_projectile_collision(first: Participant, second: Participant) -> PairOutcome {
    if first is WaterDrop {
        match second {
            Participant::LavaPool(l) => PairOutcome {
                first: None,
                second: Some(Participant::LavaPool(spec_lava_petrified(l))),
                sound: Some(HitSound::Steam),
            },
            _ => PairOutcome { first: None, second: Some(second), sound: None },
        }
    } else if second is WaterDrop {
        match first {
            Participant::LavaPool(l) => PairOutcome {
                first: Some(Participant::LavaPool(spec_lava_petrified(l))),
                second: None,
                sound: Some(HitSound::Steam),
            },
            _ => PairOutcome { first: Some(first), second: None, sound: None },
        }
    } else {
        PairOutcome { first: Some(first), second: Some(second), sound: None }
    }
}

/// Resolve one collision notification for the water projectile system: the
/// droplet despawns on first contact whatever it struck (in either
/// participant order), and if it struck lava, the lava permanently petrifies:
/// cooled frame window, static rigid-body, hazard tag removed, terrain group
/// gained.
pub fn water_projectile_collision(first: Participant, second: Participant) -> (r: PairOutcome)
    ensures
        r == spec_water_projectile_collision(first, second),
{
    match (first, second) {
        (Participant::WaterDrop, Participant::LavaPool(l)) => PairOutcome {
            first: None,
            second: Some(Participant::LavaPool(LavaState {
                animated: Animated { start: 8, end: 9, ..l.animated },
                body: RigidBody::Static,
                layers: l.layers.with_group(PhysicsLayers::Terrain),
                is_lava: false,
            })),
            sound: Some(HitSound::Steam),
        },
        (Participant::WaterDrop, other) => PairOutcome {
            first: None,
            second: Some(other),
            sound: None,
        },
        (Participant::LavaPool(l), Participant::WaterDrop) => PairOutcome {
            first: Some(Participant::LavaPool(LavaState {
                animated: Animated { start: 8, end: 9, ..l.animated },
                body: RigidBody::Static,
                layers: l.layers.with_group(PhysicsLayers::Terrain),
                is_lava: false,
            })),
            second: None,
            sound: Some(HitSound::Steam),
        },
        (other, Participant::WaterDrop) => PairOutcome {
            first: Some(other),
            second: None,
            sound: None,
        },
        (f, s) => PairOutcome { first: Some(f), second: Some(s), sound: None },
    }
}

/// A water projectile hitting lava: in either participant order the lava's
/// rigid-body becomes static, its frame window becomes `[8, 9)`, it loses its
/// hazard tag, and the projectile no longer exists afterward.
pub proof fn lemma_water_petrifies_lava(l: LavaState)
    ensures
        spec_water_projectile_collision(Participant::WaterDrop, Participant::LavaPool(l)).first is None,
        spec_water_projectile_collision(Participant::WaterDrop, Participant::LavaPool(l)).second
            == Some(Participant::LavaPool(spec_lava_petrified(l))),
        spec_water_projectile_collision(Participant::LavaPool(l), Participant::WaterDrop).second is None,
        spec_water_projectile_collision(Participant::LavaPool(l), Participant::WaterDrop).first
            == Some(Participant::LavaPool(spec_lava_petrified(l))),
        spec_lava_petrified(l).body == RigidBody::Static,
        spec_lava_petrified(l).animated.start == 8,
        spec_lava_petrified(l).animated.end == 9,
        !spec_lava_petrified(l).is_lava,
        spec_lava_petrified(l).layers.spec_contains_group(PhysicsLayers::Terrain),
{
    let g = l.layers.groups;
    assert((g | 0x1u16) & 0x1u16 != 0) by (bit_vector);
}

} // verus!
