use elemental_core::abilities::{
    fire_projectile_collision, use_ability, water_projectile_collision, wind_projectile_collision,
    Element, EnemyState, Equipment, HitSound, LavaState, Participant, ENEMY_DESTRUCTION_MS,
    FIRE_PROJECTILE_SPEED, PROJECTILE_LIFETIME_MS, WATER_PROJECTILE_SPEED, WIND_PROJECTILE_SPEED,
};
use elemental_core::animation::Animated;
use elemental_core::entity::goblin;
use elemental_core::entity::goblin::Patrol;
use elemental_core::entity::player::Player;
use elemental_core::input::{Controllable, ABILITY_COOLDOWN_MS};
use elemental_core::physics::{CollisionLayers, PhysicsLayers, RigidBody, Velocity};

fn staff_player(element: Element) -> Player {
    let mut player = Player::default();
    player.combination = (Some(Equipment::Staff), Some(element));
    player
}

#[test]
fn casting_asks_for_intent_cooldown_staff_and_element() {
    let mut c = Controllable::new();
    c.ability = true;
    // cooldown not yet finished: a fresh controllable's timer runs from zero
    let player = staff_player(Element::Fire);
    assert!(use_ability(&mut c, &player, false, 10).is_none());
    // enough time elapses for the cooldown
    let spawn = use_ability(&mut c, &player, false, ABILITY_COOLDOWN_MS).unwrap();
    assert_eq!(spawn.element, Element::Fire);
    // the cooldown was reset by the cast
    assert_eq!(c.ability_timer.elapsed_ms, 0);
    assert!(use_ability(&mut c, &player, false, 10).is_none());

    // no staff: no cast even with the cooldown finished
    let mut c = Controllable::new();
    c.ability = true;
    let mut boots = staff_player(Element::Fire);
    boots.combination.0 = Some(Equipment::MagicBoots);
    assert!(use_ability(&mut c, &boots, false, ABILITY_COOLDOWN_MS).is_none());

    // no element infused: no cast, and the cooldown is not reset
    let mut c = Controllable::new();
    c.ability = true;
    let mut bare = Player::default();
    bare.combination = (Some(Equipment::Staff), None);
    assert!(use_ability(&mut c, &bare, false, ABILITY_COOLDOWN_MS).is_none());
    assert_eq!(c.ability_timer.elapsed_ms, ABILITY_COOLDOWN_MS);

    // no intent: no cast
    let mut c = Controllable::new();
    let player = staff_player(Element::Fire);
    assert!(use_ability(&mut c, &player, false, ABILITY_COOLDOWN_MS).is_none());
}

#[test]
fn fire_projectile_spawn_table() {
    let mut c = Controllable::new();
    c.ability = true;
    let player = staff_player(Element::Fire);
    let spawn = use_ability(&mut c, &player, false, ABILITY_COOLDOWN_MS).unwrap();
    assert_eq!(spawn.velocity, Velocity { x: FIRE_PROJECTILE_SPEED, y: 0 });
    assert_eq!(spawn.layers.groups, PhysicsLayers::Fireball.bit());
    assert_eq!(spawn.layers.masks, PhysicsLayers::Enemy.bit() | PhysicsLayers::Wood.bit());
    assert_eq!(spawn.body, RigidBody::KinematicVelocityBased);
    let lifetime = spawn.lifetime.unwrap();
    assert_eq!(lifetime.0.duration_ms, PROJECTILE_LIFETIME_MS);
    assert!(spawn.animated.is_some());

    // facing left throws the other way
    let spawn = use_ability(&mut c, &player, true, ABILITY_COOLDOWN_MS).unwrap();
    assert_eq!(spawn.velocity, Velocity { x: -FIRE_PROJECTILE_SPEED, y: 0 });
}

#[test]
fn wind_projectile_spawn_table() {
    let mut c = Controllable::new();
    c.ability = true;
    let player = staff_player(Element::Air);
    let spawn = use_ability(&mut c, &player, false, ABILITY_COOLDOWN_MS).unwrap();
    assert_eq!(spawn.element, Element::Air);
    assert_eq!(spawn.velocity, Velocity { x: WIND_PROJECTILE_SPEED, y: 0 });
    assert_eq!(spawn.layers.groups, PhysicsLayers::Wind.bit());
    assert_eq!(spawn.layers.masks, PhysicsLayers::Movable.bit());
    assert!(spawn.lifetime.is_some());
}

#[test]
fn water_projectile_spawn_table() {
    let mut c = Controllable::new();
    c.ability = true;
    let player = staff_player(Element::Water);
    let spawn = use_ability(&mut c, &player, false, ABILITY_COOLDOWN_MS).unwrap();
    assert_eq!(spawn.element, Element::Water);
    assert_eq!(spawn.velocity, Velocity { x: WATER_PROJECTILE_SPEED, y: 0 });
    assert_eq!(spawn.layers.groups, PhysicsLayers::WaterDrop.bit());
    assert_eq!(spawn.layers.masks, PhysicsLayers::Terrain.bit() | PhysicsLayers::Lava.bit());
    assert_eq!(spawn.body, RigidBody::Dynamic);
    // a water projectile has no lifetime timer: it lives until its first hit
    assert!(spawn.lifetime.is_none());
}

fn patrolling_goblin() -> EnemyState {
    EnemyState {
        state: goblin::AnimationState::Walking,
        velocity: Velocity { x: 20_000, y: -500 },
        patrol: Patrol { points: None, movement_speed: 20_000, face_left: false },
        has_hurtbox: true,
        body: Some(RigidBody::KinematicVelocityBased),
        destruction: None,
    }
}

#[test]
fn fire_hit_kills_enemy_and_despawns_projectile() {
    let r = fire_projectile_collision(Participant::Fireball, Participant::Goblin(patrolling_goblin()));
    assert!(r.first.is_none());
    assert_eq!(r.sound, Some(HitSound::Hurt));
    match r.second.unwrap() {
        Participant::Goblin(e) => {
            assert_eq!(e.state, goblin::AnimationState::Death);
            assert_eq!(e.velocity.x, 0);
            assert_eq!(e.velocity.y, -500);
            assert_eq!(e.patrol.movement_speed, 0);
            assert!(!e.has_hurtbox);
            assert!(e.body.is_none());
            assert_eq!(e.destruction.unwrap().0.duration_ms, ENEMY_DESTRUCTION_MS);
        },
        other => panic!("enemy expected, got {:?}", other),
    }
}

#[test]
fn fire_hit_is_symmetric_in_participant_order() {
    let r = fire_projectile_collision(Participant::Goblin(patrolling_goblin()), Participant::Fireball);
    assert!(r.second.is_none());
    match r.first.unwrap() {
        Participant::Goblin(e) => assert_eq!(e.state, goblin::AnimationState::Death),
        other => panic!("enemy expected, got {:?}", other),
    }
}

#[test]
fn fire_hit_burns_flammable_and_ignores_the_rest() {
    let r = fire_projectile_collision(Participant::Fireball, Participant::FlammableProp);
    assert!(r.first.is_none());
    assert!(r.second.is_none());
    assert_eq!(r.sound, Some(HitSound::Hurt));

    // plain terrain: no state change, the projectile flies on
    let r = fire_projectile_collision(Participant::Fireball, Participant::Other);
    assert_eq!(r.first, Some(Participant::Fireball));
    assert_eq!(r.second, Some(Participant::Other));
    assert_eq!(r.sound, None);
}

#[test]
fn wind_hit_pushes_block_with_projectile_velocity() {
    let gust = Participant::WindGust {
        velocity: Velocity { x: 50_000, y: 0 },
        layers: CollisionLayers::none()
            .with_group(PhysicsLayers::Wind)
            .with_mask(PhysicsLayers::Movable),
    };
    let block = Participant::MovableBlock { velocity: Velocity { x: 0, y: -1_000 } };
    let r = wind_projectile_collision(gust, block);
    // the block's velocity becomes exactly the projectile's (+50, 0)
    assert_eq!(r.second, Some(Participant::MovableBlock { velocity: Velocity { x: 50_000, y: 0 } }));
    match r.first.unwrap() {
        Participant::WindGust { velocity, layers } => {
            assert_eq!(velocity, Velocity { x: 50_000, y: 0 });
            // the movable mask bit is cleared so the gust cannot push twice
            assert_eq!(layers.masks & PhysicsLayers::Movable.bit(), 0);
            assert_eq!(layers.groups, PhysicsLayers::Wind.bit());
        },
        other => panic!("gust expected, got {:?}", other),
    }
}

#[test]
fn wind_hit_is_symmetric_in_participant_order() {
    let gust = Participant::WindGust {
        velocity: Velocity { x: -50_000, y: 0 },
        layers: CollisionLayers::none().with_mask(PhysicsLayers::Movable),
    };
    let block = Participant::MovableBlock { velocity: Velocity { x: 0, y: 0 } };
    let r = wind_projectile_collision(block, gust);
    assert_eq!(r.first, Some(Participant::MovableBlock { velocity: Velocity { x: -50_000, y: 0 } }));
}

fn molten_lava() -> LavaState {
    LavaState {
        animated: Animated::new(300, 0, 8, false),
        body: RigidBody::Sensor,
        layers: CollisionLayers::none().with_group(PhysicsLayers::Lava),
        is_lava: true,
    }
}

#[test]
fn water_hit_petrifies_lava_and_despawns_projectile() {
    let r = water_projectile_collision(Participant::WaterDrop, Participant::LavaPool(molten_lava()));
    assert!(r.first.is_none());
    assert_eq!(r.sound, Some(HitSound::Steam));
    match r.second.unwrap() {
        Participant::LavaPool(l) => {
            assert_eq!(l.animated.start, 8);
            assert_eq!(l.animated.end, 9);
            assert_eq!(l.body, RigidBody::Static);
            assert!(!l.is_lava);
            assert!(l.layers.contains_group(PhysicsLayers::Terrain));
        },
        other => panic!("lava expected, got {:?}", other),
    }
}

#[test]
fn water_projectile_despawns_on_any_first_hit() {
    let r = water_projectile_collision(Participant::WaterDrop, Participant::Other);
    assert!(r.first.is_none());
    assert_eq!(r.second, Some(Participant::Other));
    assert_eq!(r.sound, None);

    let r = water_projectile_collision(Participant::LavaPool(molten_lava()), Participant::WaterDrop);
    assert!(r.second.is_none());
    match r.first.unwrap() {
        Participant::LavaPool(l) => assert_eq!(l.body, RigidBody::Static),
        other => panic!("lava expected, got {:?}", other),
    }
}

#[test]
fn labels_spell_the_menu_names() {
    assert_eq!(Equipment::Staff.label(), "Staff");
    assert_eq!(Equipment::MagicBoots.label(), "Magic Boots");
    assert_eq!(Equipment::Cloak.label(), "Cloak of Resistance");
    assert_eq!(Element::Fire.label(), "Fire");
    assert_eq!(Element::Air.label(), "Air");
    assert_eq!(Element::Water.label(), "Water");
}
