use elemental_core::abilities::{Element, Equipment};
use elemental_core::debug::DebugSettings;
use elemental_core::entity::player::{AnimationState, Player};
use elemental_core::input::Controllable;
use elemental_core::physics::{
    check_grounded, handle_controllables, ContactEvent, GroundDetector, JumpEffect, Velocity,
    COYOTE_MS,
};

fn default_player() -> Player {
    Player::default()
}

fn default_debug() -> DebugSettings {
    DebugSettings::default()
}

#[test]
fn stop_without_start_clamps_at_zero() {
    let mut d = GroundDetector::new();
    assert_eq!(d.active_collisions, 0);
    let underflow = d.apply_contact(ContactEvent { started: false, involves_detector: true });
    assert!(underflow);
    assert_eq!(d.active_collisions, 0);
    assert!(!d.is_grounded);
}

#[test]
fn contact_counter_over_any_event_sequence_stays_consistent() {
    let mut d = GroundDetector::new();
    let events = vec![
        ContactEvent { started: false, involves_detector: true },
        ContactEvent { started: true, involves_detector: true },
        ContactEvent { started: true, involves_detector: true },
        ContactEvent { started: false, involves_detector: true },
        ContactEvent { started: false, involves_detector: true },
        ContactEvent { started: false, involves_detector: true },
    ];
    let underflows = check_grounded(&mut d, 16, &events);
    assert_eq!(underflows, 2);
    assert_eq!(d.active_collisions, 0);
}

#[test]
fn counter_saturates_at_its_maximum() {
    let mut d = GroundDetector::new();
    d.active_collisions = 255;
    let underflow = d.apply_contact(ContactEvent { started: true, involves_detector: true });
    assert!(!underflow);
    assert_eq!(d.active_collisions, 255);
    assert!(d.is_grounded);
}

#[test]
fn grounding_grants_double_jump_and_freezes_coyote() {
    let mut d = GroundDetector::new();
    d.apply_contact(ContactEvent { started: true, involves_detector: true });
    assert!(d.is_grounded);
    assert!(d.has_double_jump);
    assert!(d.coyote_timer.paused);
    assert_eq!(d.coyote_timer.elapsed_ms, 0);
    // leaving the ground resumes the coyote countdown but keeps double jump
    d.apply_contact(ContactEvent { started: false, involves_detector: true });
    assert!(!d.is_grounded);
    assert!(d.has_double_jump);
    assert!(!d.coyote_timer.paused);
}

#[test]
fn uninvolved_events_leave_the_counter_alone() {
    let mut d = GroundDetector::new();
    d.apply_contact(ContactEvent { started: true, involves_detector: true });
    d.apply_contact(ContactEvent { started: true, involves_detector: false });
    assert_eq!(d.active_collisions, 1);
}

#[test]
fn jump_within_coyote_window_uses_full_jump_velocity() {
    // the player leaves the ground, 99 ms pass, then jump is pressed
    let mut d = GroundDetector::new();
    d.apply_contact(ContactEvent { started: true, involves_detector: true });
    d.apply_contact(ContactEvent { started: false, involves_detector: true });
    check_grounded(&mut d, 99, &vec![]);
    assert!(!d.coyote_timer.finished());

    let mut velocity = Velocity { x: 0, y: -5_000 };
    let mut c = Controllable::new();
    c.jumping = true;
    let mut animation = AnimationState::Idle;
    let mut facing_left = false;
    let player = default_player();
    let effect = handle_controllables(
        &mut velocity,
        &c,
        &player,
        &mut animation,
        &mut facing_left,
        &mut d,
        &default_debug(),
        16,
    );
    assert_eq!(velocity.y, 200_000);
    assert_eq!(effect, Some(JumpEffect::Plain));
    // the window is exhausted by the jump
    assert!(d.coyote_timer.finished());
}

#[test]
fn jump_after_coyote_window_closes_is_ignored() {
    // one millisecond past the window's end
    let mut d = GroundDetector::new();
    d.apply_contact(ContactEvent { started: true, involves_detector: true });
    d.apply_contact(ContactEvent { started: false, involves_detector: true });
    d.has_double_jump = false;
    check_grounded(&mut d, COYOTE_MS + 1, &vec![]);
    assert!(d.coyote_timer.finished());

    let mut velocity = Velocity { x: 0, y: -5_000 };
    let mut c = Controllable::new();
    c.jumping = true;
    let mut animation = AnimationState::Idle;
    let mut facing_left = false;
    let player = default_player();
    let effect = handle_controllables(
        &mut velocity,
        &c,
        &player,
        &mut animation,
        &mut facing_left,
        &mut d,
        &default_debug(),
        16,
    );
    assert_eq!(velocity.y, -5_000);
    assert_eq!(effect, None);
}

#[test]
fn boots_and_fire_jump_is_boosted_by_three_tenths() {
    let mut d = GroundDetector::new();
    let mut velocity = Velocity { x: 0, y: 0 };
    let mut c = Controllable::new();
    c.jumping = true;
    let mut player = default_player();
    player.combination = (Some(Equipment::MagicBoots), Some(Element::Fire));
    let mut animation = AnimationState::Idle;
    let mut facing_left = false;
    let effect = handle_controllables(
        &mut velocity,
        &c,
        &player,
        &mut animation,
        &mut facing_left,
        &mut d,
        &default_debug(),
        16,
    );
    // 200_000 * 13 / 10
    assert_eq!(velocity.y, 260_000);
    assert_eq!(effect, Some(JumpEffect::Explosion));
}

#[test]
fn double_jump_consumes_availability_until_grounded_again() {
    let mut d = GroundDetector::new();
    // grounded once, then airborne past the coyote window
    d.apply_contact(ContactEvent { started: true, involves_detector: true });
    d.apply_contact(ContactEvent { started: false, involves_detector: true });
    check_grounded(&mut d, 1_000, &vec![]);
    assert!(d.has_double_jump);

    let mut velocity = Velocity { x: 0, y: 0 };
    let mut c = Controllable::new();
    c.jumping = true;
    let mut player = default_player();
    player.combination = (Some(Equipment::MagicBoots), Some(Element::Air));
    let mut animation = AnimationState::Idle;
    let mut facing_left = false;
    let effect = handle_controllables(
        &mut velocity,
        &c,
        &player,
        &mut animation,
        &mut facing_left,
        &mut d,
        &default_debug(),
        16,
    );
    assert_eq!(velocity.y, 200_000);
    assert_eq!(effect, Some(JumpEffect::Puff));
    assert!(!d.has_double_jump);

    // a second request in the air does nothing
    velocity.y = 0;
    let effect = handle_controllables(
        &mut velocity,
        &c,
        &player,
        &mut animation,
        &mut facing_left,
        &mut d,
        &default_debug(),
        16,
    );
    assert_eq!(velocity.y, 0);
    assert_eq!(effect, None);

    // touching ground restores availability
    d.apply_contact(ContactEvent { started: true, involves_detector: true });
    assert!(d.has_double_jump);
}

#[test]
fn acceleration_moves_velocity_toward_max_speed() {
    let mut d = GroundDetector::new();
    d.apply_contact(ContactEvent { started: true, involves_detector: true });
    let mut velocity = Velocity { x: 0, y: 0 };
    let mut c = Controllable::new();
    c.right = true;
    let mut animation = AnimationState::Idle;
    let mut facing_left = true;
    let player = default_player();
    handle_controllables(
        &mut velocity,
        &c,
        &player,
        &mut animation,
        &mut facing_left,
        &mut d,
        &default_debug(),
        16,
    );
    // grounded: 400_000 * 16 / 1000
    assert_eq!(velocity.x, 6_400);
    assert!(!facing_left);
    assert_eq!(animation, AnimationState::Walking);
}

#[test]
fn airborne_acceleration_is_halved() {
    let mut d = GroundDetector::new();
    let mut velocity = Velocity { x: 0, y: 0 };
    let mut c = Controllable::new();
    c.left = true;
    let mut animation = AnimationState::Idle;
    let mut facing_left = false;
    let player = default_player();
    handle_controllables(
        &mut velocity,
        &c,
        &player,
        &mut animation,
        &mut facing_left,
        &mut d,
        &default_debug(),
        16,
    );
    // airborne: (400_000 / 2) * 16 / 1000, moving left
    assert_eq!(velocity.x, -3_200);
    assert!(facing_left);
}

#[test]
fn deceleration_never_overshoots_past_zero() {
    let mut d = GroundDetector::new();
    d.apply_contact(ContactEvent { started: true, involves_detector: true });
    let mut velocity = Velocity { x: 5_000, y: 0 };
    let c = Controllable::new();
    let mut animation = AnimationState::Idle;
    let mut facing_left = false;
    let player = default_player();
    handle_controllables(
        &mut velocity,
        &c,
        &player,
        &mut animation,
        &mut facing_left,
        &mut d,
        &default_debug(),
        16,
    );
    // a full step would be 6_400; the velocity stops exactly at zero
    assert_eq!(velocity.x, 0);
    assert_eq!(animation, AnimationState::Idle);
}

#[test]
fn boots_and_water_doubles_max_speed() {
    let mut d = GroundDetector::new();
    d.apply_contact(ContactEvent { started: true, involves_detector: true });
    let mut velocity = Velocity { x: 150_000, y: 0 };
    let mut c = Controllable::new();
    c.right = true;
    let mut animation = AnimationState::Idle;
    let mut facing_left = false;
    let mut player = default_player();
    player.combination = (Some(Equipment::MagicBoots), Some(Element::Water));
    handle_controllables(
        &mut velocity,
        &c,
        &player,
        &mut animation,
        &mut facing_left,
        &mut d,
        &default_debug(),
        16,
    );
    // 150_000 is below the doubled cap of 200_000, so acceleration continues
    assert_eq!(velocity.x, 156_400);

    // without the combination the same speed is already past the cap
    let mut velocity = Velocity { x: 150_000, y: 0 };
    let plain = default_player();
    handle_controllables(
        &mut velocity,
        &c,
        &plain,
        &mut animation,
        &mut facing_left,
        &mut d,
        &default_debug(),
        16,
    );
    assert_eq!(velocity.x, 150_000);
}

#[test]
fn animation_follows_vertical_velocity_while_airborne() {
    let mut d = GroundDetector::new();
    let mut velocity = Velocity { x: 0, y: 50_000 };
    let c = Controllable::new();
    let mut animation = AnimationState::Idle;
    let mut facing_left = false;
    let player = default_player();
    handle_controllables(
        &mut velocity,
        &c,
        &player,
        &mut animation,
        &mut facing_left,
        &mut d,
        &default_debug(),
        16,
    );
    assert_eq!(animation, AnimationState::JumpUp);

    let mut velocity = Velocity { x: 0, y: -50_000 };
    handle_controllables(
        &mut velocity,
        &c,
        &player,
        &mut animation,
        &mut facing_left,
        &mut d,
        &default_debug(),
        16,
    );
    assert_eq!(animation, AnimationState::JumpDown);
}

#[test]
fn fly_override_lets_every_jump_through() {
    // long airborne, the coyote window long closed, no double jump
    let mut d = GroundDetector::new();
    d.has_double_jump = false;
    check_grounded(&mut d, 10_000, &vec![]);
    assert!(d.coyote_timer.finished());
    let mut velocity = Velocity { x: 0, y: 0 };
    let mut c = Controllable::new();
    c.jumping = true;
    let mut animation = AnimationState::Idle;
    let mut facing_left = false;
    let player = default_player();
    let mut debug = DebugSettings::default();
    debug.flying = true;
    let effect = handle_controllables(
        &mut velocity,
        &c,
        &player,
        &mut animation,
        &mut facing_left,
        &mut d,
        &debug,
        16,
    );
    assert_eq!(velocity.y, 200_000);
    assert_eq!(effect, Some(JumpEffect::Plain));
}
