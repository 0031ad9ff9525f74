use elemental_core::animation::{system, Animated};
use elemental_core::destruction::{destroy, DestructionTimer};
use elemental_core::entity::fan::{apply_force, check_collision, Direction, Dynamic, FAN_FORCE};
use elemental_core::entity::goblin;
use elemental_core::entity::goblin::Patrol;
use elemental_core::entity::player;
use elemental_core::physics::{Pos, Velocity};
use elemental_core::timer::Timer;

#[test]
fn frame_advances_once_per_elapsed_period() {
    let mut animation = Animated::new(100, 4, 8, false);
    let mut index: usize = 4;
    system(&mut index, &mut animation, 99);
    assert_eq!(index, 4);
    system(&mut index, &mut animation, 1);
    assert_eq!(index, 5);
    system(&mut index, &mut animation, 100);
    assert_eq!(index, 6);
}

#[test]
fn frame_wraps_inside_the_window() {
    let mut animation = Animated::new(100, 4, 8, false);
    let mut index: usize = 7;
    system(&mut index, &mut animation, 100);
    assert_eq!(index, 4);
    assert_eq!(animation.start, 4);
}

#[test]
fn index_below_the_window_snaps_to_its_start() {
    let mut animation = Animated::new(100, 4, 8, false);
    let mut index: usize = 0;
    system(&mut index, &mut animation, 100);
    assert_eq!(index, 5);
}

#[test]
fn play_once_holds_on_the_terminal_frame() {
    let mut animation = Animated::new(100, 6, 12, true);
    let mut index: usize = 6;
    for _ in 0..5 {
        system(&mut index, &mut animation, 100);
    }
    assert_eq!(index, 11);
    assert_eq!(animation.start, 11);
    // further ticks hold on the last frame
    system(&mut index, &mut animation, 100);
    assert_eq!(index, 11);
    system(&mut index, &mut animation, 100);
    assert_eq!(index, 11);
}

#[test]
fn player_frame_windows() {
    let mut animation = Animated::new(100, 0, 1, false);
    let index = player::animation_state_update(&mut animation, &player::AnimationState::Idle);
    assert_eq!((animation.start, animation.end, index), (40, 44, 40));
    player::animation_state_update(&mut animation, &player::AnimationState::Walking);
    assert_eq!((animation.start, animation.end), (8, 14));
    player::animation_state_update(&mut animation, &player::AnimationState::JumpUp);
    assert_eq!((animation.start, animation.end), (56, 59));
    player::animation_state_update(&mut animation, &player::AnimationState::JumpDown);
    assert_eq!((animation.start, animation.end), (48, 51));
    player::animation_state_update(&mut animation, &player::AnimationState::Death);
    assert_eq!((animation.start, animation.end), (0, 8));
    assert!(!animation.play_once);
}

#[test]
fn goblin_frame_windows_and_play_once_death() {
    let mut animation = Animated::new(100, 18, 22, false);
    goblin::animation_state_update(&mut animation, &goblin::AnimationState::Walking);
    assert_eq!((animation.start, animation.end), (0, 6));
    assert!(!animation.play_once);
    goblin::animation_state_update(&mut animation, &goblin::AnimationState::Death);
    assert_eq!((animation.start, animation.end), (6, 12));
    assert!(animation.play_once);
    let index = goblin::animation_state_update(&mut animation, &goblin::AnimationState::Idle);
    assert_eq!((animation.start, animation.end, index), (18, 22, 18));
}

#[test]
fn goblin_starts_walking_only_with_a_route() {
    let still = Patrol { points: None, movement_speed: 20_000, face_left: false };
    assert_eq!(goblin::init_animation_state(&still), goblin::AnimationState::Idle);
    let route = Patrol {
        points: Some((Pos { x: 0, y: 0 }, Pos { x: 100, y: 0 })),
        movement_speed: 20_000,
        face_left: false,
    };
    assert_eq!(goblin::init_animation_state(&route), goblin::AnimationState::Walking);
}

#[test]
fn patrol_turns_around_at_the_route_ends() {
    let route = Patrol {
        points: Some((Pos { x: 10, y: 0 }, Pos { x: 50, y: 0 })),
        movement_speed: 20_000,
        face_left: false,
    };
    // standing still inside the route: start walking right
    let mut velocity = Velocity { x: 0, y: 0 };
    let mut facing_left = true;
    goblin::patrol(&route, &mut velocity, 30, &mut facing_left);
    assert_eq!(velocity.x, 20_000);
    assert!(!facing_left);

    // past the right end: turn left
    goblin::patrol(&route, &mut velocity, 51, &mut facing_left);
    assert_eq!(velocity.x, -20_000);
    assert!(facing_left);

    // between the ends while moving: keep going
    goblin::patrol(&route, &mut velocity, 30, &mut facing_left);
    assert_eq!(velocity.x, -20_000);

    // past the left end: turn right
    goblin::patrol(&route, &mut velocity, 9, &mut facing_left);
    assert_eq!(velocity.x, 20_000);
    assert!(!facing_left);
}

#[test]
fn destruction_timer_fires_exactly_once_elapsed() {
    let mut timer = DestructionTimer(Timer::from_millis(600, false));
    assert!(!destroy(&mut timer, 599));
    assert!(destroy(&mut timer, 1));
}

#[test]
fn fan_force_applies_only_while_overlapping() {
    let mut movable = Dynamic { counter: 0, direction: Direction::East };
    assert_eq!(apply_force(&movable), Velocity { x: 0, y: 0 });

    let underflow = check_collision(&mut movable, true, Direction::North);
    assert!(!underflow);
    assert_eq!(movable.counter, 1);
    assert_eq!(apply_force(&movable), Velocity { x: 0, y: FAN_FORCE });

    // leaving the area stops the push
    let underflow = check_collision(&mut movable, false, Direction::North);
    assert!(!underflow);
    assert_eq!(apply_force(&movable), Velocity { x: 0, y: 0 });

    // a stop with no matching start clamps at zero and reports it
    let underflow = check_collision(&mut movable, false, Direction::North);
    assert!(underflow);
    assert_eq!(movable.counter, 0);
}

#[test]
fn fan_directions_map_to_axis_accelerations() {
    for (direction, expected) in [
        (Direction::North, Velocity { x: 0, y: FAN_FORCE }),
        (Direction::South, Velocity { x: 0, y: -FAN_FORCE }),
        (Direction::East, Velocity { x: FAN_FORCE, y: 0 }),
        (Direction::West, Velocity { x: -FAN_FORCE, y: 0 }),
    ] {
        let movable = Dynamic { counter: 2, direction };
        assert_eq!(apply_force(&movable), expected);
    }
}
