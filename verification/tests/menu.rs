use elemental_core::abilities::{Element, Equipment};
use elemental_core::entity::ability::{check_near, dont_spawn_if_collected, Ability};
use elemental_core::entity::player::Player;
use elemental_core::input::Controllable;
use elemental_core::state::ability_menu::{
    menu_confirm, menu_move_down, menu_move_up, menu_toggle_column, should_open, AbilityMenuState,
    BtnGridPos,
};
use elemental_core::state::State;

#[test]
fn grid_pos_new_builds_the_position() {
    let pos = BtnGridPos::new(2, 1);
    assert_eq!(pos.row, 2);
    assert_eq!(pos.col, 1);
}

#[test]
fn menu_opens_at_a_checkpoint_on_interact() {
    let mut c = Controllable::new();
    let mut player = Player::default();
    assert!(!should_open(&c, &player));
    c.interacting = true;
    assert!(!should_open(&c, &player));
    player.near_checkpoint = true;
    assert!(should_open(&c, &player));
}

#[test]
fn moving_down_wraps_by_unlocked_count() {
    // only the staff: the single row wraps onto itself
    let mut state = AbilityMenuState::default();
    let player = Player::default();
    menu_move_down(&mut state, &player);
    assert_eq!(state.selected_pos, BtnGridPos::new(0, 0));

    // boots unlocked: two rows
    let mut player = Player::default();
    player.unlocked_boots = true;
    menu_move_down(&mut state, &player);
    assert_eq!(state.selected_pos, BtnGridPos::new(1, 0));
    menu_move_down(&mut state, &player);
    assert_eq!(state.selected_pos, BtnGridPos::new(0, 0));
}

#[test]
fn moving_up_wraps_to_the_last_unlocked_row() {
    let mut state = AbilityMenuState::default();
    let mut player = Player::default();
    player.unlocked_boots = true;
    player.unlocked_cloak = true;
    menu_move_up(&mut state, &player);
    assert_eq!(state.selected_pos, BtnGridPos::new(2, 0));
    menu_move_up(&mut state, &player);
    assert_eq!(state.selected_pos, BtnGridPos::new(1, 0));
}

#[test]
fn element_column_is_reachable_only_with_an_element_unlocked() {
    let mut state = AbilityMenuState::default();
    let player = Player::default();
    menu_toggle_column(&mut state, &player);
    assert_eq!(state.selected_pos.col, 0);

    let mut player = Player::default();
    player.unlocked_air = true;
    menu_toggle_column(&mut state, &player);
    assert_eq!(state.selected_pos.col, 1);
    menu_toggle_column(&mut state, &player);
    assert_eq!(state.selected_pos.col, 0);
}

#[test]
fn confirming_writes_the_selection_into_the_combination() {
    let mut player = Player::default();
    player.unlocked_air = true;
    let mut state = AbilityMenuState::default();

    // staff at (0, 0)
    menu_confirm(&state, &mut player, false);
    assert_eq!(player.combination.0, Some(Equipment::Staff));

    // air at (1, 1)
    menu_toggle_column(&mut state, &player);
    state.selected_pos.row = 1;
    menu_confirm(&state, &mut player, false);
    assert_eq!(player.combination.1, Some(Element::Air));

    // a locked button does nothing: fire at (0, 1) is not unlocked
    state.selected_pos.row = 0;
    menu_confirm(&state, &mut player, false);
    assert_eq!(player.combination.1, Some(Element::Air));

    // with the unlock-all override it is there
    menu_confirm(&state, &mut player, true);
    assert_eq!(player.combination.1, Some(Element::Fire));
}

#[test]
fn orb_pickup_unlocks_exactly_its_ability() {
    let mut player = Player::default();
    check_near(&mut player, Ability::MagicBoots);
    assert!(player.unlocked_boots);
    assert!(!player.unlocked_fire);
    assert!(!player.unlocked_cloak);
    check_near(&mut player, Ability::Fire);
    assert!(player.unlocked_fire);
    assert_eq!(player.num_equipment(), 2);
    assert_eq!(player.num_elements(), 1);
}

#[test]
fn collected_orbs_do_not_respawn() {
    let mut player = Player::default();
    assert!(!dont_spawn_if_collected(&player, Ability::Water));
    check_near(&mut player, Ability::Water);
    assert!(dont_spawn_if_collected(&player, Ability::Water));
    assert!(!dont_spawn_if_collected(&player, Ability::Cloak));
}

#[test]
fn combination_descriptions_cover_the_table() {
    let mut player = Player::default();
    assert_eq!(player.get_combination_description(), "No effect");
    player.combination = (Some(Equipment::Staff), Some(Element::Fire));
    assert_eq!(player.get_combination_description(), "<x> to cast Fireball");
    player.combination = (Some(Equipment::MagicBoots), Some(Element::Air));
    assert_eq!(player.get_combination_description(), "Double jump");
    player.combination = (Some(Equipment::MagicBoots), Some(Element::Water));
    assert_eq!(player.get_combination_description(), "Flow like water (movement speed up)");
    player.combination = (Some(Equipment::Cloak), Some(Element::Fire));
    assert_eq!(player.get_combination_description(), "Lava resistance");
    player.combination = (Some(Equipment::Cloak), Some(Element::Air));
    assert_eq!(player.get_combination_description(), "No effect");
}

#[test]
fn unlock_counts_include_the_staff() {
    let mut player = Player::default();
    assert_eq!(player.num_equipment(), 1);
    assert_eq!(player.num_elements(), 0);
    player.unlocked_boots = true;
    player.unlocked_cloak = true;
    player.unlocked_fire = true;
    player.unlocked_air = true;
    player.unlocked_water = true;
    assert_eq!(player.num_equipment(), 3);
    assert_eq!(player.num_elements(), 3);
}

#[test]
fn the_game_starts_loading_the_menu() {
    assert_eq!(State::default(), State::LoadMenu);
}
