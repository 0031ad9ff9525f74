//! The ability menu's selection logic: a two-column grid (equipment on the
//! left, elements on the right) navigated with wrap-around, where confirming
//! a selection writes it into the player's active combination.
//!
//! Buttons sit at fixed grid rows — the staff at row 0, boots at row 1 and
//! cloak at row 2; fire, air and water at rows 0, 1 and 2 of the right
//! column — and each appears only once unlocked (or when the unlock-all debug
//! override is set).  Keyboard wrap-around goes by the number of unlocked
//! entries in the active column.

use vstd::prelude::*;
use crate::abilities::Element;
use crate::abilities::Equipment;
use crate::entity::player::Player;
use crate::input::Controllable;

verus! {

/// A position in the menu's button grid.
#[derive(Clone, Copy, Debug, Default, PartialEq, Eq, Structural)]
pub struct BtnGridPos {
    pub row: u8,
    pub col: u8,
}

impl BtnGridPos {
    pub fn new(row: u8, col: u8) -> (r: BtnGridPos)
        ensures
            r == (BtnGridPos { row, col }),
    {
        BtnGridPos { row, col }
    }
}

/// The menu's transient state: which grid position is selected.
#[derive(Clone, Copy, Debug, Default, PartialEq, Eq, Structural)]
pub struct AbilityMenuState {
    pub selected_pos: BtnGridPos,
}

impl AbilityMenuState {
    /// The selection stays inside the three-row, two-column grid.
    pub open spec fn wf(self) -> bool {
        self.selected_pos.row <= 2 && self.selected_pos.col <= 1
    }
}

/// Whether the pause-menu trigger fires: the player holds the interact intent
/// while standing at a checkpoint.
pub fn should_open(controllable: &Controllable, player: &Player) -> (open: bool)
    ensures
        open == (controllable.interacting && player.near_checkpoint),
{
    controllable.interacting && player.near_checkpoint
}

/// The equipment button at a row of the left column, if unlocked: the staff
/// at row 0, the boots at row 1, the cloak at row 2.
pub open spec fn spec_equipment_at(player: Player, unlock_all: bool, row: u8) -> Option<Equipment> {
    if row == 0 {
        Some(Equipment::Staff)
    } else if row == 1 && (player.unlocked_boots || unlock_all) {
        Some(Equipment::MagicBoots)
    } else if row == 2 && (player.unlocked_cloak || unlock_all) {
        Some(Equipment::Cloak)
    } else {
        None
    }
}

/// The equipment button at a row (see `spec_equipment_at`).
pub fn equipment_at(player: &Player, unlock_all: bool, row: u8) -> (r: Option<Equipment>)
    ensures
        r == spec_equipment_at(*player, unlock_all, row),
{
    if row == 0 {
        Some(Equipment::Staff)
    } else if row == 1 && (player.unlocked_boots || unlock_all) {
        Some(Equipment::MagicBoots)
    } else if row == 2 && (player.unlocked_cloak || unlock_all) {
        Some(Equipment::Cloak)
    } else {
        None
    }
}

/// The element button at a row of the right column, if unlocked: fire at row
/// 0, air at row 1, water at row 2.
pub open spec fn spec_element_at(player: Player, unlock_all: bool, row: u8) -> Option<Element> {
    if row == 0 && (player.unlocked_fire || unlock_all) {
        Some(Element::Fire)
    } else if row == 1 && (player.unlocked_air || unlock_all) {
        Some(Element::Air)
    } else if row == 2 && (player.unlocked_water || unlock_all) {
        Some(Element::Water)
    } else {
        None
    }
}

/// The element button at a row (see `spec_element_at`).
pub fn element_at(player: &Player, unlock_all: bool, row: u8) -> (r: Option<Element>)
    ensures
        r == spec_element_at(*player, unlock_all, row),
{
    if row == 0 && (player.unlocked_fire || unlock_all) {
        Some(Element::Fire)
    } else if row == 1 && (player.unlocked_air || unlock_all) {
        Some(Element::Air)
    } else if row == 2 && (player.unlocked_water || unlock_all) {
        Some(Element::Water)
    } else {
        None
    }
}

/// The selection one row down, wrapping to the top once past the number of
/// unlocked entries in the active column.
pub open spec fn spec_move_down(state: AbilityMenuState, player: Player) -> AbilityMenuState {
    let row = state.selected_pos.row + 1;
    let wrapped: u8 = if state.selected_pos.col == 0 && row >= player.spec_num_equipment() {
        0u8
    } else if state.selected_pos.col == 1 && row >= player.spec_num_elements() {
        0u8
    } else {
        row as u8
    };
    AbilityMenuState { selected_pos: BtnGridPos { row: wrapped, col: state.selected_pos.col } }
}

/// Move the selection one row down (see `spec_move_down`).
pub fn menu_move_down(state: &mut AbilityMenuState, player: &Player)
    requires
        old(state).wf(),
    ensures
        *final(state) == spec_move_down(*old(state), *player),
        final(state).wf(),
{
    state.selected_pos.row += 1;
    if state.selected_pos.col == 0 {
        if state.selected_pos.row >= player.num_equipment() {
            state.selected_pos.row = 0;
        }
    } else if state.selected_pos.col == 1 && state.selected_pos.row >= player.num_elements() {
        state.selected_pos.row = 0;
    }
}

/// The selection one row up, wrapping from the top to the last unlocked entry
/// of the active column.
pub open spec fn spec_move_up(state: AbilityMenuState, player: Player) -> AbilityMenuState {
    let row: int = if state.selected_pos.col == 0 {
        if state.selected_pos.row == 0 {
            player.spec_num_equipment() - 1
        } else {
            state.selected_pos.row - 1
        }
    } else if state.selected_pos.col == 1 && state.selected_pos.row == 0 {
        player.spec_num_elements() - 1
    } else {
        state.selected_pos.row - 1
    };
    AbilityMenuState { selected_pos: BtnGridPos { row: row as u8, col: state.selected_pos.col } }
}

/// Move the selection one row up (see `spec_move_up`).  Wrapping upward in
/// the element column asks for at least one unlocked element, which holds
/// whenever the selection could reach that column at all.
pub fn menu_move_up(state: &mut AbilityMenuState, player: &Player)
    requires
        old(state).wf(),
        old(state).selected_pos.col == 1 && old(state).selected_pos.row == 0
            ==> player.spec_num_elements() > 0,
    ensures
        *final(state) == spec_move_up(*old(state), *player),
        final(state).wf(),
{
    if state.selected_pos.col == 0 {
        if state.selected_pos.row == 0 {
            state.selected_pos.row = player.num_equipment() - 1;
        } else {
            state.selected_pos.row -= 1;
        }
    } else if state.selected_pos.col == 1 && state.selected_pos.row == 0 {
        state.selected_pos.row = player.num_elements() - 1;
    } else {
        state.selected_pos.row -= 1;
    }
}

/// The selection in the other column; with no element unlocked the element
/// column is unreachable and the selection stays put.
pub open spec fn spec_toggle_column(state: AbilityMenuState, player: Player) -> AbilityMenuState {
    if player.spec_num_elements() != 0 {
        AbilityMenuState {
            selected_pos: BtnGridPos {
                row: state.selected_pos.row,
                col: if state.selected_pos.col == 0 {
                    1u8
                } else {
                    0u8
                },
            },
        }
    } else {
        state
    }
}

/// Move the selection into the other column (see `spec_toggle_column`).
pub fn menu_toggle_column(state: &mut AbilityMenuState, player: &Player)
    requires
        old(state).wf(),
    ensures
        *final(state) == spec_toggle_column(*old(state), *player),
        final(state).wf(),
{
    if player.num_elements() != 0 {
        state.selected_pos.col = if state.selected_pos.col == 0 {
            1
        } else {
            0
        };
    }
}

/// The player after confirming the selection: the button at the selected
/// grid position, if one is there, is written into the matching slot of the
/// active combination.
pub open spec fn spec_confirm(state: AbilityMenuState, player: Player, unlock_all: bool) -> Player {
    if state.selected_pos.col == 1 {
        match spec_element_at(player, unlock_all, state.selected_pos.row) {
            Some(element) => Player { combination: (player.combination.0, Some(element)), ..player },
            None => player,
        }
    } else {
        match spec_equipment_at(player, unlock_all, state.selected_pos.row) {
            Some(equipment) => Player {
                combination: (Some(equipment), player.combination.1),
                ..player
            },
            None => player,
        }
    }
}

/// Confirm the selection (see `spec_confirm`).
pub fn menu_confirm(state: &AbilityMenuState, player: &mut Player, unlock_all: bool)
    ensures
        *final(player) == spec_confirm(*state, *old(player), unlock_all),
{
    if state.selected_pos.col == 1 {
        if let Some(element) = element_at(player, unlock_all, state.selected_pos.row) {
            player.combination.1 = Some(element);
        }
    } else {
        if let Some(equipment) = equipment_at(player, unlock_all, state.selected_pos.row) {
            player.combination.0 = Some(equipment);
        }
    }
}

} // verus!
