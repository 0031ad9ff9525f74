//! The game's top-level states and the in-game menus' logic.

use vstd::prelude::*;

pub mod ability_menu;
pub mod game;

verus! {

/// The top-level application state.
#[derive(Clone, Copy, Debug, PartialEq, Eq, Structural, Hash)]
pub enum State {
    LoadMenu,
    MainMenu,
    LoadGame,
    InGame,
    AbilityMenu,
}

impl Default for State {
    /// The game starts by loading the menu assets.
    fn default() -> (s: State)
        ensures
            s == State::LoadMenu,
    {
        State::LoadMenu
    }
}

} // verus!
