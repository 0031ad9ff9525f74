//! Collectable ability orbs: touching one permanently unlocks the element or
//! equipment it carries.

use vstd::prelude::*;
use crate::entity::player::Player;

verus! {

/// The unlockable abilities an orb can carry.
#[derive(Clone, Copy, Debug, PartialEq, Eq, Structural)]
pub enum Ability {
    Fire,
    Air,
    Water,
    MagicBoots,
    Cloak,
}

impl Ability {
    pub open spec fn spec_label(self) -> Seq<char> {
        match self {
            Ability::Fire => "Fire"@,
            Ability::Air => "Air"@,
            Ability::Water => "Water"@,
            Ability::MagicBoots => "Magic Boots"@,
            Ability::Cloak => "Cloak of Resistance"@,
        }
    }

    /// Human-readable name shown by the menus.
    pub fn label(&self) -> (r: &'static str)
        ensures
            r@ == self.spec_label(),
    {
        match self {
            Ability::Fire => "Fire",
            Ability::Air => "Air",
            Ability::Water => "Water",
            Ability::MagicBoots => "Magic Boots",
            Ability::Cloak => "Cloak of Resistance",
        }
    }
}

/// Whether the player has already collected this ability.
pub open spec fn spec_is_unlocked(player: Player, ability: Ability) -> bool {
    match ability {
        Ability::Fire => player.unlocked_fire,
        Ability::Air => player.unlocked_air,
        Ability::Water => player.unlocked_water,
        Ability::MagicBoots => player.unlocked_boots,
        Ability::Cloak => player.unlocked_cloak,
    }
}

/// The player after collecting an orb: exactly that ability's unlock flag is
/// raised.
pub open spec fn spec_unlock(player: Player, ability: Ability) -> Player {
    match ability {
        Ability::Fire => Player { unlocked_fire: true, ..player },
        Ability::Air => Player { unlocked_air: true, ..player },
        Ability::Water => Player { unlocked_water: true, ..player },
        Ability::MagicBoots => Player { unlocked_boots: true, ..player },
        Ability::Cloak => Player { unlocked_cloak: true, ..player },
    }
}

/// React to the player touching an ability orb: unlock what it carries.  The
/// caller despawns the orb afterward.
pub fn check_near(player: &mut Player, ability: Ability)
    ensures
        *final(player) == spec_unlock(*old(player), ability),
{
    match ability {
        Ability::Fire => player.unlocked_fire = true,
        Ability::Air => player.unlocked_air = true,
        Ability::Water => player.unlocked_water = true,
        Ability::MagicBoots => player.unlocked_boots = true,
        Ability::Cloak => player.unlocked_cloak = true,
    }
}

/// Whether a freshly loaded orb should be despawned immediately because the
/// player already collected its ability.
pub fn dont_spawn_if_collected(player: &Player, ability: Ability) -> (despawn: bool)
    ensures
        despawn == spec_is_unlocked(*player, ability),
{
    match ability {
        Ability::Fire => player.unlocked_fire,
        Ability::Air => player.unlocked_air,
        Ability::Water => player.unlocked_water,
        Ability::MagicBoots => player.unlocked_boots,
        Ability::Cloak => player.unlocked_cloak,
    }
}

} // verus!
