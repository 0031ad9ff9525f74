//! Deep water: lethal to the player unless the cloak-and-water combination
//! grants resistance to drowning.

use vstd::prelude::*;
use crate::damage;
use crate::damage::HazardKind;
use crate::debug::DebugSettings;
use crate::entity::player::Player;

verus! {

/// Marker for a deep-water volume.
#[derive(Clone, Copy, Debug, PartialEq, Eq, Structural)]
pub struct Water;

/// Lethal-contact check for one started collision between the player and a
/// water volume: the player drowns unless the immortality override is set or
/// the cloak-and-water combination is equipped.
pub fn check_collision(player: &Player, debug_settings: &DebugSettings) -> (kill: bool)
    ensures
        kill == (!debug_settings.immortality && !damage::spec_resists(*player, HazardKind::Water)),
{
    damage::detect(player, HazardKind::Water, debug_settings)
}

} // verus!
