//! Level-facing pieces of the core: the wall and spike tile markers the
//! terrain builder consumes, and the manual level restart.  Merging tiles
//! into colliders is the terrain builder collaborator's work; the core only
//! consumes the bodies it emits.

use vstd::prelude::*;
use crate::damage::Hurtbox;
use crate::entity::player::Player;
use crate::physics::GroundDetector;
use crate::physics::Pos;

verus! {

/// Marker for a solid wall tile.
#[derive(Clone, Copy, Debug, Default, PartialEq, Eq, Structural)]
pub struct Wall;

/// What a wall tile carries.
#[derive(Clone, Copy, Debug, Default, PartialEq, Eq, Structural)]
pub struct WallBundle {
    pub wall: Wall,
}

/// Marker for a spike tile.
#[derive(Clone, Copy, Debug, PartialEq, Eq, Structural)]
pub struct Spike;

/// What a spike tile carries: the spike marker and a lethal hurtbox.
#[derive(Clone, Copy, Debug, PartialEq, Eq, Structural)]
pub struct SpikeBundle {
    pub hurtbox: Hurtbox,
    pub spike: Spike,
}

/// A manual restart request: teleport the player back to the stored
/// checkpoint and its level without requiring a kill first, and force-reset
/// the ground detector's contact counter (teleporting can leave stale
/// contacts behind).
pub fn restart_level(
    position: &mut Pos,
    level_selection: &mut u32,
    detector: &mut GroundDetector,
    player: &Player,
)
    ensures
        *final(position) == player.checkpoint,
        *final(level_selection) == player.checkpoint_level,
        *final(detector) == (GroundDetector { active_collisions: 0, ..*old(detector) }),
{
    *position = player.checkpoint;
    *level_selection = player.checkpoint_level;
    detector.active_collisions = 0;
}

} // verus!
