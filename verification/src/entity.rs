//! The world's entity kinds: the player, enemies, blocks, hazards and the
//! interactable props of a level.

use vstd::prelude::*;

pub mod ability;
pub mod block;
pub mod checkpoint;
pub mod fan;
pub mod goblin;
pub mod lava;
pub mod player;
pub mod signpost;
pub mod torch;
pub mod trophy;
pub mod water;

verus! {

/// Marker for a world object destructible by fire projectiles.
#[derive(Clone, Copy, Debug, PartialEq, Eq, Structural)]
pub struct Flamable;

} // verus!
