//! Lava: a lethal hazard until a water projectile petrifies it into walkable
//! terrain.

use vstd::prelude::*;

verus! {

/// Marker for a still-molten lava entity.
#[derive(Clone, Copy, Debug, PartialEq, Eq, Structural)]
pub struct Lava;

} // verus!
