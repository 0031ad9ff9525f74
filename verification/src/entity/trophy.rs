//! The trophy that ends the game; its congratulation text shows while the
//! player stands nearby.

use vstd::prelude::*;

verus! {

/// Marker for the trophy entity.
#[derive(Clone, Copy, Debug, PartialEq, Eq, Structural)]
pub struct Trophy;

} // verus!
