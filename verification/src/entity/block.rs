//! Pushable and flammable block markers.

use vstd::prelude::*;

verus! {

/// Marker for a block; a plain block is pushable by wind, a wooden one burns.
#[derive(Clone, Copy, Debug, PartialEq, Eq, Structural)]
pub struct Block;

} // verus!
