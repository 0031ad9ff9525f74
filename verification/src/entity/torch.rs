//! Decorative torches.

use vstd::prelude::*;

verus! {

/// Marker for a torch entity.
#[derive(Clone, Copy, Debug, PartialEq, Eq, Structural)]
pub struct Torch;

} // verus!
