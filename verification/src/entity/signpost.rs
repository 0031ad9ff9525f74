//! Signposts and the text boxes their prompt text lives in; showing and
//! hiding the text is the presentation layer's work.

use vstd::prelude::*;

verus! {

/// Marker for a prompt text box shown while the player stands nearby.
#[derive(Clone, Copy, Debug, PartialEq, Eq, Structural)]
pub struct TextBox;

/// Marker for a signpost entity.
#[derive(Clone, Copy, Debug, PartialEq, Eq, Structural)]
pub struct Signpost;

} // verus!
