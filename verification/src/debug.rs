//! Debug overrides, passed explicitly into the systems that honor them
//! instead of living in ambient global state.

use vstd::prelude::*;

verus! {

/// Global debug switches: `flying` lets every jump request through, and
/// `immortality` disables lethal-contact detection.
#[derive(Clone, Copy, Debug, PartialEq, Eq, Structural)]
pub struct DebugSettings {
    pub flying: bool,
    pub immortality: bool,
    pub unlock_camera: bool,
    pub unlock_all_abilities: bool,
}

impl Default for DebugSettings {
    /// All overrides start switched off.
    fn default() -> (d: DebugSettings)
        ensures
            d == (DebugSettings {
                flying: false,
                immortality: false,
                unlock_camera: false,
                unlock_all_abilities: false,
            }),
    {
        DebugSettings { flying: false, immortality: false, unlock_camera: false, unlock_all_abilities: false }
    }
}

} // verus!
