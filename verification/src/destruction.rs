//! Delayed despawning: entities carrying a destruction timer are removed from
//! the world once it runs out (projectile lifetimes, corpses after a death
//! animation, short-lived cosmetic effects).

use vstd::prelude::*;
use crate::timer::Timer;
use crate::timer::MAX_DELTA_MS;

verus! {

/// Counts down to the entity's removal.
#[derive(Clone, Copy, Debug, PartialEq, Eq, Structural)]
pub struct DestructionTimer(pub Timer);

/// Advance one entity's destruction timer; returns whether the entity should
/// be despawned this tick.
pub fn destroy(timer: &mut DestructionTimer, delta_ms: u64) -> (despawn: bool)
    requires
        old(timer).0.wf(),
        delta_ms <= MAX_DELTA_MS,
    ensures
        final(timer).0 == old(timer).0.spec_tick(delta_ms),
        despawn == old(timer).0.spec_tick(delta_ms).spec_finished(),
        final(timer).0.wf(),
{
    timer.0.tick(delta_ms);
    timer.0.finished()
}

} // verus!
