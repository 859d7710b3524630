//! The wave spawner: a repeating interval timer and the remaining quota of
//! the active wave. Each time the interval elapses while quota remains, one
//! fresh enemy is created and the quota drops by one.

use vstd::prelude::*;
use crate::axol::{Axol, setup_axol, spec_new_axol};
use crate::timer::Timer;

verus! {

/// The spawn-interval timer of the active wave.
#[derive(Clone, Copy, Debug)]
pub struct SpawnTimer(pub Timer);

/// How many enemies the active wave has yet to spawn.
#[derive(Clone, Copy, Debug, PartialEq, Eq, Structural)]
pub struct WaveCount(pub u8);

/// The spawner of the active wave.
#[derive(Clone, Copy, Debug)]
pub struct SpawnerBundle {
    pub rate: SpawnTimer,
    pub remaining: WaveCount,
}

impl SpawnerBundle {
    pub open spec fn wf(self) -> bool {
        &&& self.rate.0.wf()
        &&& self.rate.0.repeating
    }
}

/// Advance the spawn-interval timer by this tick's elapsed time; when it
/// completes and quota remains, spawn one fresh enemy and decrement the
/// quota. A spawn request with the quota exhausted is silently ignored.
pub fn process_wait_to_spawn(sp: &mut SpawnerBundle, delta_ms: u32) -> (spawned: Option<Axol>)
    requires
        old(sp).wf(),
    ensures
        final(sp).wf(),
        final(sp).rate.0 == old(sp).rate.0.spec_tick(delta_ms),
        ({
            let fired = old(sp).rate.0.spec_tick(delta_ms).spec_finished();
            if fired && old(sp).remaining.0 > 0 {
                &&& spawned == Some(spec_new_axol())
                &&& final(sp).remaining.0 == old(sp).remaining.0 - 1
            } else {
                &&& spawned is None
                &&& final(sp).remaining == old(sp).remaining
            }
        }),
{
    sp.rate.0.tick(delta_ms);
    if sp.rate.0.finished() && sp.remaining.0 > 0 {
        sp.remaining.0 = sp.remaining.0 - 1;
        Some(setup_axol())
    } else {
        None
    }
}

} // verus!
