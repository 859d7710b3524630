//! Tick-based timers. All gameplay timing (attack cooldowns, animation
//! frame pacing, spawn intervals, the respawn wait, the despawn grace
//! period) is driven by these, advanced by elapsed milliseconds each tick.

use vstd::prelude::*;

verus! {

/// A countdown timer advanced by elapsed milliseconds each tick.
///
/// A repeating timer rearms by resetting its elapsed time to zero whenever it
/// completes, so two completions are always at least one full duration of
/// elapsed time apart (see [`lemma_repeating_completions_spaced`]). A one-shot
/// timer latches: once complete it stays finished and never fires again.
#[derive(Clone, Copy, Debug, PartialEq, Eq, Structural)]
pub struct Timer {
    pub duration_ms: u32,
    pub elapsed_ms: u32,
    pub repeating: bool,
    /// Completed on the most recent tick ("just finished").
    pub fired_now: bool,
    /// Has completed at least once since construction.
    pub fired_ever: bool,
}

impl Timer {
    pub open spec fn wf(self) -> bool {
        &&& self.duration_ms >= 1
        &&& self.elapsed_ms <= self.duration_ms
        &&& (self.repeating ==> self.elapsed_ms < self.duration_ms)
        &&& (!self.repeating ==> (self.fired_ever <==> self.elapsed_ms == self.duration_ms))
    }

    /// The timer as it stands after one tick of `delta_ms` elapsed time.
    pub open spec fn spec_tick(self, delta_ms: u32) -> Timer {
        if !self.repeating && self.fired_ever {
            Timer { fired_now: false, ..self }
        } else if delta_ms >= self.duration_ms - self.elapsed_ms {
            Timer {
                elapsed_ms: if self.repeating { 0u32 } else { self.duration_ms },
                fired_now: true,
                fired_ever: true,
                ..self
            }
        } else {
            Timer { elapsed_ms: (self.elapsed_ms + delta_ms) as u32, fired_now: false, ..self }
        }
    }

    pub open spec fn spec_just_finished(self) -> bool {
        self.fired_now
    }

    /// Whether the timer counts as finished: a one-shot timer stays finished
    /// once it has completed, a repeating one only on the tick it completes.
    pub open spec fn spec_finished(self) -> bool {
        if self.repeating {
            self.fired_now
        } else {
            self.fired_ever
        }
    }

    pub fn from_millis(duration_ms: u32, repeating: bool) -> (t: Timer)
        requires
            duration_ms >= 1,
        ensures
            t == (Timer {
                duration_ms,
                elapsed_ms: 0u32,
                repeating,
                fired_now: false,
                fired_ever: false,
            }),
            t.wf(),
    {
        Timer { duration_ms, elapsed_ms: 0, repeating, fired_now: false, fired_ever: false }
    }

    pub fn tick(&mut self, delta_ms: u32)
        requires
            old(self).wf(),
        ensures
            *final(self) == old(self).spec_tick(delta_ms),
            final(self).wf(),
    {
        if !self.repeating && self.fired_ever {
            self.fired_now = false;
        } else {
            let remaining: u32 = self.duration_ms - self.elapsed_ms;
            if delta_ms >= remaining {
                self.elapsed_ms = if self.repeating { 0 } else { self.duration_ms };
                self.fired_now = true;
                self.fired_ever = true;
            } else {
                self.elapsed_ms = self.elapsed_ms + delta_ms;
                self.fired_now = false;
            }
        }
    }

    pub fn just_finished(&self) -> (b: bool)
        ensures
            b == self.spec_just_finished(),
    {
        self.fired_now
    }

    pub fn finished(&self) -> (b: bool)
        ensures
            b == self.spec_finished(),
    {
        if self.repeating {
            self.fired_now
        } else {
            self.fired_ever
        }
    }
}

/// The timer after a whole sequence of ticks, applied front to back.
pub open spec fn spec_run(t: Timer, deltas: Seq<u32>) -> Timer
    decreases deltas.len(),
{
    if deltas.len() == 0 {
        t
    } else {
        spec_run(t.spec_tick(deltas[0]), deltas.drop_first())
    }
}

/// Total elapsed time of a sequence of ticks.
pub open spec fn sum_of(deltas: Seq<u32>) -> int
    decreases deltas.len(),
{
    if deltas.len() == 0 {
        0
    } else {
        deltas[0] + sum_of(deltas.drop_first())
    }
}

proof fn lemma_sum_of_push(deltas: Seq<u32>, x: u32)
    ensures
        sum_of(deltas.push(x)) == sum_of(deltas) + x,
    decreases deltas.len(),
{
    let p = deltas.push(x);
    assert(p.len() == deltas.len() + 1);
    assert(sum_of(p) == p[0] + sum_of(p.drop_first()));
    if deltas.len() == 0 {
        assert(p[0] == x);
        assert(p.drop_first() =~= Seq::<u32>::empty());
        assert(sum_of(p.drop_first()) == 0);
    } else {
        assert(p[0] == deltas[0]);
        assert(p.drop_first() =~= deltas.drop_first().push(x));
        lemma_sum_of_push(deltas.drop_first(), x);
        assert(sum_of(deltas) == deltas[0] + sum_of(deltas.drop_first()));
    }
}

proof fn lemma_run_push(t: Timer, deltas: Seq<u32>, x: u32)
    ensures
        spec_run(t, deltas.push(x)) == spec_run(t, deltas).spec_tick(x),
    decreases deltas.len(),
{
    let p = deltas.push(x);
    assert(p.len() == deltas.len() + 1);
    assert(spec_run(t, p) == spec_run(t.spec_tick(p[0]), p.drop_first()));
    if deltas.len() == 0 {
        assert(p[0] == x);
        assert(p.drop_first() =~= Seq::<u32>::empty());
        assert(spec_run(t.spec_tick(x), p.drop_first()) == t.spec_tick(x));
        assert(spec_run(t, deltas) == t);
    } else {
        assert(p[0] == deltas[0]);
        assert(p.drop_first() =~= deltas.drop_first().push(x));
        lemma_run_push(t.spec_tick(deltas[0]), deltas.drop_first(), x);
        assert(spec_run(t, deltas) == spec_run(t.spec_tick(deltas[0]), deltas.drop_first()));
    }
}

/// While a repeating timer never completes, its elapsed time is exactly the
/// sum of the deltas fed to it on top of where it started.
proof fn lemma_no_completion_accumulates(t: Timer, deltas: Seq<u32>)
    requires
        t.wf(),
        t.repeating,
        forall|i: int|
            0 <= i < deltas.len() ==> !(#[trigger] spec_run(t, deltas.take(i + 1))).fired_now,
    ensures
        spec_run(t, deltas).wf(),
        spec_run(t, deltas).repeating,
        spec_run(t, deltas).duration_ms == t.duration_ms,
        spec_run(t, deltas).elapsed_ms == t.elapsed_ms + sum_of(deltas),
    decreases deltas.len(),
{
    if deltas.len() == 0 {
    } else {
        let prefix = deltas.take(deltas.len() - 1);
        let last = deltas[deltas.len() - 1];
        assert(deltas =~= prefix.push(last));
        assert forall|i: int| 0 <= i < prefix.len() implies !(#[trigger] spec_run(
            t,
            prefix.take(i + 1),
        )).fired_now by {
            assert(prefix.take(i + 1) =~= deltas.take(i + 1));
        }
        lemma_no_completion_accumulates(t, prefix);
        lemma_run_push(t, prefix, last);
        lemma_sum_of_push(prefix, last);
        assert(deltas.take(deltas.len() as int) =~= deltas);
        assert(!spec_run(t, deltas).fired_now);
    }
}

/// Completions of a repeating timer are no closer together than its duration:
/// starting freshly rearmed (elapsed time zero, as it stands right after a
/// completion), if the timer next completes on the last tick of a run and on
/// none before it, then at least one full duration of time has elapsed over
/// that run. Enemy bites are gated on such a timer just completing, so no two
/// bites from the same enemy are accepted closer together than the cooldown.
pub proof fn lemma_repeating_completions_spaced(t: Timer, deltas: Seq<u32>)
    requires
        t.wf(),
        t.repeating,
        t.elapsed_ms == 0,
        deltas.len() >= 1,
        forall|i: int|
            0 <= i < deltas.len() - 1 ==> !(#[trigger] spec_run(t, deltas.take(i + 1))).fired_now,
        spec_run(t, deltas).fired_now,
    ensures
        sum_of(deltas) >= t.duration_ms,
{
    let n = deltas.len() as int;
    let prefix = deltas.take(n - 1);
    let last = deltas[n - 1];
    assert(deltas =~= prefix.push(last));
    assert forall|i: int| 0 <= i < prefix.len() implies !(#[trigger] spec_run(
        t,
        prefix.take(i + 1),
    )).fired_now by {
        assert(prefix.take(i + 1) =~= deltas.take(i + 1));
    }
    lemma_no_completion_accumulates(t, prefix);
    lemma_run_push(t, prefix, last);
    lemma_sum_of_push(prefix, last);
    let before = spec_run(t, prefix);
    assert(before.elapsed_ms == sum_of(prefix));
    assert(before.spec_tick(last).fired_now);
    assert(last >= before.duration_ms - before.elapsed_ms);
}

} // verus!
