//! The repeating gate that decides when the overlay is rebuilt.
use std::time::Duration;
use vstd::arithmetic::div_mod::{
    lemma_basic_div, lemma_div_by_self, lemma_div_is_ordered, lemma_fundamental_div_mod,
    lemma_hoist_over_denominator, lemma_mod_multiples_vanish, lemma_mod_pos_bound,
};
use vstd::prelude::*;

verus! {

/// Length of one refresh interval, in nanoseconds (a quarter of a second).
pub const UPDATE_INTERVAL_NANOS: u64 = 250_000_000;

/// Whether one tick that adds `delta` to `elapsed` reaches the interval.
pub open spec fn fires(interval: nat, elapsed: nat, delta: nat) -> bool {
    elapsed + delta >= interval
}

/// Time carried into the next tick: what is left after whole intervals are taken out.
pub open spec fn carried(interval: nat, elapsed: nat, delta: nat) -> nat
    recommends
        interval > 0,
{
    ((elapsed + delta) as int % (interval as int)) as nat
}

/// Relies on bevy's `Timer::tick` in repeating mode: the tick reaches the interval
/// when the time already accumulated plus `delta_nanos` is at least the interval,
/// and the time kept afterwards is that sum modulo the interval.
#[verifier::external_body]
fn bevy_repeating_tick(interval_nanos: u64, elapsed_nanos: u64, delta_nanos: u64) -> (r: (
    bool,
    u64,
))
    requires
        interval_nanos > 0,
        elapsed_nanos < interval_nanos,
    ensures
        r.0 == fires(interval_nanos as nat, elapsed_nanos as nat, delta_nanos as nat),
        r.1 == carried(interval_nanos as nat, elapsed_nanos as nat, delta_nanos as nat),
{
    let mut timer = bevy::time::Timer::new(
        Duration::from_nanos(interval_nanos),
        bevy::time::TimerMode::Repeating,
    );
    timer.set_elapsed(Duration::from_nanos(elapsed_nanos));
    let finished = timer.tick(Duration::from_nanos(delta_nanos)).finished();
    (finished, timer.elapsed().as_nanos() as u64)
}

/// A repeating timer. `elapsed_nanos` always stays below `interval_nanos`.
pub struct EasyVecUiUpdateTimer {
    pub interval_nanos: u64,
    pub elapsed_nanos: u64,
}

impl EasyVecUiUpdateTimer {
    pub open spec fn wf(&self) -> bool {
        &&& self.interval_nanos > 0
        &&& self.elapsed_nanos < self.interval_nanos
    }

    /// A timer with the given interval and no time accumulated yet.
    pub fn with_interval(interval_nanos: u64) -> (r: Self)
        requires
            interval_nanos > 0,
        ensures
            r.wf(),
            r.interval_nanos == interval_nanos,
            r.elapsed_nanos == 0,
    {
        EasyVecUiUpdateTimer { interval_nanos, elapsed_nanos: 0 }
    }

    /// The overlay's timer: a quarter-second interval, nothing accumulated.
    pub fn new() -> (r: Self)
        ensures
            r.wf(),
            r.interval_nanos == UPDATE_INTERVAL_NANOS,
            r.elapsed_nanos == 0,
    {
        Self::with_interval(UPDATE_INTERVAL_NANOS)
    }

    /// Adds `delta_nanos` of elapsed time. Returns whether an interval was
    /// reached; at most one firing per call, however long the stall, and the
    /// time past the last whole interval is kept for the next call.
    pub fn tick(&mut self, delta_nanos: u64) -> (due: bool)
        requires
            old(self).wf(),
        ensures
            final(self).wf(),
            final(self).interval_nanos == old(self).interval_nanos,
            due == fires(old(self).interval_nanos as nat, old(self).elapsed_nanos as nat, delta_nanos as nat),
            final(self).elapsed_nanos == carried(
                old(self).interval_nanos as nat,
                old(self).elapsed_nanos as nat,
                delta_nanos as nat,
            ),
            delta_nanos == 0 ==> !due,
    {
        let (due, rest) = bevy_repeating_tick(self.interval_nanos, self.elapsed_nanos, delta_nanos);
        proof {
            lemma_mod_pos_bound(
                self.elapsed_nanos as int + delta_nanos as int,
                self.interval_nanos as int,
            );
        }
        self.elapsed_nanos = rest;
        due
    }
}

/// Sum of a sequence of elapsed times.
pub open spec fn total(deltas: Seq<nat>) -> nat
    decreases deltas.len(),
{
    if deltas.len() == 0 {
        0
    } else {
        total(deltas.drop_last()) + deltas.last()
    }
}

/// Time accumulated by a fresh timer after ticking through `deltas` in order.
pub open spec fn elapsed_after(interval: nat, deltas: Seq<nat>) -> nat
    decreases deltas.len(),
{
    if deltas.len() == 0 {
        0
    } else {
        carried(interval, elapsed_after(interval, deltas.drop_last()), deltas.last())
    }
}

/// Number of ticks that fire when a fresh timer ticks through `deltas` in order.
pub open spec fn fire_count(interval: nat, deltas: Seq<nat>) -> nat
    decreases deltas.len(),
{
    if deltas.len() == 0 {
        0
    } else {
        fire_count(interval, deltas.drop_last()) + if fires(
            interval,
            elapsed_after(interval, deltas.drop_last()),
            deltas.last(),
        ) {
            1nat
        } else {
            0nat
        }
    }
}

/// No single tick of `deltas` carries the running total across two interval
/// boundaries at once.
pub open spec fn crosses_at_most_one(interval: nat, deltas: Seq<nat>) -> bool {
    forall|k: int|
        0 <= k < deltas.len() ==> #[trigger] (total(deltas.take(k + 1)) as int) / (interval as int) <= (total(
            deltas.take(k),
        ) as int) / (interval as int) + 1
}

/// A fresh timer that ticks through `deltas` fires exactly as many times as
/// whole intervals fit in their sum, and keeps the remainder, provided no single
/// tick spans two interval boundaries (a tick fires at most once, so a longer
/// stall counts once).
pub proof fn lemma_fire_count_matches_division(interval: nat, deltas: Seq<nat>)
    requires
        interval > 0,
        crosses_at_most_one(interval, deltas),
    ensures
        fire_count(interval, deltas) == (total(deltas) as int) / (interval as int),
        elapsed_after(interval, deltas) == (total(deltas) as int) % (interval as int),
    decreases deltas.len(),
{
    let i = interval as int;
    if deltas.len() == 0 {
        lemma_basic_div(0, i);
    } else {
        let n = deltas.len() as int;
        let prefix = deltas.drop_last();
        let e = deltas.last() as int;
        assert forall|k: int| 0 <= k < prefix.len() implies #[trigger] (total(prefix.take(k + 1)) as int)
            / i <= (total(prefix.take(k)) as int) / i + 1 by {
            assert(prefix.take(k + 1) =~= deltas.take(k + 1));
            assert(prefix.take(k) =~= deltas.take(k));
        }
        lemma_fire_count_matches_division(interval, prefix);
        let s0 = total(prefix) as int;
        let q = s0 / i;
        let a = s0 % i;
        lemma_fundamental_div_mod(s0, i);
        lemma_mod_pos_bound(s0, i);
        assert(deltas.take(n) =~= deltas);
        assert(deltas.take(n - 1) =~= prefix);
        assert((total(deltas.take((n - 1) + 1)) as int) / i <= (total(deltas.take(n - 1)) as int)
            / i + 1);
        assert((total(deltas) as int) / i <= q + 1);
        // total(deltas) == i * q + (a + e)
        lemma_hoist_over_denominator(a + e, q, interval);
        assert(a + e + q * i == total(deltas));
        lemma_mod_multiples_vanish(q, a + e, i);
        assert(i * q + (a + e) == total(deltas)) by (nonlinear_arith)
            requires
                a + e + q * i == total(deltas),
        ;
        if a + e < i {
            lemma_basic_div(a + e, i);
        } else {
            lemma_div_by_self(i);
            lemma_div_is_ordered(i, a + e, i);
        }
    }
}

} // verus!
