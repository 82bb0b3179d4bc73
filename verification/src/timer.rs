//! A repeating fixed-interval timer driven by per-tick elapsed-time deltas.
//!
//! The timer accumulates elapsed time and, once the accumulator reaches the
//! configured interval, consumes whole intervals (subtracting them rather
//! than resetting the accumulator to zero, so no time is lost under variable
//! frame rates) and reports how many times it fired.

use vstd::prelude::*;

verus! {

use crate::SimError;
use crate::sum_ints;
use vstd::arithmetic::div_mod::lemma_div_basics;
use vstd::arithmetic::div_mod::lemma_div_is_ordered_by_denominator;
use vstd::arithmetic::div_mod::lemma_fundamental_div_mod;
use vstd::arithmetic::div_mod::lemma_hoist_over_denominator;
use vstd::arithmetic::div_mod::lemma_mod_division_less_than_divisor;
use vstd::arithmetic::div_mod::lemma_mod_multiples_vanish;

/// A periodic timer with a positive interval and an accumulator that always
/// holds strictly less than one interval of not-yet-consumed time.
///
/// Both fields are in microseconds of simulated time.
pub struct IntervalTimer {
    /// The configured period; always positive.
    pub interval_us: u64,
    /// Accumulated time not yet consumed by a firing; always below the
    /// interval.
    pub acc_us: u64,
}

/// How often a timer with accumulator `acc` fires when `delta` more
/// microseconds elapse, with one whole interval consumed per firing.
pub open spec fn spec_fires(acc: int, delta: int, interval: int) -> int {
    (acc + delta) / interval
}

/// The accumulator left over after `delta` more microseconds elapse and
/// every whole interval has been consumed.
pub open spec fn spec_acc_after(acc: int, delta: int, interval: int) -> int {
    (acc + delta) % interval
}

impl IntervalTimer {
    /// A timer is well formed when its interval is positive and its
    /// accumulator holds less than one interval.
    pub open spec fn wf(self) -> bool {
        0 < self.interval_us && self.acc_us < self.interval_us
    }

    /// Builds a timer, rejecting a misconfigured (zero) interval.
    pub fn new(interval_us: u64) -> (r: Result<IntervalTimer, SimError>)
        ensures
            r is Ok <==> interval_us > 0,
            r is Ok ==> r->Ok_0.wf() && r->Ok_0.interval_us == interval_us
                && r->Ok_0.acc_us == 0,
            r is Err ==> r->Err_0 == SimError::NonPositiveInterval,
    {
        if interval_us == 0 {
            Err(SimError::NonPositiveInterval)
        } else {
            Ok(IntervalTimer { interval_us, acc_us: 0 })
        }
    }

    /// Advances the timer by `delta_us` and returns how many times it fired,
    /// each firing consuming exactly one interval of accumulated time.
    pub fn tick(&mut self, delta_us: u64) -> (fires: u64)
        requires
            old(self).wf(),
        ensures
            final(self).wf(),
            final(self).interval_us == old(self).interval_us,
            fires == spec_fires(
                old(self).acc_us as int,
                delta_us as int,
                old(self).interval_us as int,
            ),
            final(self).acc_us == spec_acc_after(
                old(self).acc_us as int,
                delta_us as int,
                old(self).interval_us as int,
            ),
    {
        let interval = self.interval_us as u128;
        let total = self.acc_us as u128 + delta_us as u128;
        let fires_wide = total / interval;
        let rest = total % interval;
        proof {
            lemma_fundamental_div_mod(total as int, interval as int);
            lemma_mod_division_less_than_divisor(total as int, interval as int);
            if interval == 1 {
                // With a unit interval the accumulator is always zero, so the
                // total elapsed time itself fits in 64 bits.
                assert(fires_wide == total) by {
                    lemma_div_basics(total as int);
                }
            } else {
                assert(fires_wide <= total / 2) by {
                    lemma_div_is_ordered_by_denominator(total as int, 2, interval as int);
                }
            }
            assert(fires_wide <= u64::MAX);
        }
        self.acc_us = rest as u64;
        fires_wide as u64
    }
}

/// Every delta in the sequence is nonnegative (elapsed time cannot run
/// backwards).
pub open spec fn all_nonneg(ds: Seq<int>) -> bool {
    forall|i: int| 0 <= i < ds.len() ==> ds[i] >= 0
}

/// The accumulator left after feeding each delta of `ds` to a timer in
/// turn, starting from accumulator `acc`.
pub open spec fn spec_run_acc(acc: int, ds: Seq<int>, interval: int) -> int
    decreases ds.len(),
{
    if ds.len() == 0 {
        acc
    } else {
        spec_acc_after(spec_run_acc(acc, ds.drop_last(), interval), ds.last(), interval)
    }
}

/// The total number of firings over a whole delta sequence.
pub open spec fn spec_run_fires(acc: int, ds: Seq<int>, interval: int) -> int
    decreases ds.len(),
{
    if ds.len() == 0 {
        0
    } else {
        spec_run_fires(acc, ds.drop_last(), interval) + spec_fires(
            spec_run_acc(acc, ds.drop_last(), interval),
            ds.last(),
            interval,
        )
    }
}

/// Feeding a timer delta by delta is the same as feeding it the total at
/// once: the final accumulator is the total elapsed time modulo the
/// interval, and the firings over the whole run are the whole intervals
/// contained in the total. No time is lost between ticks.
pub proof fn lemma_run_totals(acc: int, ds: Seq<int>, interval: int)
    requires
        interval > 0,
        0 <= acc < interval,
        all_nonneg(ds),
    ensures
        spec_run_acc(acc, ds, interval) == (acc + sum_ints(ds)) % interval,
        spec_run_fires(acc, ds, interval) == (acc + sum_ints(ds)) / interval,
    decreases ds.len(),
{
    if ds.len() == 0 {
        vstd::arithmetic::div_mod::lemma_small_mod(acc as nat, interval as nat);
        vstd::arithmetic::div_mod::lemma_basic_div(acc, interval);
    } else {
        let p = ds.drop_last();
        let d = ds.last();
        assert(all_nonneg(p)) by {
            assert(forall|i: int| 0 <= i < p.len() ==> p[i] == ds[i] && ds[i] >= 0);
        }
        lemma_run_totals(acc, p, interval);
        let x = acc + sum_ints(p);
        let r = x % interval;
        let q = x / interval;
        lemma_fundamental_div_mod(x, interval);
        lemma_mod_division_less_than_divisor(x, interval);
        // accumulator: (r + d) % interval == (x + d) % interval
        lemma_mod_multiples_vanish(q, r + d, interval);
        assert(interval * q + (r + d) == x + d);
        // firings: q + (r + d) / interval == (x + d) / interval
        lemma_hoist_over_denominator(r + d, q, interval as nat);
        assert((r + d) / interval + q == (r + d + q * interval) / interval);
        assert(r + d + q * interval == x + d) by (nonlinear_arith)
            requires
                interval * q + r == x,
        ;
    }
}

/// Law: each firing consumes exactly one interval of accumulated time — a
/// timer never fires more often than the elapsed time contains whole
/// intervals, however large a single delta is, and what remains in the
/// accumulator is the exact leftover below one interval.
pub proof fn lemma_fires_consume_whole_intervals(acc: int, delta: int, interval: int)
    requires
        interval > 0,
        0 <= acc < interval,
        delta >= 0,
    ensures
        spec_fires(acc, delta, interval) * interval + spec_acc_after(acc, delta, interval) == acc
            + delta,
        0 <= spec_acc_after(acc, delta, interval) < interval,
        spec_fires(acc, delta, interval) * interval <= acc + delta,
{
    lemma_fundamental_div_mod(acc + delta, interval);
    lemma_mod_division_less_than_divisor(acc + delta, interval);
    assert(interval * spec_fires(acc, delta, interval) == spec_fires(acc, delta, interval)
        * interval) by (nonlinear_arith);
}

} // verus!
