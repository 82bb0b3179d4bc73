//! Sprite animation state machines.
//!
//! The canonical policy is the periodic two-frame toggle: a fixed-interval
//! timer accumulates the per-tick delta and, each time it fires, the
//! displayed frame flips between the first and the last frame of the
//! configured range. The alternative, event-driven policy advances the
//! frame by one (wrapping inside the range) only on an explicit external
//! trigger, which also records a direction value for later consumers.
//!
//! Under either policy the current frame index never leaves the configured
//! inclusive range, and no other component mutates it.

use vstd::prelude::*;

verus! {

use crate::SimError;
use crate::timer::IntervalTimer;
use crate::timer::all_nonneg;
use crate::timer::spec_acc_after;
use crate::timer::spec_fires;
use crate::timer::spec_run_fires;
use crate::sum_ints;
use crate::timer::lemma_run_totals;
use vstd::arithmetic::div_mod::lemma_div_basics;
use vstd::arithmetic::div_mod::lemma_mod_self_0;
use vstd::arithmetic::div_mod::lemma_small_mod;

/// Inclusive sprite-sheet frame bounds of an animated entity.
#[derive(Clone, Copy, Debug, PartialEq, Eq, Structural)]
pub struct AnimationIndices {
    /// First frame of the range.
    pub first: usize,
    /// Last frame of the range, at least `first`.
    pub last: usize,
}

/// The frame shown after one firing of the toggle policy: the index flips
/// between the first and the last frame of the range.
pub open spec fn spec_toggled(current: int, first: int, last: int) -> int {
    if current == last {
        first
    } else {
        last
    }
}

/// The frame shown after `fires` firings of the toggle policy: each firing
/// flips the frame, so only the parity of the count matters.
pub open spec fn spec_frame_after(current: int, first: int, last: int, fires: int) -> int {
    if fires % 2 == 0 {
        current
    } else {
        spec_toggled(current, first, last)
    }
}

/// A sprite animated by the periodic two-frame toggle policy.
pub struct AnimationState {
    /// The frame range; the toggle uses its two endpoints.
    pub indices: AnimationIndices,
    /// The fixed-interval timer gating frame advances.
    pub timer: IntervalTimer,
    /// The displayed frame; always one of the two endpoints.
    pub current: usize,
}

impl AnimationState {
    /// Well-formed when the range is ordered, the timer is well formed and
    /// the displayed frame is one of the range's endpoints.
    pub open spec fn wf(self) -> bool {
        &&& self.indices.first <= self.indices.last
        &&& self.timer.wf()
        &&& (self.current == self.indices.first || self.current == self.indices.last)
    }

    /// Builds a toggle animation starting on the given endpoint, rejecting
    /// a misconfigured (zero) interval.
    pub fn new(indices: AnimationIndices, current: usize, interval_us: u64) -> (r: Result<
        AnimationState,
        SimError,
    >)
        requires
            indices.first <= indices.last,
            current == indices.first || current == indices.last,
        ensures
            r is Ok <==> interval_us > 0,
            r is Err ==> r->Err_0 == SimError::NonPositiveInterval,
            r is Ok ==> {
                &&& r->Ok_0.wf()
                &&& r->Ok_0.indices == indices
                &&& r->Ok_0.current == current
                &&& r->Ok_0.timer.interval_us == interval_us
                &&& r->Ok_0.timer.acc_us == 0
            },
    {
        let timer = IntervalTimer::new(interval_us)?;
        Ok(AnimationState { indices, timer, current })
    }

    /// One simulation tick: accumulate the delta; every time one whole
    /// interval is consumed the frame flips between the two endpoints, so
    /// after the tick the frame depends only on the parity of the firing
    /// count. The frame never leaves the range.
    pub fn tick(&mut self, delta_us: u64) -> (fires: u64)
        requires
            old(self).wf(),
        ensures
            final(self).wf(),
            final(self).indices == old(self).indices,
            final(self).timer.interval_us == old(self).timer.interval_us,
            fires == spec_fires(
                old(self).timer.acc_us as int,
                delta_us as int,
                old(self).timer.interval_us as int,
            ),
            final(self).timer.acc_us == spec_acc_after(
                old(self).timer.acc_us as int,
                delta_us as int,
                old(self).timer.interval_us as int,
            ),
            final(self).current == spec_frame_after(
                old(self).current as int,
                old(self).indices.first as int,
                old(self).indices.last as int,
                fires as int,
            ),
    {
        let fires = self.timer.tick(delta_us);
        if fires % 2 == 1 {
            self.current = if self.current == self.indices.last {
                self.indices.first
            } else {
                self.indices.last
            };
        }
        fires
    }
}

/// With distinct endpoints, a firing never repeats the frame shown before
/// it: the toggle strictly alternates, and stays on the two endpoints.
pub proof fn lemma_toggle_alternates(current: int, first: int, last: int)
    requires
        first != last,
        current == first || current == last,
    ensures
        spec_toggled(current, first, last) != current,
        spec_toggled(current, first, last) == first || spec_toggled(current, first, last) == last,
{
}

/// Law: under the toggle policy, any sequence of nonnegative deltas that
/// together amount to exactly one interval — fed to a freshly started
/// timer tick by tick — fires exactly once, and the frame ends on the
/// opposite endpoint, never repeating the frame it started on.
pub proof fn lemma_toggle_once_per_interval(
    current: int,
    first: int,
    last: int,
    interval: int,
    ds: Seq<int>,
)
    requires
        interval > 0,
        all_nonneg(ds),
        sum_ints(ds) == interval,
        first != last,
        current == first || current == last,
    ensures
        spec_run_fires(0, ds, interval) == 1,
        spec_frame_after(current, first, last, spec_run_fires(0, ds, interval)) == spec_toggled(
            current,
            first,
            last,
        ),
        spec_frame_after(current, first, last, spec_run_fires(0, ds, interval)) != current,
{
    lemma_run_totals(0, ds, interval);
    lemma_div_basics(interval);
    assert(spec_run_fires(0, ds, interval) == 1);
}

/// A sprite animated by the event-driven policy: the frame advances by one
/// (wrapping inside the inclusive range) only on an explicit external
/// trigger, which also records the direction that caused it.
pub struct StepAnimation {
    /// The frame range.
    pub indices: AnimationIndices,
    /// The displayed frame; always inside the range.
    pub current: usize,
    /// The direction value recorded by the most recent trigger.
    pub direction: i8,
}

/// The frame shown after one external trigger: one step forward, wrapping
/// from the last frame back to the first.
pub open spec fn spec_stepped(current: int, first: int, last: int) -> int {
    if current == last {
        first
    } else {
        current + 1
    }
}

impl StepAnimation {
    /// Well-formed when the displayed frame lies inside the ordered range.
    pub open spec fn wf(self) -> bool {
        self.indices.first <= self.current <= self.indices.last
    }

    /// Builds an event-driven animation starting anywhere inside the range.
    pub fn new(indices: AnimationIndices, current: usize) -> (s: StepAnimation)
        requires
            indices.first <= current <= indices.last,
        ensures
            s.wf(),
            s.indices == indices,
            s.current == current,
            s.direction == 0,
    {
        StepAnimation { indices, current, direction: 0 }
    }

    /// One external trigger: the frame advances by one modulo the range
    /// length, and the direction that caused the trigger is recorded. The
    /// frame never leaves the range.
    pub fn trigger(&mut self, direction: i8)
        requires
            old(self).wf(),
        ensures
            final(self).wf(),
            final(self).indices == old(self).indices,
            final(self).direction == direction,
            final(self).current == spec_stepped(
                old(self).current as int,
                old(self).indices.first as int,
                old(self).indices.last as int,
            ),
            final(self).current - final(self).indices.first == (old(self).current
                - old(self).indices.first + 1) % (old(self).indices.last
                - old(self).indices.first + 1),
    {
        proof {
            let first = self.indices.first as int;
            let last = self.indices.last as int;
            let len = last - first + 1;
            if self.current == self.indices.last {
                lemma_mod_self_0(len);
            } else {
                lemma_small_mod((self.current - first + 1) as nat, len as nat);
            }
        }
        self.direction = direction;
        self.current = if self.current == self.indices.last {
            self.indices.first
        } else {
            self.current + 1
        };
    }
}

} // verus!
