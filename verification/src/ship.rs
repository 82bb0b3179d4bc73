//! The player ship: maps two boolean input signals to a horizontal
//! direction, integrates position at a constant speed, and clamps the
//! result into the play-field bounds.
//!
//! Exactly one ship exists per simulation; [`crate::sim::Simulation`] holds
//! it in a dedicated field and checks that cardinality at construction.

use vstd::prelude::*;

verus! {

use crate::MICROS_PER_SEC;
use vstd::arithmetic::div_mod::lemma_div_basics_5;

/// Horizontal state of the single player ship.
///
/// Positions and bounds are in milli-units; the speed is in milli-units per
/// second of simulated time.
pub struct ShipController {
    /// Current horizontal position; always within the bounds.
    pub x_milli: i64,
    /// Movement speed (direction is supplied by the per-tick input).
    pub speed: u32,
    /// Left edge of the playable field, inclusive.
    pub left_bound: i64,
    /// Right edge of the playable field, inclusive.
    pub right_bound: i64,
}

/// The direction encoded by the two continuous input signals: a simultaneous
/// press cancels to zero.
pub open spec fn spec_dir(move_left: bool, move_right: bool) -> int {
    (if move_right { 1int } else { 0int }) - (if move_left { 1int } else { 0int })
}

/// Distance covered in `delta_us` microseconds at `speed` milli-units per
/// second, rounded down to a whole milli-unit.
pub open spec fn spec_step(speed: int, delta_us: int) -> int {
    speed * delta_us / (MICROS_PER_SEC as int)
}

/// `v` clamped into the closed interval `[lo, hi]`.
pub open spec fn spec_clamp(v: int, lo: int, hi: int) -> int {
    if v < lo {
        lo
    } else if v > hi {
        hi
    } else {
        v
    }
}

impl ShipController {
    /// The ship is well formed when its position lies within the bounds.
    pub open spec fn wf(self) -> bool {
        self.left_bound <= self.x_milli <= self.right_bound
    }

    /// The position after one tick under the given input and delta.
    pub open spec fn moved_x(self, move_left: bool, move_right: bool, delta_us: int) -> int {
        spec_clamp(
            self.x_milli + spec_dir(move_left, move_right) * spec_step(
                self.speed as int,
                delta_us,
            ),
            self.left_bound as int,
            self.right_bound as int,
        )
    }

    /// Builds the ship at a starting position inside the play field.
    pub fn new(x_milli: i64, speed: u32, left_bound: i64, right_bound: i64) -> (s: ShipController)
        requires
            left_bound <= x_milli <= right_bound,
        ensures
            s.wf(),
            s.x_milli == x_milli,
            s.speed == speed,
            s.left_bound == left_bound,
            s.right_bound == right_bound,
    {
        ShipController { x_milli, speed, left_bound, right_bound }
    }

    /// One simulation tick: sample the two input signals, integrate the
    /// position, and clamp it into the bounds. The resulting position is
    /// always within `[left_bound, right_bound]`.
    pub fn tick(&mut self, move_left: bool, move_right: bool, delta_us: u64)
        requires
            old(self).wf(),
        ensures
            final(self).wf(),
            final(self).speed == old(self).speed,
            final(self).left_bound == old(self).left_bound,
            final(self).right_bound == old(self).right_bound,
            final(self).x_milli == old(self).moved_x(move_left, move_right, delta_us as int),
            old(self).left_bound <= final(self).x_milli <= old(self).right_bound,
    {
        proof {
            assert((self.speed as u128) * (delta_us as u128) <= (u32::MAX as u128) * (
            u64::MAX as u128)) by (nonlinear_arith)
                requires
                    self.speed as u128 <= u32::MAX as u128,
                    delta_us as u128 <= u64::MAX as u128,
            ;
        }
        let step_wide: u128 = (self.speed as u128) * (delta_us as u128) / (MICROS_PER_SEC as u128);
        let dir: i128 = (if move_right {
            1i128
        } else {
            0i128
        }) - (if move_left {
            1i128
        } else {
            0i128
        });
        proof {
            lemma_div_basics_5(
                (self.speed as u128) * (delta_us as u128) as int,
                MICROS_PER_SEC as int,
            );
            assert(-(step_wide as int) <= (dir as int) * (step_wide as int) <= step_wide as int)
                by (nonlinear_arith)
                requires
                    -1 <= dir as int <= 1,
                    step_wide as int >= 0,
            ;
        }
        let moved: i128 = (self.x_milli as i128) + dir * (step_wide as i128);
        let clamped: i64 = if moved < self.left_bound as i128 {
            self.left_bound
        } else if moved > self.right_bound as i128 {
            self.right_bound
        } else {
            moved as i64
        };
        self.x_milli = clamped;
    }
}

/// The position reached from `x` after `n` ticks that each move by `step`
/// toward the right and clamp into `[lo, hi]`.
pub open spec fn spec_run_right(x: int, step: int, lo: int, hi: int, n: nat) -> int
    decreases n,
{
    if n == 0 {
        x
    } else {
        spec_run_right(spec_clamp(x + step, lo, hi), step, lo, hi, (n - 1) as nat)
    }
}

/// One tick under rightward-only input is exactly one step of the
/// convergence run the lemmas below speak about.
pub proof fn lemma_moved_x_right_is_run_step(s: ShipController, delta_us: int)
    ensures
        s.moved_x(false, true, delta_us) == spec_clamp(
            s.x_milli + spec_step(s.speed as int, delta_us),
            s.left_bound as int,
            s.right_bound as int,
        ),
{
}

/// Once the ship sits exactly on the right bound, a further rightward tick
/// leaves it there: the bound is idempotent.
pub proof fn lemma_right_bound_idempotent(step: int, lo: int, hi: int)
    requires
        lo <= hi,
        step >= 0,
    ensures
        spec_clamp(hi + step, lo, hi) == hi,
{
}

/// A ship already at the right bound stays there under any number of
/// further rightward ticks.
pub proof fn lemma_run_right_at_bound(step: int, lo: int, hi: int, n: nat)
    requires
        lo <= hi,
        step >= 0,
    ensures
        spec_run_right(hi, step, lo, hi, n) == hi,
    decreases n,
{
    if n > 0 {
        lemma_run_right_at_bound(step, lo, hi, (n - 1) as nat);
    }
}

/// Driving right from anywhere inside the bounds converges to exactly the
/// right bound once the ticks' combined travel covers the remaining
/// distance, and stays there; each intermediate position is clamped into
/// the bounds.
pub proof fn lemma_run_right_converges(x: int, step: int, lo: int, hi: int, n: nat)
    requires
        lo <= x <= hi,
        step >= 1,
        n * step >= hi - x,
    ensures
        spec_run_right(x, step, lo, hi, n) == hi,
    decreases n,
{
    if n == 0 {
        assert(n * step == 0) by (nonlinear_arith)
            requires
                n == 0,
        ;
        assert(x == hi);
    } else {
        let x1 = spec_clamp(x + step, lo, hi);
        if x + step >= hi {
            assert(x1 == hi);
            lemma_run_right_at_bound(step, lo, hi, (n - 1) as nat);
        } else {
            assert(x1 == x + step);
            assert((n - 1) * step == n * step - step) by (nonlinear_arith);
            lemma_run_right_converges(x1, step, lo, hi, (n - 1) as nat);
        }
    }
}

} // verus!
