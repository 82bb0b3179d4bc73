//! The scrolling background: two or more vertically stacked tiles move
//! downward at a constant velocity and are re-homed once they pass the
//! lower edge, producing an illusion of infinite vertical scroll.
//!
//! The canonical motion policy selected here is constant velocity (position
//! changes by `speed x delta` each tick); the historical ease-in ramp is
//! not part of the core. A tile that passes one period below the origin is
//! translated upward by the *total covered span* — the tile count times the
//! period — never snapped to an absolute constant, so the relative spacing
//! of the tiles (and with it seamless coverage) is preserved however many
//! tiles are in flight.

use vstd::prelude::*;

verus! {

use crate::MICROS_PER_SEC;
use crate::sum_ints;
use vstd::arithmetic::div_mod::lemma_div_basics_5;
use vstd::arithmetic::div_mod::lemma_div_pos_is_pos;
use vstd::arithmetic::div_mod::lemma_fundamental_div_mod;
use vstd::arithmetic::div_mod::lemma_mod_division_less_than_divisor;
use vstd::arithmetic::div_mod::lemma_mod_multiples_vanish;
use vstd::arithmetic::div_mod::lemma_small_mod;
use vstd::arithmetic::mul::lemma_mul_inequality;
use vstd::arithmetic::mul::lemma_mul_nonnegative;

/// The set of background tiles and their shared motion parameters.
///
/// Positions and the period are in milli-units; the speed is in milli-units
/// per second and non-positive (the canonical scroll is downward, and the
/// re-homing handles the lower edge).
pub struct BackgroundScroller {
    /// Vertical positions of the tiles, one entry per tile.
    pub ys_milli: Vec<i64>,
    /// Scroll velocity; zero or negative.
    pub speed: i32,
    /// The vertical extent one tile covers (its logical height times the
    /// global scale).
    pub period_milli: i64,
}

/// Signed distance covered in `delta_us` microseconds at the non-positive
/// velocity `speed`, its magnitude rounded down to a whole milli-unit.
pub open spec fn spec_scroll_disp(speed: int, delta_us: int) -> int
    recommends
        speed <= 0,
{
    -((-speed) * delta_us / (MICROS_PER_SEC as int))
}

/// The unique position congruent to `v` modulo `span` that lies in the
/// wraparound window `(-period, span - period]`.
pub open spec fn spec_wrapped(v: int, period: int, span: int) -> int
    recommends
        0 < period <= span,
{
    ((v + period - 1) % span) + 1 - period
}

/// Re-homing changes nothing modulo the span: the wrapped position differs
/// from `v` by an exact multiple of `span`, and lies in the window.
pub proof fn lemma_wrapped_congruent(v: int, period: int, span: int)
    requires
        0 < period <= span,
    ensures
        spec_wrapped(v, period, span) == v - ((v + period - 1) / span) * span,
        -period < spec_wrapped(v, period, span) <= span - period,
{
    let q = (v + period - 1) / span;
    lemma_fundamental_div_mod(v + period - 1, span);
    lemma_mod_division_less_than_divisor(v + period - 1, span);
    assert(span * q == q * span) by (nonlinear_arith);
}

/// A position congruent to `v` modulo `span` and already inside the
/// wraparound window is exactly the wrapped position: the window pins it
/// uniquely.
pub proof fn lemma_wrapped_unique(v: int, w: int, k: int, period: int, span: int)
    requires
        0 < period <= span,
        w == v + k * span,
        -period < w <= span - period,
    ensures
        w == spec_wrapped(v, period, span),
{
    lemma_mod_multiples_vanish(-k, w + period - 1, span);
    assert(span * (-k) + (w + period - 1) == v + period - 1) by (nonlinear_arith)
        requires
            w == v + k * span,
    ;
    lemma_small_mod((w + period - 1) as nat, span as nat);
}

impl BackgroundScroller {
    /// The total covered span: tile count times one tile's period.
    pub open spec fn span(self) -> int {
        self.ys_milli.len() * self.period_milli
    }

    /// Well-formed when at least two tiles guarantee seamless coverage, the
    /// period is positive, the span fits the position type, the scroll is
    /// downward, and every tile sits inside the wraparound window.
    pub open spec fn wf(self) -> bool {
        &&& self.period_milli >= 1
        &&& self.ys_milli.len() >= 2
        &&& self.span() <= i64::MAX
        &&& self.speed <= 0
        &&& forall|i: int|
            0 <= i < self.ys_milli.len() ==> -self.period_milli < #[trigger] self.ys_milli[i]
                <= self.span() - self.period_milli
    }

    /// Builds the scroller with `count` tiles stacked one period apart,
    /// tile `i` starting at `i x period`.
    pub fn new(count: usize, period_milli: i64, speed: i32) -> (s: BackgroundScroller)
        requires
            count >= 2,
            period_milli >= 1,
            speed <= 0,
            count * period_milli <= i64::MAX,
        ensures
            s.wf(),
            s.speed == speed,
            s.period_milli == period_milli,
            s.ys_milli@.len() == count,
            forall|i: int| 0 <= i < count ==> s.ys_milli@[i] == i * period_milli,
    {
        let mut ys_milli: Vec<i64> = Vec::new();
        let mut i: usize = 0;
        while i < count
            invariant
                i <= count,
                count * period_milli <= i64::MAX,
                period_milli >= 1,
                ys_milli@.len() == i,
                forall|j: int| 0 <= j < i ==> ys_milli@[j] == j * period_milli,
            decreases count - i,
        {
            proof {
                lemma_mul_nonnegative(i as int, period_milli as int);
                lemma_mul_inequality(i as int, count as int, period_milli as int);
            }
            let y = (i as i128) * (period_milli as i128);
            ys_milli.push(y as i64);
            i = i + 1;
        }
        let s = BackgroundScroller { ys_milli, speed, period_milli };
        proof {
            assert forall|j: int| 0 <= j < count implies -(period_milli as int) < #[trigger] (j
                * period_milli) <= count * period_milli - period_milli by {
                lemma_mul_nonnegative(j, period_milli as int);
                lemma_mul_inequality(j, count - 1, period_milli as int);
                assert((count - 1) * period_milli == count * period_milli - period_milli)
                    by (nonlinear_arith);
            }
        }
        s
    }

    /// One simulation tick: every tile moves by `speed x delta` and, if it
    /// has passed one period below the origin, is translated upward by
    /// whole spans back into the wraparound window. Each new position is
    /// exactly the old one plus the shared displacement, normalized into
    /// the window modulo the span.
    pub fn tick(&mut self, delta_us: u64)
        requires
            old(self).wf(),
        ensures
            final(self).wf(),
            final(self).speed == old(self).speed,
            final(self).period_milli == old(self).period_milli,
            final(self).ys_milli@.len() == old(self).ys_milli@.len(),
            forall|i: int|
                0 <= i < old(self).ys_milli@.len() ==> final(self).ys_milli@[i] == spec_wrapped(
                    old(self).ys_milli@[i] + spec_scroll_disp(
                        old(self).speed as int,
                        delta_us as int,
                    ),
                    old(self).period_milli as int,
                    old(self).span(),
                ),
    {
        proof {
            assert(0 <= (-(self.speed as int)) * (delta_us as int) <= (i32::MAX as int + 1) * (
            u64::MAX as int)) by (nonlinear_arith)
                requires
                    0 <= -(self.speed as int) <= i32::MAX as int + 1,
                    0 <= delta_us as int <= u64::MAX as int,
            ;
        }
        let mag: i128 = (-(self.speed as i128)) * (delta_us as i128) / (MICROS_PER_SEC as i128);
        proof {
            lemma_div_basics_5(
                (-(self.speed as int)) * (delta_us as int),
                MICROS_PER_SEC as int,
            );
        }
        let disp: i128 = -mag;
        let period = self.period_milli;
        let n = self.ys_milli.len();
        let span_wide: i128 = (n as i128) * (period as i128);
        proof {
            lemma_mul_inequality(1, n as int, period as int);
        }
        let mut i: usize = 0;
        while i < n
            invariant
                i <= n,
                n == self.ys_milli@.len(),
                n == old(self).ys_milli@.len(),
                self.speed == old(self).speed,
                self.period_milli == old(self).period_milli,
                period == self.period_milli,
                span_wide == old(self).span(),
                1 <= period as int <= span_wide <= i64::MAX,
                disp <= 0,
                disp >= -((i32::MAX as int + 1) * (u64::MAX as int)),
                disp == spec_scroll_disp(old(self).speed as int, delta_us as int),
                forall|j: int|
                    0 <= j < i ==> self.ys_milli@[j] == spec_wrapped(
                        old(self).ys_milli@[j] + disp,
                        period as int,
                        span_wide as int,
                    ),
                forall|j: int|
                    0 <= j < i ==> -period < #[trigger] self.ys_milli@[j] <= span_wide - period,
                forall|j: int| i <= j < n ==> self.ys_milli@[j] == old(self).ys_milli@[j],
                forall|j: int|
                    0 <= j < n ==> -period < #[trigger] old(self).ys_milli@[j] <= span_wide
                        - period,
            decreases n - i,
        {
            let y0 = self.ys_milli[i];
            let mut v: i128 = (y0 as i128) + disp;
            let ghost mut k: int = 0;
            if v <= -period as i128 {
                // the tile has left the window below: translate it upward
                // by as many whole spans as bring it back inside
                let deficit: i128 = (-period as i128) - v;
                let q: i128 = deficit / span_wide;
                proof {
                    lemma_fundamental_div_mod(deficit as int, span_wide as int);
                    lemma_mod_division_less_than_divisor(deficit as int, span_wide as int);
                    lemma_div_pos_is_pos(deficit as int, span_wide as int);
                    lemma_div_basics_5(deficit as int, span_wide as int);
                    assert((q + 1) * (span_wide as int) == (span_wide as int) * q + span_wide)
                        by (nonlinear_arith);
                }
                v = v + (q + 1) * span_wide;
                proof {
                    k = q + 1;
                }
            }
            let w = v as i64;
            proof {
                lemma_wrapped_unique(
                    (y0 as int) + disp,
                    v as int,
                    k,
                    period as int,
                    span_wide as int,
                );
            }
            self.ys_milli.set(i, w);
            i = i + 1;
        }
    }
}

/// Law: across any tick — wraparound events included — the sum of the tile
/// positions modulo the total covered span changes only by the tiles'
/// shared uniform motion; the re-homing itself leaves it invariant.
pub proof fn lemma_scroll_sum_mod_span(
    olds: Seq<int>,
    news: Seq<int>,
    disp: int,
    period: int,
    span: int,
)
    requires
        0 < period <= span,
        olds.len() == news.len(),
        forall|i: int| 0 <= i < news.len() ==> news[i] == spec_wrapped(olds[i] + disp, period, span),
    ensures
        sum_ints(news) % span == (sum_ints(olds) + news.len() * disp) % span,
    decreases news.len(),
{
    if news.len() == 0 {
        assert(news.len() * disp == 0) by (nonlinear_arith)
            requires
                news.len() == 0,
        ;
    } else {
        let po = olds.drop_last();
        let pn = news.drop_last();
        assert(forall|i: int|
            0 <= i < pn.len() ==> pn[i] == spec_wrapped(po[i] + disp, period, span));
        lemma_scroll_sum_mod_span(po, pn, disp, period, span);
        let xn = sum_ints(pn);
        let xo = sum_ints(po) + pn.len() * disp;
        // the last tile's new position differs from its moved position by
        // a whole number of spans
        let q = (olds.last() + disp + period - 1) / span;
        lemma_wrapped_congruent(olds.last() + disp, period, span);
        assert(news.last() == olds.last() + disp - q * span);
        let tail = olds.last() + disp;
        // sum_ints(news) == xn + news.last(); reduce both sides to
        // (xn % span + tail) % span and (xo % span + tail) % span, equal by
        // the induction hypothesis
        lemma_fundamental_div_mod(xn, span);
        let qn = xn / span;
        lemma_mod_multiples_vanish(qn - q, xn % span + tail, span);
        assert(span * (qn - q) + (xn % span + tail) == xn + tail - q * span) by (nonlinear_arith)
            requires
                span * qn + xn % span == xn,
        ;
        lemma_fundamental_div_mod(xo, span);
        let qo = xo / span;
        lemma_mod_multiples_vanish(qo, xo % span + tail, span);
        assert(span * qo + (xo % span + tail) == xo + tail) by (nonlinear_arith)
            requires
                span * qo + xo % span == xo,
        ;
        assert(sum_ints(news) == xn + tail - q * span);
        assert(sum_ints(olds) + news.len() * disp == xo + tail) by (nonlinear_arith)
            requires
                sum_ints(olds) == sum_ints(po) + olds.last(),
                xo == sum_ints(po) + pn.len() * disp,
                pn.len() + 1 == news.len(),
                tail == olds.last() + disp,
        ;
    }
}

} // verus!
