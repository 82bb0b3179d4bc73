//! Core simulation logic of a small vertically scrolling arcade shooter:
//! a fixed-interval frame timer, a two-frame sprite animation toggle, a
//! horizontally bounded ship controller, a seamlessly wrapping background
//! scroller, and a periodic randomized enemy spawner.
//!
//! Rendering, window management, asset loading and input-device polling are
//! host-engine concerns and live outside this crate; the core consumes only
//! plain values (an elapsed-time delta, two boolean input signals, random
//! draws) and exposes plain entity state for a renderer to consume.
//!
//! All quantities are fixed-point integers: time is measured in microseconds
//! of simulated time, positions and scales in milli-units (one thousandth of
//! a world unit), speeds in milli-units per second.

use vstd::prelude::*;

pub mod animation;
pub mod background;
pub mod catalog;
pub mod spawner;
pub mod ship;
pub mod sim;
pub mod timer;
pub mod transform;

verus! {

/// Microseconds in one second of simulated time.
pub const MICROS_PER_SEC: u64 = 1_000_000;

/// Sum of a sequence of integers (elapsed-time deltas, tile positions).
pub open spec fn sum_ints(s: Seq<int>) -> int
    decreases s.len(),
{
    if s.len() == 0 {
        0
    } else {
        sum_ints(s.drop_last()) + s.last()
    }
}

/// The narrow startup error taxonomy: every per-tick operation is total, so
/// failures can only arise while the simulation is being configured.
#[derive(Clone, Copy, Debug, PartialEq, Eq, Structural)]
pub enum SimError {
    /// A periodic timer was configured with a non-positive interval.
    NonPositiveInterval,
    /// The enemy catalog resolved fewer (or more) categories than expected.
    CatalogSize,
    /// The simulation was handed a ship count other than exactly one.
    ShipCardinality,
}

} // verus!
