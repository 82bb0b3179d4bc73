//! Behaviour of the fixed-interval timer and the two animation policies.

use shooter_core::animation::{AnimationIndices, AnimationState, StepAnimation};
use shooter_core::timer::IntervalTimer;
use shooter_core::SimError;

fn ship_animation() -> AnimationState {
    AnimationState::new(AnimationIndices { first: 2, last: 7 }, 2, 100_000)
        .expect("positive interval")
}

#[test]
fn timer_rejects_zero_interval() {
    assert_eq!(IntervalTimer::new(0).err(), Some(SimError::NonPositiveInterval));
}

#[test]
fn timer_starts_empty() {
    let t = IntervalTimer::new(100_000).unwrap();
    assert_eq!(t.interval_us, 100_000);
    assert_eq!(t.acc_us, 0);
}

#[test]
fn timer_consumes_whole_intervals_on_large_delta() {
    let mut t = IntervalTimer::new(100_000).unwrap();
    // a delta spanning two and a half intervals fires twice, each firing
    // consuming exactly one interval's worth of accumulated time
    assert_eq!(t.tick(250_000), 2);
    assert_eq!(t.acc_us, 50_000);
    assert_eq!(t.tick(0), 0);
    assert_eq!(t.acc_us, 50_000);
}

#[test]
fn toggle_scenario_three_small_deltas() {
    // interval 0.1 s, deltas of 0.04 s each: exactly one toggle event after
    // the third delta (cumulative 0.12 s), leftover 0.02 s
    let mut a = ship_animation();
    assert_eq!(a.tick(40_000), 0);
    assert_eq!(a.current, 2);
    assert_eq!(a.tick(40_000), 0);
    assert_eq!(a.current, 2);
    assert_eq!(a.tick(40_000), 1);
    assert_eq!(a.current, 7);
    assert_eq!(a.timer.acc_us, 20_000);
}

#[test]
fn toggle_alternates_strictly() {
    let mut a = ship_animation();
    let mut previous = a.current;
    for _ in 0..10 {
        let fires = a.tick(100_000);
        assert_eq!(fires, 1);
        // one firing never repeats the frame shown before it
        assert_ne!(a.current, previous);
        assert!(a.current == 2 || a.current == 7);
        previous = a.current;
    }
}

#[test]
fn toggle_parity_on_large_delta() {
    // an even number of firings in one tick lands back on the same frame
    let mut a = ship_animation();
    assert_eq!(a.tick(200_000), 2);
    assert_eq!(a.current, 2);
    assert_eq!(a.tick(300_000), 3);
    assert_eq!(a.current, 7);
}

#[test]
fn step_animation_wraps_and_records_direction() {
    let mut s = StepAnimation::new(AnimationIndices { first: 4, last: 6 }, 4);
    assert_eq!(s.direction, 0);
    s.trigger(1);
    assert_eq!(s.current, 5);
    assert_eq!(s.direction, 1);
    s.trigger(1);
    assert_eq!(s.current, 6);
    s.trigger(-1);
    assert_eq!(s.current, 4);
    assert_eq!(s.direction, -1);
}

#[test]
fn single_frame_range_toggles_in_place() {
    let mut a = AnimationState::new(AnimationIndices { first: 3, last: 3 }, 3, 50_000)
        .expect("positive interval");
    assert_eq!(a.tick(50_000), 1);
    assert_eq!(a.current, 3);
}

#[test]
fn animation_rejects_zero_interval() {
    let r = AnimationState::new(AnimationIndices { first: 2, last: 7 }, 2, 0);
    assert_eq!(r.err(), Some(SimError::NonPositiveInterval));
}
