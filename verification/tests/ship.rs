//! Behaviour of the bounded ship controller.

use shooter_core::ship::ShipController;

#[test]
fn clamps_at_left_bound_well_before_tick_100() {
    // bounds +-370.5 units, speed 300 units/s, delta 0.0167 s: each tick
    // moves 5.01 units leftward; 74 ticks cover the 370.5 units, so the
    // ship sits exactly on the left bound well before tick 100 and stays
    let mut s = ShipController::new(0, 300_000, -370_500, 370_500);
    let mut reached_at = None;
    for tick in 1..=100u32 {
        s.tick(true, false, 16_700);
        assert!(-370_500 <= s.x_milli && s.x_milli <= 370_500);
        if reached_at.is_none() && s.x_milli == -370_500 {
            reached_at = Some(tick);
        }
        if reached_at.is_some() {
            assert_eq!(s.x_milli, -370_500);
        }
    }
    assert_eq!(reached_at, Some(74));
}

#[test]
fn single_tick_moves_by_speed_times_delta() {
    let mut s = ShipController::new(0, 300_000, -370_500, 370_500);
    s.tick(true, false, 16_700);
    assert_eq!(s.x_milli, -5_010);
    s.tick(false, true, 16_700);
    assert_eq!(s.x_milli, 0);
}

#[test]
fn right_bound_is_idempotent() {
    let mut s = ShipController::new(370_500, 300_000, -370_500, 370_500);
    for _ in 0..5 {
        s.tick(false, true, 16_700);
        assert_eq!(s.x_milli, 370_500);
    }
}

#[test]
fn converges_to_exact_right_bound() {
    let mut s = ShipController::new(360_000, 300_000, -370_500, 370_500);
    // 10.5 units remain; three 5.01-unit ticks overshoot and clamp
    s.tick(false, true, 16_700);
    assert_eq!(s.x_milli, 365_010);
    s.tick(false, true, 16_700);
    assert_eq!(s.x_milli, 370_020);
    s.tick(false, true, 16_700);
    assert_eq!(s.x_milli, 370_500);
}

#[test]
fn simultaneous_press_cancels() {
    let mut s = ShipController::new(1_234, 300_000, -370_500, 370_500);
    s.tick(true, true, 16_700);
    assert_eq!(s.x_milli, 1_234);
    s.tick(false, false, 16_700);
    assert_eq!(s.x_milli, 1_234);
}

#[test]
fn zero_delta_does_not_move() {
    let mut s = ShipController::new(-7, 300_000, -370_500, 370_500);
    s.tick(false, true, 0);
    assert_eq!(s.x_milli, -7);
}

#[test]
fn stays_in_bounds_under_huge_delta() {
    let mut s = ShipController::new(0, 300_000, -370_500, 370_500);
    // ten minutes in one frame still clamps to the field edge
    s.tick(false, true, 600_000_000);
    assert_eq!(s.x_milli, 370_500);
}
