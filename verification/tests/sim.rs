//! Behaviour of the composed simulation tick and its startup checks.

use shooter_core::catalog::canonical_entries;
use shooter_core::sim::{
    Simulation, ENEMY_LAYER, FIELD_LEFT_MILLI, FIELD_RIGHT_MILLI, SCALE_MILLI, SHIP_FIRST_FRAME,
    SHIP_LAST_FRAME, SPAWN_ROW_MILLI,
};
use shooter_core::transform::Transform;
use shooter_core::SimError;

fn ship_at(x_milli: i64) -> Transform {
    Transform { x_milli, y_milli: SPAWN_ROW_MILLI, z_layer: 1, scale_milli: SCALE_MILLI }
}

fn canonical_sim() -> Simulation {
    Simulation::new(vec![ship_at(0)], canonical_entries()).expect("canonical startup")
}

#[test]
fn startup_requires_exactly_one_ship() {
    let none: Vec<Transform> = Vec::new();
    let r = Simulation::new(none, canonical_entries());
    assert_eq!(r.err(), Some(SimError::ShipCardinality));
    let r = Simulation::new(vec![ship_at(0), ship_at(100)], canonical_entries());
    assert_eq!(r.err(), Some(SimError::ShipCardinality));
}

#[test]
fn startup_requires_full_catalog() {
    let mut entries = canonical_entries();
    entries.pop();
    let r = Simulation::new(vec![ship_at(0)], entries);
    assert_eq!(r.err(), Some(SimError::CatalogSize));
}

#[test]
fn startup_state_is_canonical() {
    let s = canonical_sim();
    assert_eq!(s.background.ys_milli, vec![0, 1_824_000]);
    assert_eq!(s.ship.x_milli, 0);
    assert_eq!(s.ship.left_bound, FIELD_LEFT_MILLI);
    assert_eq!(s.ship.right_bound, FIELD_RIGHT_MILLI);
    assert_eq!(s.ship_animation.current, SHIP_FIRST_FRAME);
    assert_eq!(s.ship_animation.indices.first, SHIP_FIRST_FRAME);
    assert_eq!(s.ship_animation.indices.last, SHIP_LAST_FRAME);
    assert_eq!(s.spawner.timer.acc_us, 0);
    assert_eq!(s.enemies.len(), 0);
    assert_eq!(s.catalog.entries.len(), 3);
}

#[test]
fn one_tick_advances_every_component_with_the_same_delta() {
    let mut s = canonical_sim();
    // a tenth of a second: the animation toggles once, the spawner fires
    // once, the background moves 18 units down, the ship 22.5 units right
    let spawned = s.tick(false, true, 100_000);
    assert_eq!(spawned, 1);
    assert_eq!(s.background.ys_milli, vec![-18_000, 1_806_000]);
    assert_eq!(s.ship_animation.current, SHIP_LAST_FRAME);
    assert_eq!(s.ship.x_milli, 22_500);
    assert_eq!(s.enemies.len(), 1);
    let e = &s.enemies[0];
    assert!(FIELD_LEFT_MILLI <= e.transform.x_milli && e.transform.x_milli <= FIELD_RIGHT_MILLI);
    assert_eq!(e.transform.y_milli, SPAWN_ROW_MILLI);
    assert_eq!(e.transform.z_layer, ENEMY_LAYER);
    assert_eq!(e.transform.scale_milli, SCALE_MILLI);
}

#[test]
fn enemies_accumulate_without_bound_in_spawn_order() {
    let mut s = canonical_sim();
    for tick in 1..=10 {
        s.tick(false, false, 100_000);
        assert_eq!(s.enemies.len(), tick);
    }
    let first = s.enemies[0];
    s.tick(false, false, 100_000);
    // earlier enemies are never moved or removed
    assert_eq!(s.enemies[0], first);
    assert_eq!(s.enemies.len(), 11);
}

#[test]
fn render_views_expose_current_state() {
    let mut s = canonical_sim();
    s.tick(false, true, 100_000);
    let ship = s.ship_transform();
    assert_eq!(ship.x_milli, 22_500);
    assert_eq!(ship.y_milli, SPAWN_ROW_MILLI);
    assert_eq!(ship.z_layer, 1);
    assert_eq!(ship.scale_milli, SCALE_MILLI);
    let tile = s.background_transform(0);
    assert_eq!(tile.x_milli, 0);
    assert_eq!(tile.y_milli, -18_000);
    assert_eq!(tile.z_layer, 0);
    let tile = s.background_transform(1);
    assert_eq!(tile.y_milli, 1_806_000);
}

#[test]
fn sixty_fps_session_toggles_every_sixth_frame() {
    let mut s = canonical_sim();
    let mut toggles = 0;
    let mut previous = s.ship_animation.current;
    for _ in 0..60 {
        s.tick(true, false, 16_667);
        if s.ship_animation.current != previous {
            toggles += 1;
            previous = s.ship_animation.current;
        }
    }
    // 60 frames of 16.667 ms come to 1.00002 s: ten toggle events
    assert_eq!(toggles, 10);
    // and the ship has clamped to the left edge of the field
    assert!(FIELD_LEFT_MILLI <= s.ship.x_milli && s.ship.x_milli < 0);
}
