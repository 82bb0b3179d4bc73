//! Behaviour of the enemy catalog and the periodic randomized spawner.

use shooter_core::catalog::{
    canonical_entries, category_of, Catalog, CatalogEntry, EnemyCategory,
};
use shooter_core::spawner::EnemySpawner;
use shooter_core::SimError;

fn bounded_spawner(left: i64, right: i64) -> EnemySpawner {
    EnemySpawner::new(100_000, left, right, -330_000, 2, 3_000).expect("positive interval")
}

#[test]
fn catalog_builds_from_exactly_three_entries() {
    let c = Catalog::build(canonical_entries()).expect("three entries");
    assert_eq!(c.entries.len(), 3);
    assert_eq!(c.entry(0).label, EnemyCategory::Small);
    assert_eq!(c.entry(1).label, EnemyCategory::Medium);
    assert_eq!(c.entry(2).label, EnemyCategory::Big);
}

#[test]
fn catalog_rejects_wrong_size() {
    let mut entries = canonical_entries();
    entries.pop();
    assert_eq!(Catalog::build(entries).err(), Some(SimError::CatalogSize));
    let mut four = canonical_entries();
    four.push(CatalogEntry {
        label: EnemyCategory::Small,
        path: String::from("enemy-small.png"),
        frame_width: 16,
        frame_height: 16,
    });
    assert_eq!(Catalog::build(four).err(), Some(SimError::CatalogSize));
}

#[test]
fn canonical_catalog_frame_sizes_and_paths() {
    let entries = canonical_entries();
    assert_eq!(entries[0].path, "enemy-small.png");
    assert_eq!((entries[0].frame_width, entries[0].frame_height), (16, 16));
    assert_eq!(entries[1].path, "enemy-medium.png");
    assert_eq!((entries[1].frame_width, entries[1].frame_height), (32, 16));
    assert_eq!(entries[2].path, "enemy-big.png");
    assert_eq!((entries[2].frame_width, entries[2].frame_height), (32, 32));
}

#[test]
fn spawner_rejects_zero_interval() {
    let r = EnemySpawner::new(0, -100_000, 100_000, -330_000, 2, 3_000);
    assert_eq!(r.err(), Some(SimError::NonPositiveInterval));
}

#[test]
fn draw_sequence_places_three_enemies() {
    // three firings whose draws are category indices 1, 2, 0 and chosen
    // in-bounds positions, over the field [-100, 100]: the enemies come
    // out Medium, Big, Small at the drawn positions, all on the fixed
    // spawn row and layer
    let s = bounded_spawner(-100_000, 100_000);
    let draws = [(1usize, 50_000i64), (2, -70_000), (0, 0)];
    let expected = [EnemyCategory::Medium, EnemyCategory::Big, EnemyCategory::Small];
    for ((category_index, x), want) in draws.iter().zip(expected.iter()) {
        let e = s.make_enemy(*category_index, *x);
        assert_eq!(e.category, *want);
        assert_eq!(e.transform.x_milli, *x);
        assert_eq!(e.transform.y_milli, -330_000);
        assert_eq!(e.transform.z_layer, 2);
        assert_eq!(e.transform.scale_milli, 3_000);
    }
}

#[test]
fn category_indices_in_catalog_order() {
    assert_eq!(category_of(0), EnemyCategory::Small);
    assert_eq!(category_of(1), EnemyCategory::Medium);
    assert_eq!(category_of(2), EnemyCategory::Big);
}

#[test]
fn never_fires_more_than_once_per_interval() {
    let mut s = bounded_spawner(-100_000, 100_000);
    // 0.25 s elapse: two firings, leaving 0.05 s accumulated
    let spawned = s.tick(250_000);
    assert_eq!(spawned.len(), 2);
    assert_eq!(s.timer.acc_us, 50_000);
    // 0.04 s more do not reach the next interval
    let spawned = s.tick(40_000);
    assert_eq!(spawned.len(), 0);
    assert_eq!(s.timer.acc_us, 90_000);
    // the missing 0.01 s complete it exactly
    let spawned = s.tick(10_000);
    assert_eq!(spawned.len(), 1);
    assert_eq!(s.timer.acc_us, 0);
}

#[test]
fn random_spawns_respect_bounds_and_placement() {
    let mut s = bounded_spawner(-5_000, 5_000);
    let mut seen = 0;
    for _ in 0..50 {
        for e in s.tick(100_000) {
            assert!(-5_000 <= e.transform.x_milli && e.transform.x_milli <= 5_000);
            assert_eq!(e.transform.y_milli, -330_000);
            assert_eq!(e.transform.z_layer, 2);
            assert_eq!(e.transform.scale_milli, 3_000);
            seen += 1;
        }
    }
    assert_eq!(seen, 50);
}

#[test]
fn degenerate_range_pins_spawn_position() {
    // equal bounds leave the draw no choice: the wrapper's result must be
    // the single in-range value
    let mut s = bounded_spawner(42_000, 42_000);
    let spawned = s.tick(100_000);
    assert_eq!(spawned.len(), 1);
    assert_eq!(spawned[0].transform.x_milli, 42_000);
}
