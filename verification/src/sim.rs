//! The whole simulation: one tick advances the background scroller, the
//! ship's animation, the ship controller and the enemy spawner, all under
//! the same frame-coherent elapsed-time delta and the same input snapshot.
//!
//! The components read and write disjoint state, so their order within a
//! tick is unobservable; the order here follows the scroller, animator,
//! ship, spawner sequence of the canonical session.

use vstd::prelude::*;

verus! {

use crate::SimError;
use crate::animation::AnimationIndices;
use crate::animation::AnimationState;
use crate::background::BackgroundScroller;
use crate::background::spec_scroll_disp;
use crate::background::spec_wrapped;
use crate::catalog::Catalog;
use crate::catalog::CatalogEntry;
use crate::catalog::ENEMY_CATEGORY_COUNT;
use crate::ship::ShipController;
use crate::spawner::Enemy;
use crate::spawner::EnemySpawner;
use crate::timer::spec_acc_after;
use crate::timer::spec_fires;
use crate::transform::Transform;

/// The global sprite scale, in thousandths: every sprite is drawn at three
/// times its native size.
pub const SCALE_MILLI: i64 = 3_000;

/// Right edge of the playable field in milli-units: half the 768-unit
/// viewport width minus half the ship sprite's 48-unit scaled width.
pub const FIELD_RIGHT_MILLI: i64 = 360_000;

/// Left edge of the playable field, the mirror of the right edge.
pub const FIELD_LEFT_MILLI: i64 = -360_000;

/// Ship speed: 75 native units per second at the global scale of three.
pub const SHIP_SPEED_MILLI_PER_SEC: u32 = 225_000;

/// Background scroll velocity: one scaled unit downward per frame at the
/// canonical sixty frames per second.
pub const SCROLL_SPEED_MILLI_PER_SEC: i32 = -180_000;

/// The vertical extent one background tile covers: its 608-unit logical
/// height at the global scale of three.
pub const BG_PERIOD_MILLI: i64 = 1_824_000;

/// How many background tiles are kept in flight for seamless coverage.
pub const BG_TILE_COUNT: usize = 2;

/// The ship animation's fixed toggle interval: a tenth of a second.
pub const ANIMATION_INTERVAL_US: u64 = 100_000;

/// The enemy spawner's fixed interval: a tenth of a second.
pub const SPAWN_INTERVAL_US: u64 = 100_000;

/// The fixed row near the lower edge where the ship sits and where
/// enemies appear: 110 units below the origin at the global scale.
pub const SPAWN_ROW_MILLI: i64 = -330_000;

/// Draw layer of the background tiles.
pub const BACKGROUND_LAYER: i64 = 0;

/// Draw layer of the ship, above the background.
pub const SHIP_LAYER: i64 = 1;

/// Draw layer of spawned enemies, above the ship so paint order is
/// deterministic.
pub const ENEMY_LAYER: i64 = 2;

/// First frame of the ship's two-frame exhaust animation range.
pub const SHIP_FIRST_FRAME: usize = 2;

/// Last frame of the ship's animation range.
pub const SHIP_LAST_FRAME: usize = 7;

/// The full per-session state: the scrolling background, the unique ship
/// with its animation, the periodic spawner, the read-only enemy catalog,
/// and every enemy spawned so far.
///
/// Nothing ever removes an enemy: the list grows without bound, a
/// documented limitation of the modelled behaviour.
pub struct Simulation {
    /// The scrolling background tiles.
    pub background: BackgroundScroller,
    /// The unique player ship; cardinality one is enforced at
    /// construction and then holds by the shape of this struct.
    pub ship: ShipController,
    /// The ship's two-frame exhaust animation.
    pub ship_animation: AnimationState,
    /// The periodic randomized enemy spawner.
    pub spawner: EnemySpawner,
    /// The immutable enemy-category catalog.
    pub catalog: Catalog,
    /// Every enemy spawned so far, in spawn order.
    pub enemies: Vec<Enemy>,
}

impl Simulation {
    /// Every component is well formed, and the spawner draws positions
    /// from the same playable field that bounds the ship.
    pub open spec fn wf(self) -> bool {
        &&& self.background.wf()
        &&& self.ship.wf()
        &&& self.ship_animation.wf()
        &&& self.spawner.wf()
        &&& self.catalog.wf()
        &&& self.spawner.left_bound == self.ship.left_bound
        &&& self.spawner.right_bound == self.ship.right_bound
    }

    /// Builds a session from the candidate ship transforms and the
    /// resolved catalog entries, with every other parameter canonical.
    ///
    /// Startup is the only place errors can arise: anything other than
    /// exactly one ship is a cardinality violation, and a catalog that
    /// resolved the wrong number of categories is rejected after that.
    pub fn new(ship_starts: Vec<Transform>, catalog_entries: Vec<CatalogEntry>) -> (r: Result<
        Simulation,
        SimError,
    >)
        requires
            ship_starts@.len() == 1 ==> FIELD_LEFT_MILLI <= ship_starts@[0].x_milli
                <= FIELD_RIGHT_MILLI,
        ensures
            r is Ok <==> (ship_starts@.len() == 1 && catalog_entries@.len()
                == ENEMY_CATEGORY_COUNT),
            ship_starts@.len() != 1 ==> r is Err && r->Err_0 == SimError::ShipCardinality,
            ship_starts@.len() == 1 && catalog_entries@.len() != ENEMY_CATEGORY_COUNT ==> r is Err
                && r->Err_0 == SimError::CatalogSize,
            r is Ok ==> {
                let s = r->Ok_0;
                &&& s.wf()
                &&& s.background.speed == SCROLL_SPEED_MILLI_PER_SEC
                &&& s.background.period_milli == BG_PERIOD_MILLI
                &&& s.background.ys_milli@.len() == BG_TILE_COUNT
                &&& forall|i: int|
                    0 <= i < BG_TILE_COUNT ==> s.background.ys_milli@[i] == i * BG_PERIOD_MILLI
                &&& s.ship.x_milli == ship_starts@[0].x_milli
                &&& s.ship.speed == SHIP_SPEED_MILLI_PER_SEC
                &&& s.ship.left_bound == FIELD_LEFT_MILLI
                &&& s.ship.right_bound == FIELD_RIGHT_MILLI
                &&& s.ship_animation.indices == (AnimationIndices {
                    first: SHIP_FIRST_FRAME,
                    last: SHIP_LAST_FRAME,
                })
                &&& s.ship_animation.current == SHIP_FIRST_FRAME
                &&& s.ship_animation.timer.interval_us == ANIMATION_INTERVAL_US
                &&& s.ship_animation.timer.acc_us == 0
                &&& s.spawner.timer.interval_us == SPAWN_INTERVAL_US
                &&& s.spawner.timer.acc_us == 0
                &&& s.spawner.left_bound == FIELD_LEFT_MILLI
                &&& s.spawner.right_bound == FIELD_RIGHT_MILLI
                &&& s.spawner.spawn_y_milli == SPAWN_ROW_MILLI
                &&& s.spawner.spawn_z == ENEMY_LAYER
                &&& s.spawner.scale_milli == SCALE_MILLI
                &&& s.catalog.entries@ == catalog_entries@
                &&& s.enemies@.len() == 0
            },
    {
        if ship_starts.len() != 1 {
            return Err(SimError::ShipCardinality);
        }
        let catalog = Catalog::build(catalog_entries)?;
        let background = BackgroundScroller::new(
            BG_TILE_COUNT,
            BG_PERIOD_MILLI,
            SCROLL_SPEED_MILLI_PER_SEC,
        );
        let ship = ShipController::new(
            ship_starts[0].x_milli,
            SHIP_SPEED_MILLI_PER_SEC,
            FIELD_LEFT_MILLI,
            FIELD_RIGHT_MILLI,
        );
        let ship_animation = match AnimationState::new(
            AnimationIndices { first: SHIP_FIRST_FRAME, last: SHIP_LAST_FRAME },
            SHIP_FIRST_FRAME,
            ANIMATION_INTERVAL_US,
        ) {
            Ok(a) => a,
            Err(e) => {
                return Err(e);
            },
        };
        let spawner = match EnemySpawner::new(
            SPAWN_INTERVAL_US,
            FIELD_LEFT_MILLI,
            FIELD_RIGHT_MILLI,
            SPAWN_ROW_MILLI,
            ENEMY_LAYER,
            SCALE_MILLI,
        ) {
            Ok(s) => s,
            Err(e) => {
                return Err(e);
            },
        };
        Ok(
            Simulation {
                background,
                ship,
                ship_animation,
                spawner,
                catalog,
                enemies: Vec::new(),
            },
        )
    }

    /// One simulation tick: every component observes the same elapsed
    /// delta and the same input snapshot, and advances exactly as its own
    /// contract says — the background tiles move and re-home, the ship
    /// animation accumulates and toggles, the ship integrates and clamps,
    /// and the spawner creates one enemy per firing, appended in spawn
    /// order to the live list, which nothing shortens. Returns how many
    /// enemies this tick spawned.
    pub fn tick(&mut self, move_left: bool, move_right: bool, delta_us: u64) -> (spawn_count:
        usize)
        requires
            old(self).wf(),
        ensures
            final(self).wf(),
            // background: uniform motion plus re-homing by whole spans
            final(self).background.speed == old(self).background.speed,
            final(self).background.period_milli == old(self).background.period_milli,
            final(self).background.ys_milli@.len() == old(self).background.ys_milli@.len(),
            forall|i: int|
                0 <= i < old(self).background.ys_milli@.len()
                    ==> final(self).background.ys_milli@[i] == spec_wrapped(
                    old(self).background.ys_milli@[i] + spec_scroll_disp(
                        old(self).background.speed as int,
                        delta_us as int,
                    ),
                    old(self).background.period_milli as int,
                    old(self).background.span(),
                ),
            // ship: integrate and clamp under this tick's input
            final(self).ship.speed == old(self).ship.speed,
            final(self).ship.left_bound == old(self).ship.left_bound,
            final(self).ship.right_bound == old(self).ship.right_bound,
            final(self).ship.x_milli == old(self).ship.moved_x(
                move_left,
                move_right,
                delta_us as int,
            ),
            // ship animation: same delta, toggle on every firing
            final(self).ship_animation.indices == old(self).ship_animation.indices,
            final(self).ship_animation.timer.interval_us
                == old(self).ship_animation.timer.interval_us,
            final(self).ship_animation.timer.acc_us == spec_acc_after(
                old(self).ship_animation.timer.acc_us as int,
                delta_us as int,
                old(self).ship_animation.timer.interval_us as int,
            ),
            final(self).ship_animation.current == crate::animation::spec_frame_after(
                old(self).ship_animation.current as int,
                old(self).ship_animation.indices.first as int,
                old(self).ship_animation.indices.last as int,
                spec_fires(
                    old(self).ship_animation.timer.acc_us as int,
                    delta_us as int,
                    old(self).ship_animation.timer.interval_us as int,
                ),
            ),
            // spawner: same delta, one enemy per firing
            final(self).spawner.placement() == old(self).spawner.placement(),
            final(self).spawner.timer.interval_us == old(self).spawner.timer.interval_us,
            final(self).spawner.timer.acc_us == spec_acc_after(
                old(self).spawner.timer.acc_us as int,
                delta_us as int,
                old(self).spawner.timer.interval_us as int,
            ),
            spawn_count == spec_fires(
                old(self).spawner.timer.acc_us as int,
                delta_us as int,
                old(self).spawner.timer.interval_us as int,
            ),
            // enemies: existing ones untouched, new ones appended in order
            final(self).enemies@.len() == old(self).enemies@.len() + spawn_count,
            forall|i: int|
                0 <= i < old(self).enemies@.len() ==> final(self).enemies@[i] == old(
                    self,
                ).enemies@[i],
            forall|i: int|
                old(self).enemies@.len() <= i < final(self).enemies@.len() ==> old(
                    self,
                ).spawner.spec_spawned_here(#[trigger] final(self).enemies@[i]),
            // the catalog is read-only
            final(self).catalog.entries@ == old(self).catalog.entries@,
    {
        self.background.tick(delta_us);
        self.ship_animation.tick(delta_us);
        self.ship.tick(move_left, move_right, delta_us);
        let mut spawned = self.spawner.tick(delta_us);
        let spawn_count = spawned.len();
        self.enemies.append(&mut spawned);
        spawn_count
    }

    /// The ship's spatial state as a renderer consumes it: the controlled
    /// horizontal position on the fixed row, layer and scale.
    pub fn ship_transform(&self) -> (t: Transform)
        ensures
            t.x_milli == self.ship.x_milli,
            t.y_milli == SPAWN_ROW_MILLI,
            t.z_layer == SHIP_LAYER,
            t.scale_milli == SCALE_MILLI,
    {
        Transform {
            x_milli: self.ship.x_milli,
            y_milli: SPAWN_ROW_MILLI,
            z_layer: SHIP_LAYER,
            scale_milli: SCALE_MILLI,
        }
    }

    /// The spatial state of background tile `i` as a renderer consumes it:
    /// centred horizontally, at its scrolled row, on the background layer.
    pub fn background_transform(&self, i: usize) -> (t: Transform)
        requires
            i < self.background.ys_milli@.len(),
        ensures
            t.x_milli == 0,
            t.y_milli == self.background.ys_milli@[i as int],
            t.z_layer == BACKGROUND_LAYER,
            t.scale_milli == SCALE_MILLI,
    {
        Transform {
            x_milli: 0,
            y_milli: self.background.ys_milli[i],
            z_layer: BACKGROUND_LAYER,
            scale_milli: SCALE_MILLI,
        }
    }
}

} // verus!
