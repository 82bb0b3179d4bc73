//! The periodic randomized enemy spawner: a fixed-interval timer gates
//! enemy creation; each firing draws a uniform-random category and a
//! uniform-random horizontal position within the play-field bounds and
//! creates a new enemy at the fixed spawn row and draw layer.
//!
//! The spawner enforces no cap on the number of live enemies; nothing in
//! the core ever removes one. That unbounded growth is a deliberate,
//! documented limitation of the modelled behaviour.

use vstd::prelude::*;

verus! {

use crate::SimError;
use crate::catalog::EnemyCategory;
use crate::catalog::ENEMY_CATEGORY_COUNT;
use crate::catalog::category_of;
use crate::catalog::spec_category_of;
use crate::timer::IntervalTimer;
use crate::timer::lemma_fires_consume_whole_intervals;
use crate::timer::spec_acc_after;
use crate::timer::spec_fires;
use crate::transform::Transform;

/// A live enemy: its category and its spatial state.
#[derive(Clone, Copy, Debug, PartialEq, Eq, Structural)]
pub struct Enemy {
    /// Which of the three enemy kinds this is.
    pub category: EnemyCategory,
    /// Where (and how large) the enemy is rendered.
    pub transform: Transform,
}

/// Relies on rand::thread_rng and rand::Rng::gen_range over the inclusive
/// range `lo..=hi`: the draw always lies within the range (and is uniform
/// over it, which no contract here can state), and the call panics only on
/// an empty range, which the precondition rules out.
#[verifier::external_body]
fn draw_in_range(lo: i64, hi: i64) -> (r: i64)
    requires
        lo <= hi,
    ensures
        lo <= r <= hi,
{
    rand::Rng::gen_range(&mut rand::thread_rng(), lo..=hi)
}

/// The periodic spawner and its fixed spawn-placement configuration.
pub struct EnemySpawner {
    /// The fixed-interval timer gating creation events.
    pub timer: IntervalTimer,
    /// Left edge of the horizontal spawn range, inclusive (milli-units).
    pub left_bound: i64,
    /// Right edge of the horizontal spawn range, inclusive (milli-units).
    pub right_bound: i64,
    /// The fixed vertical position every enemy spawns at (milli-units).
    pub spawn_y_milli: i64,
    /// The fixed draw layer of spawned enemies, distinct from the ship's
    /// so paint order is deterministic.
    pub spawn_z: i64,
    /// The uniform sprite scale of spawned enemies, in thousandths.
    pub scale_milli: i64,
}

impl EnemySpawner {
    /// Well-formed when the timer is and the spawn range is non-empty.
    pub open spec fn wf(self) -> bool {
        self.timer.wf() && self.left_bound <= self.right_bound
    }

    /// The placement configuration, without the timer state: what stays
    /// fixed from tick to tick.
    pub open spec fn placement(self) -> (int, int, int, int, int) {
        (
            self.left_bound as int,
            self.right_bound as int,
            self.spawn_y_milli as int,
            self.spawn_z as int,
            self.scale_milli as int,
        )
    }

    /// The enemy this spawner creates for a given category and drawn
    /// horizontal position.
    pub open spec fn spec_enemy_at(self, category: EnemyCategory, x_milli: int) -> Enemy {
        Enemy {
            category,
            transform: Transform {
                x_milli: x_milli as i64,
                y_milli: self.spawn_y_milli,
                z_layer: self.spawn_z,
                scale_milli: self.scale_milli,
            },
        }
    }

    /// Holds of every enemy this spawner can create: some category and
    /// some in-bounds horizontal draw produced it; everything else about
    /// it — spawn row, layer, scale — is fixed by the configuration.
    pub open spec fn spec_spawned_here(self, e: Enemy) -> bool {
        exists|c: int, x: int|
            0 <= c < ENEMY_CATEGORY_COUNT && self.left_bound <= x <= self.right_bound && e
                == self.spec_enemy_at(spec_category_of(c), x)
    }

    /// Builds the spawner, rejecting a misconfigured (zero) interval.
    pub fn new(
        interval_us: u64,
        left_bound: i64,
        right_bound: i64,
        spawn_y_milli: i64,
        spawn_z: i64,
        scale_milli: i64,
    ) -> (r: Result<EnemySpawner, SimError>)
        requires
            left_bound <= right_bound,
        ensures
            r is Ok <==> interval_us > 0,
            r is Err ==> r->Err_0 == SimError::NonPositiveInterval,
            r is Ok ==> {
                &&& r->Ok_0.wf()
                &&& r->Ok_0.timer.interval_us == interval_us
                &&& r->Ok_0.timer.acc_us == 0
                &&& r->Ok_0.left_bound == left_bound
                &&& r->Ok_0.right_bound == right_bound
                &&& r->Ok_0.spawn_y_milli == spawn_y_milli
                &&& r->Ok_0.spawn_z == spawn_z
                &&& r->Ok_0.scale_milli == scale_milli
            },
    {
        let timer = IntervalTimer::new(interval_us)?;
        Ok(EnemySpawner { timer, left_bound, right_bound, spawn_y_milli, spawn_z, scale_milli })
    }

    /// The deterministic heart of a spawn event: the enemy created from a
    /// given category draw and a given in-bounds position draw.
    pub fn make_enemy(&self, category_index: usize, x_milli: i64) -> (e: Enemy)
        requires
            self.wf(),
            category_index < ENEMY_CATEGORY_COUNT,
            self.left_bound <= x_milli <= self.right_bound,
        ensures
            e == self.spec_enemy_at(spec_category_of(category_index as int), x_milli as int),
            self.spec_spawned_here(e),
    {
        let category = category_of(category_index);
        let e = Enemy {
            category,
            transform: Transform {
                x_milli,
                y_milli: self.spawn_y_milli,
                z_layer: self.spawn_z,
                scale_milli: self.scale_milli,
            },
        };
        e
    }

    /// One simulation tick: accumulate the delta and, for every whole
    /// interval consumed, draw a uniform-random category and a
    /// uniform-random in-bounds position and create the corresponding
    /// enemy. Exactly one enemy is created per firing, each one placed by
    /// this spawner's fixed configuration.
    pub fn tick(&mut self, delta_us: u64) -> (spawned: Vec<Enemy>)
        requires
            old(self).wf(),
        ensures
            final(self).wf(),
            final(self).placement() == old(self).placement(),
            final(self).timer.interval_us == old(self).timer.interval_us,
            final(self).timer.acc_us == spec_acc_after(
                old(self).timer.acc_us as int,
                delta_us as int,
                old(self).timer.interval_us as int,
            ),
            spawned@.len() == spec_fires(
                old(self).timer.acc_us as int,
                delta_us as int,
                old(self).timer.interval_us as int,
            ),
            forall|i: int|
                0 <= i < spawned@.len() ==> old(self).spec_spawned_here(#[trigger] spawned@[i]),
    {
        let fires = self.timer.tick(delta_us);
        let mut spawned: Vec<Enemy> = Vec::new();
        let mut j: u64 = 0;
        while j < fires
            invariant
                j <= fires,
                self.wf(),
                self.placement() == old(self).placement(),
                self.left_bound == old(self).left_bound,
                self.right_bound == old(self).right_bound,
                self.spawn_y_milli == old(self).spawn_y_milli,
                self.spawn_z == old(self).spawn_z,
                self.scale_milli == old(self).scale_milli,
                spawned@.len() == j,
                forall|i: int|
                    0 <= i < spawned@.len() ==> old(self).spec_spawned_here(
                        #[trigger] spawned@[i],
                    ),
            decreases fires - j,
        {
            let c = draw_in_range(0, (ENEMY_CATEGORY_COUNT - 1) as i64);
            let x = draw_in_range(self.left_bound, self.right_bound);
            let e = self.make_enemy(c as usize, x);
            proof {
                // the draws witness that the new enemy is one this spawner
                // places
                assert(e == old(self).spec_enemy_at(spec_category_of(c as int), x as int));
                assert(old(self).spec_spawned_here(e));
            }
            spawned.push(e);
            j = j + 1;
        }
        spawned
    }
}

/// Law: the spawner never fires more often than the elapsed time contains
/// whole configured intervals — however large one delta is, every firing
/// consumes exactly one interval of accumulated time, and the leftover
/// stays below one interval.
pub proof fn lemma_spawner_consumes_whole_intervals(s: EnemySpawner, delta_us: int)
    requires
        s.wf(),
        delta_us >= 0,
    ensures
        spec_fires(s.timer.acc_us as int, delta_us, s.timer.interval_us as int)
            * s.timer.interval_us + spec_acc_after(
            s.timer.acc_us as int,
            delta_us,
            s.timer.interval_us as int,
        ) == s.timer.acc_us + delta_us,
        0 <= spec_acc_after(s.timer.acc_us as int, delta_us, s.timer.interval_us as int)
            < s.timer.interval_us,
        spec_fires(s.timer.acc_us as int, delta_us, s.timer.interval_us as int)
            * s.timer.interval_us <= s.timer.acc_us + delta_us,
{
    lemma_fires_consume_whole_intervals(
        s.timer.acc_us as int,
        delta_us,
        s.timer.interval_us as int,
    );
}

} // verus!
