//! The enemy-category catalog: a static mapping from each category to its
//! sprite-sheet reference and native frame size, built once at startup
//! from a fixed list of entries and read-only thereafter.

use vstd::prelude::*;

verus! {

use crate::SimError;

/// How many enemy categories the catalog must resolve.
pub const ENEMY_CATEGORY_COUNT: usize = 3;

/// The enumerated enemy kinds.
#[derive(Clone, Copy, Debug, PartialEq, Eq, Structural)]
pub enum EnemyCategory {
    /// The large enemy sprite.
    Big,
    /// The medium enemy sprite.
    Medium,
    /// The small enemy sprite.
    Small,
}

/// The category selected by a uniform draw in `[0, ENEMY_CATEGORY_COUNT)`,
/// in catalog order: the smallest sprite first.
pub open spec fn spec_category_of(i: int) -> EnemyCategory {
    if i == 0 {
        EnemyCategory::Small
    } else if i == 1 {
        EnemyCategory::Medium
    } else {
        EnemyCategory::Big
    }
}

/// Maps a drawn index to its enemy category, in catalog order.
pub fn category_of(i: usize) -> (c: EnemyCategory)
    requires
        i < ENEMY_CATEGORY_COUNT,
    ensures
        c == spec_category_of(i as int),
{
    if i == 0 {
        EnemyCategory::Small
    } else if i == 1 {
        EnemyCategory::Medium
    } else {
        EnemyCategory::Big
    }
}

/// One resolved catalog entry: a category label, the sprite-sheet asset it
/// is drawn from, and that sheet's native frame size in pixels.
#[derive(Clone, Debug, PartialEq, Eq)]
pub struct CatalogEntry {
    /// The category this entry describes.
    pub label: EnemyCategory,
    /// The sprite-sheet asset path.
    pub path: String,
    /// Native frame width in pixels.
    pub frame_width: u32,
    /// Native frame height in pixels.
    pub frame_height: u32,
}

/// The startup-built, read-only catalog; indexed by the spawner's uniform
/// category draw.
pub struct Catalog {
    /// The resolved entries, exactly one per category.
    pub entries: Vec<CatalogEntry>,
}

impl Catalog {
    /// A catalog is well formed when it resolved exactly one entry per
    /// category.
    pub open spec fn wf(self) -> bool {
        self.entries.len() == ENEMY_CATEGORY_COUNT
    }

    /// Builds the catalog from the resolved entries; resolving any other
    /// number of categories than expected is a fatal startup error.
    pub fn build(entries: Vec<CatalogEntry>) -> (r: Result<Catalog, SimError>)
        ensures
            r is Ok <==> entries@.len() == ENEMY_CATEGORY_COUNT,
            r is Ok ==> r->Ok_0.wf() && r->Ok_0.entries@ == entries@,
            r is Err ==> r->Err_0 == SimError::CatalogSize,
    {
        if entries.len() == ENEMY_CATEGORY_COUNT {
            Ok(Catalog { entries })
        } else {
            Err(SimError::CatalogSize)
        }
    }

    /// The entry a drawn index selects.
    pub fn entry(&self, i: usize) -> (e: &CatalogEntry)
        requires
            self.wf(),
            i < ENEMY_CATEGORY_COUNT,
        ensures
            e == self.entries@[i as int],
    {
        &self.entries[i]
    }
}

/// The canonical fixed list the catalog is built from: the three enemy
/// sprite sheets with their native frame sizes, in catalog order.
pub fn canonical_entries() -> (entries: Vec<CatalogEntry>)
    ensures
        entries@.len() == ENEMY_CATEGORY_COUNT,
        entries@[0].label == EnemyCategory::Small,
        entries@[1].label == EnemyCategory::Medium,
        entries@[2].label == EnemyCategory::Big,
        forall|i: int|
            0 <= i < ENEMY_CATEGORY_COUNT ==> #[trigger] entries@[i].label == spec_category_of(i),
        entries@[0].frame_width == 16 && entries@[0].frame_height == 16,
        entries@[1].frame_width == 32 && entries@[1].frame_height == 16,
        entries@[2].frame_width == 32 && entries@[2].frame_height == 32,
        entries@[0].path@ == "enemy-small.png"@,
        entries@[1].path@ == "enemy-medium.png"@,
        entries@[2].path@ == "enemy-big.png"@,
{
    let mut entries: Vec<CatalogEntry> = Vec::new();
    entries.push(
        CatalogEntry {
            label: EnemyCategory::Small,
            path: String::from_str("enemy-small.png"),
            frame_width: 16,
            frame_height: 16,
        },
    );
    entries.push(
        CatalogEntry {
            label: EnemyCategory::Medium,
            path: String::from_str("enemy-medium.png"),
            frame_width: 32,
            frame_height: 16,
        },
    );
    entries.push(
        CatalogEntry {
            label: EnemyCategory::Big,
            path: String::from_str("enemy-big.png"),
            frame_width: 32,
            frame_height: 32,
        },
    );
    entries
}

} // verus!
