//! The decisions of the launcher's database layer: which stored emulator
//! setting applies to a game, and the order the built-in rows are stored in.

use vstd::prelude::*;

use crate::models::collection::{collection_views, default_smart_collection_table, default_smart_collections, Collection, CollectionView};
use crate::models::emulator::EmulatorConfig;
use crate::models::platform::{default_platform_table, default_platforms, platform_views, Platform, PlatformView};

verus! {

/// The stored emulator setting that applies to a game: the game's own
/// setting, else its platform's default, else the default for every
/// platform; given the rows each of those three queries found.
pub fn select_emulator_config(
    for_game: Option<EmulatorConfig>,
    platform_default: Option<EmulatorConfig>,
    global_default: Option<EmulatorConfig>,
) -> (r: Option<EmulatorConfig>)
    ensures
        r == if for_game is Some {
            for_game
        } else if platform_default is Some {
            platform_default
        } else {
            global_default
        },
{
    if for_game.is_some() {
        return for_game;
    }
    if platform_default.is_some() {
        return platform_default;
    }
    global_default
}

/// The built-in platforms with their position in the list as sort order.
pub open spec fn ordered_platform_table() -> Seq<PlatformView> {
    default_platform_table().map(|i: int, p: PlatformView| PlatformView { sort_order: i as i32, ..p })
}

/// The built-in platforms as they are first stored: each with its position
/// in the list as its sort order.
pub fn ordered_default_platforms() -> (r: Vec<Platform>)
    ensures
        platform_views(r@) == ordered_platform_table(),
{
    let mut rest = default_platforms();
    let ghost t = default_platform_table();
    let mut platforms: Vec<Platform> = Vec::new();
    let mut i: usize = 0;
    assert(t.skip(0) =~= t);
    while rest.len() > 0
        invariant
            t == default_platform_table(),
            platform_views(rest@) == t.skip(i as int),
            platform_views(platforms@) == ordered_platform_table().take(i as int),
            i + rest.len() == t.len(),
        decreases rest.len(),
    {
        assert(platform_views(rest@)[0] == rest@[0]@);
        let ghost before = rest@;
        let mut x = rest.remove(0);
        assert(x@ == t[i as int]);
        assert(platform_views(rest@) =~= t.skip(i + 1)) by {
            assert forall|j: int| 0 <= j < rest@.len() implies #[trigger] platform_views(rest@)[j] == t.skip(i + 1)[j] by {
                assert(rest@[j] == before[j + 1]);
                assert(platform_views(before)[j + 1] == t.skip(i as int)[j + 1]);
            }
        }
        x.sort_order = i as i32;
        let ghost done = platforms@;
        let ghost xv = x@;
        assert(ordered_platform_table().len() == t.len());
        assert(xv == ordered_platform_table()[i as int]);
        assert(platform_views(done).len() == i);
        platforms.push(x);
        assert(platform_views(platforms@) =~= ordered_platform_table().take(i + 1)) by {
            assert forall|j: int| 0 <= j < platforms@.len() implies #[trigger] platform_views(platforms@)[j] == ordered_platform_table().take(i + 1)[j] by {
                if j < i {
                    assert(platform_views(done)[j] == ordered_platform_table().take(i as int)[j]);
                } else {
                    assert(j == i);
                    assert(platforms@[j]@ == xv);
                }
            }
        }
        i = i + 1;
    }
    assert(ordered_platform_table().take(i as int) =~= ordered_platform_table());
    platforms
}

/// The default smart collections with their position as sort order.
pub open spec fn ordered_collection_table() -> Seq<CollectionView> {
    default_smart_collection_table().map(|i: int, c: CollectionView| CollectionView { sort_order: i as i32, ..c })
}

/// The default smart collections as they are first stored: each with its
/// position in the list as its sort order.
pub fn ordered_default_collections() -> (r: Vec<Collection>)
    ensures
        collection_views(r@) == ordered_collection_table(),
{
    let mut rest = default_smart_collections();
    let ghost t = default_smart_collection_table();
    let mut collections: Vec<Collection> = Vec::new();
    let mut i: usize = 0;
    assert(t.skip(0) =~= t);
    while rest.len() > 0
        invariant
            t == default_smart_collection_table(),
            collection_views(rest@) == t.skip(i as int),
            collection_views(collections@) == ordered_collection_table().take(i as int),
            i + rest.len() == t.len(),
        decreases rest.len(),
    {
        assert(collection_views(rest@)[0] == rest@[0]@);
        let ghost before = rest@;
        let mut x = rest.remove(0);
        assert(x@ == t[i as int]);
        assert(collection_views(rest@) =~= t.skip(i + 1)) by {
            assert forall|j: int| 0 <= j < rest@.len() implies #[trigger] collection_views(rest@)[j] == t.skip(i + 1)[j] by {
                assert(rest@[j] == before[j + 1]);
                assert(collection_views(before)[j + 1] == t.skip(i as int)[j + 1]);
            }
        }
        x.sort_order = i as i32;
        let ghost done = collections@;
        let ghost xv = x@;
        assert(ordered_collection_table().len() == t.len());
        assert(xv == ordered_collection_table()[i as int]);
        assert(collection_views(done).len() == i);
        collections.push(x);
        assert(collection_views(collections@) =~= ordered_collection_table().take(i + 1)) by {
            assert forall|j: int| 0 <= j < collections@.len() implies #[trigger] collection_views(collections@)[j] == ordered_collection_table().take(i + 1)[j] by {
                if j < i {
                    assert(collection_views(done)[j] == ordered_collection_table().take(i as int)[j]);
                } else {
                    assert(j == i);
                    assert(collections@[j]@ == xv);
                }
            }
        }
        i = i + 1;
    }
    assert(ordered_collection_table().take(i as int) =~= ordered_collection_table());
    collections
}

} // verus!
