//! Game collections: hand-made lists and smart collections built from a filter.

use vstd::prelude::*;
use vstd::string::*;

use crate::text::opt_view;

verus! {

/// A collection of games.
#[derive(Debug, Clone)]
pub struct Collection {
    pub id: i64,
    pub name: String,
    pub is_smart: bool,
    pub smart_filter: Option<SmartFilter>,
    pub game_ids: Vec<i64>,
    pub cover_path: Option<String>,
    pub sort_order: i32,
}

/// What a smart collection selects, and how many games at most.
#[derive(Debug, Clone, Copy, PartialEq, Eq, Structural)]
pub struct SmartFilter {
    pub filter_type: SmartFilterType,
    pub limit: Option<i32>,
}

/// The kinds of smart collection.
#[derive(Debug, Clone, Copy, PartialEq, Eq, Structural)]
pub enum SmartFilterType {
    RecentlyPlayed,
    MostPlayed,
    TopUnplayed,
    RecentlyAdded,
    Favorites,
    HighRated,
    NeverPlayed,
}

/// The mathematical model of a [`Collection`].
pub struct CollectionView {
    pub id: i64,
    pub name: Seq<char>,
    pub is_smart: bool,
    pub smart_filter: Option<SmartFilter>,
    pub game_ids: Seq<i64>,
    pub cover_path: Option<Seq<char>>,
    pub sort_order: i32,
}

impl View for Collection {
    type V = CollectionView;

    open spec fn view(&self) -> CollectionView {
        CollectionView {
            id: self.id,
            name: self.name@,
            is_smart: self.is_smart,
            smart_filter: self.smart_filter,
            game_ids: self.game_ids@,
            cover_path: opt_view(self.cover_path),
            sort_order: self.sort_order,
        }
    }
}

/// The models of a sequence of collections.
pub open spec fn collection_views(s: Seq<Collection>) -> Seq<CollectionView> {
    s.map_values(|c: Collection| c@)
}

/// A new, empty collection that is not stored yet (id 0, first in order).
pub open spec fn new_collection(name: Seq<char>, smart_filter: Option<SmartFilter>) -> CollectionView {
    CollectionView {
        id: 0,
        name,
        is_smart: smart_filter is Some,
        smart_filter,
        game_ids: seq![],
        cover_path: None,
        sort_order: 0,
    }
}

impl Collection {
    /// A new hand-made collection called `name`.
    pub fn new_manual(name: &str) -> (c: Collection)
        ensures
            c@ == new_collection(name@, None),
    {
        let c = Collection {
            id: 0,
            name: String::from_str(name),
            is_smart: false,
            smart_filter: None,
            game_ids: Vec::new(),
            cover_path: None,
            sort_order: 0,
        };
        assert(c@.game_ids =~= Seq::<i64>::empty());
        c
    }

    /// A new smart collection called `name` that selects by `filter`.
    pub fn new_smart(name: &str, filter: SmartFilter) -> (c: Collection)
        ensures
            c@ == new_collection(name@, Some(filter)),
    {
        let c = Collection {
            id: 0,
            name: String::from_str(name),
            is_smart: true,
            smart_filter: Some(filter),
            game_ids: Vec::new(),
            cover_path: None,
            sort_order: 0,
        };
        assert(c@.game_ids =~= Seq::<i64>::empty());
        c
    }
}

/// The smart collections every library starts with.
pub open spec fn default_smart_collection_table() -> Seq<CollectionView> {
    seq![
        new_collection("Recently Played"@, Some(SmartFilter { filter_type: SmartFilterType::RecentlyPlayed, limit: Some(20) })),
        new_collection("Most Played"@, Some(SmartFilter { filter_type: SmartFilterType::MostPlayed, limit: Some(20) })),
        new_collection("Top Unplayed"@, Some(SmartFilter { filter_type: SmartFilterType::TopUnplayed, limit: Some(20) })),
        new_collection("Recently Added"@, Some(SmartFilter { filter_type: SmartFilterType::RecentlyAdded, limit: Some(20) })),
        new_collection("Favorites"@, Some(SmartFilter { filter_type: SmartFilterType::Favorites, limit: None })),
    ]
}

/// The smart collections every library starts with.
pub fn default_smart_collections() -> (r: Vec<Collection>)
    ensures
        collection_views(r@) == default_smart_collection_table(),
{
    let mut v: Vec<Collection> = Vec::new();
    v.push(Collection::new_smart(
        "Recently Played",
        SmartFilter { filter_type: SmartFilterType::RecentlyPlayed, limit: Some(20) },
    ));
    v.push(Collection::new_smart(
        "Most Played",
        SmartFilter { filter_type: SmartFilterType::MostPlayed, limit: Some(20) },
    ));
    v.push(Collection::new_smart(
        "Top Unplayed",
        SmartFilter { filter_type: SmartFilterType::TopUnplayed, limit: Some(20) },
    ));
    v.push(Collection::new_smart(
        "Recently Added",
        SmartFilter { filter_type: SmartFilterType::RecentlyAdded, limit: Some(20) },
    ));
    v.push(Collection::new_smart(
        "Favorites",
        SmartFilter { filter_type: SmartFilterType::Favorites, limit: None },
    ));
    assert(collection_views(v@) =~= default_smart_collection_table());
    v
}

} // verus!
