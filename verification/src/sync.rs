//! The decisions of a library sync with a RomM server: paging through the
//! server's ROM list, skipping ROMs already seen, making a game of each ROM
//! and naming cover files. The caller fetches the pages.

use std::collections::HashSet;

use vstd::prelude::*;
use vstd::string::*;

use crate::text::{decimal, decimal_string};

verus! {

broadcast use vstd::std_specs::hash::group_hash_axioms;

/// The ROM ids met so far in a sync.
pub struct SeenIds {
    ids: HashSet<i32>,
}

impl View for SeenIds {
    type V = Set<i32>;

    closed spec fn view(&self) -> Set<i32> {
        self.ids@
    }
}

impl SeenIds {
    /// No id seen yet.
    pub fn new() -> (s: SeenIds)
        ensures
            s@ == Set::<i32>::empty(),
    {
        SeenIds { ids: HashSet::new() }
    }

    /// Notes `id` as seen; whether it was new.
    pub fn insert(&mut self, id: i32) -> (new: bool)
        ensures
            final(self)@ == old(self)@.insert(id),
            new == !old(self)@.contains(id),
    {
        self.ids.insert(id)
    }
}

/// Where the next page of the server's ROM list starts, after a page of
/// `page_len` ROMs fetched at `offset` out of `total`: none when the page
/// was empty or the list is exhausted.
pub fn next_page_offset(offset: i32, page_len: usize, total: i32) -> (next: Option<i32>)
    requires
        page_len <= i32::MAX,
        offset + page_len <= i32::MAX,
    ensures
        next == if page_len == 0 || offset + page_len >= total {
            None::<i32>
        } else {
            Some((offset + page_len) as i32)
        },
{
    if page_len == 0 {
        return None;
    }
    let fetched = offset + page_len as i32;
    if fetched >= total {
        None
    } else {
        Some(fetched)
    }
}

/// The file a ROM's cover is stored in: its id with the `.jpg` extension.
pub fn cover_file_name(rom_id: i32) -> (name: String)
    ensures
        name@ == decimal(rom_id as int) + ".jpg"@,
{
    let mut name = decimal_string(rom_id);
    name.append(".jpg");
    name
}

/// A release year as the sync keeps it: only a year after year zero.
pub fn valid_release_year(year: Option<i32>) -> (r: Option<i32>)
    ensures
        r == match year {
            Some(y) => if y > 0 { Some(y) } else { None::<i32> },
            None => None::<i32>,
        },
{
    match year {
        Some(y) => if y > 0 {
            Some(y)
        } else {
            None
        },
        None => None,
    }
}

/// Whether a downloaded cover is kept: more than a hundred bytes, so that an
/// error page is not saved as an image.
pub fn cover_worth_saving(byte_count: usize) -> (keep: bool)
    ensures
        keep == (byte_count > 100),
{
    byte_count > 100
}

/// The calendar year (UTC) of the Unix time `secs` as chrono gives it, or
/// none outside chrono's range.
pub uninterp spec fn timestamp_year(secs: i64) -> Option<i32>;

/// The year of the Unix time `secs`: `chrono::DateTime::from_timestamp`
/// with no nanoseconds, then `Datelike::year`.
/// Trusted: the result is `timestamp_year(secs)`. It depends on `secs`
/// alone: the date is taken in UTC, not in the machine's time zone. What
/// the year is for a given time is not claimed.
#[verifier::external_body]
fn year_of_timestamp(secs: i64) -> (y: Option<i32>)
    ensures
        y == timestamp_year(secs),
{
    match chrono::DateTime::<chrono::Utc>::from_timestamp(secs, 0) {
        Some(dt) => Some(chrono::Datelike::year(&dt)),
        None => None,
    }
}

/// A ROM of a page of the server's list, as the sync reads it: its id,
/// name, platform slug, file name, whether it has a cover, and the Unix
/// time of its first release, if known.
pub struct RemoteRom {
    pub id: i32,
    pub name: String,
    pub platform_slug: String,
    pub fs_name: String,
    pub has_cover: bool,
    pub first_release_date: Option<i64>,
}

/// The mathematical model of a [`RemoteRom`].
pub struct RemoteRomView {
    pub id: i32,
    pub name: Seq<char>,
    pub platform_slug: Seq<char>,
    pub fs_name: Seq<char>,
    pub has_cover: bool,
    pub first_release_date: Option<i64>,
}

impl View for RemoteRom {
    type V = RemoteRomView;

    open spec fn view(&self) -> RemoteRomView {
        RemoteRomView {
            id: self.id,
            name: self.name@,
            platform_slug: self.platform_slug@,
            fs_name: self.fs_name@,
            has_cover: self.has_cover,
            first_release_date: self.first_release_date,
        }
    }
}

/// The models of a page of ROMs.
pub open spec fn rom_views(p: Seq<RemoteRom>) -> Seq<RemoteRomView> {
    p.map_values(|r: RemoteRom| r@)
}

/// A game the sync brings into the library, from the server.
pub struct SyncedGame {
    pub romm_id: i32,
    pub name: String,
    pub platform_slug: String,
    pub file_path: String,
    /// The file name of its cover in the covers directory, when it has one.
    pub cover_file: Option<String>,
    pub release_year: Option<i32>,
    pub is_favorite: bool,
    pub play_count: i32,
    pub play_time_minutes: i32,
    /// Where a downloaded copy is kept; none for a game only on the server.
    pub local_file_path: Option<String>,
}

/// The mathematical model of a [`SyncedGame`].
pub struct SyncedGameView {
    pub romm_id: i32,
    pub name: Seq<char>,
    pub platform_slug: Seq<char>,
    pub file_path: Seq<char>,
    pub cover_file: Option<Seq<char>>,
    pub release_year: Option<i32>,
    pub is_favorite: bool,
    pub play_count: i32,
    pub play_time_minutes: i32,
    pub local_file_path: Option<Seq<char>>,
}

impl View for SyncedGame {
    type V = SyncedGameView;

    open spec fn view(&self) -> SyncedGameView {
        SyncedGameView {
            romm_id: self.romm_id,
            name: self.name@,
            platform_slug: self.platform_slug@,
            file_path: self.file_path@,
            cover_file: crate::text::opt_view(self.cover_file),
            release_year: self.release_year,
            is_favorite: self.is_favorite,
            play_count: self.play_count,
            play_time_minutes: self.play_time_minutes,
            local_file_path: crate::text::opt_view(self.local_file_path),
        }
    }
}

/// The models of a list of synced games.
pub open spec fn synced_views(g: Seq<SyncedGame>) -> Seq<SyncedGameView> {
    g.map_values(|x: SyncedGame| x@)
}

/// The game the sync makes of the ROM `r`: its id, name, platform slug and
/// file name, the cover file `<id>.jpg` when it has a cover, and the year
/// of its first release when that is after year zero; not a favourite,
/// never played, and with no local copy.
pub open spec fn synced_from(r: RemoteRomView) -> SyncedGameView {
    SyncedGameView {
        romm_id: r.id,
        name: r.name,
        platform_slug: r.platform_slug,
        file_path: r.fs_name,
        cover_file: if r.has_cover { Some(decimal(r.id as int) + ".jpg"@) } else { None },
        release_year: match r.first_release_date {
            Some(secs) => match timestamp_year(secs) {
                Some(y) => if y > 0 { Some(y) } else { None },
                None => None,
            },
            None => None,
        },
        is_favorite: false,
        play_count: 0,
        play_time_minutes: 0,
        local_file_path: None,
    }
}

/// The game the sync makes of the ROM `rom`.
pub fn synced_game(rom: &RemoteRom) -> (g: SyncedGame)
    ensures
        g@ == synced_from(rom@),
{
    SyncedGame {
        romm_id: rom.id,
        name: crate::text::copy_string(&rom.name),
        platform_slug: crate::text::copy_string(&rom.platform_slug),
        file_path: crate::text::copy_string(&rom.fs_name),
        cover_file: if rom.has_cover { Some(cover_file_name(rom.id)) } else { None },
        release_year: valid_release_year(
            match rom.first_release_date {
                Some(secs) => year_of_timestamp(secs),
                None => None,
            },
        ),
        is_favorite: false,
        play_count: 0,
        play_time_minutes: 0,
        local_file_path: None,
    }
}

/// Going through the ROMs of `page` with the ids `seen` already met: the
/// ids met afterwards, and the ROMs kept, those whose id was not met
/// before, in their order.
pub open spec fn after_page(seen: Set<i32>, page: Seq<RemoteRomView>) -> (Set<i32>, Seq<RemoteRomView>)
    decreases page.len(),
{
    if page.len() == 0 {
        (seen, Seq::empty())
    } else {
        let before = after_page(seen, page.drop_last());
        let r = page.last();
        if before.0.contains(r.id) {
            before
        } else {
            (before.0.insert(r.id), before.1.push(r))
        }
    }
}

/// The number of ROMs asked for in one page.
pub open spec fn page_size() -> i32 {
    100
}

/// What the sync asks for next.
#[derive(Debug, Clone, Copy, PartialEq, Eq, Structural)]
pub enum SyncStep {
    /// Fetch the page of `limit` ROMs that starts at `offset`.
    FetchPage { offset: i32, limit: i32 },
    /// The sync is over.
    Finished,
}

/// The state of a library sync: where the next page starts, the ROM ids
/// met so far, and the games brought in so far.
pub struct LibrarySync {
    offset: i32,
    seen: SeenIds,
    games: Vec<SyncedGame>,
}

/// The mathematical model of a [`LibrarySync`].
pub struct LibrarySyncView {
    pub offset: i32,
    pub seen: Set<i32>,
    pub games: Seq<SyncedGameView>,
}

impl View for LibrarySync {
    type V = LibrarySyncView;

    closed spec fn view(&self) -> LibrarySyncView {
        LibrarySyncView { offset: self.offset, seen: self.seen@, games: synced_views(self.games@) }
    }
}

/// A sync state is sound when no ROM id was brought in twice, every game
/// brought in has a met id, and the next page starts at a position.
pub open spec fn sync_wf(v: LibrarySyncView) -> bool {
    &&& v.offset >= 0
    &&& forall|i: int, j: int| 0 <= i < j < v.games.len() ==> #[trigger] v.games[i].romm_id != #[trigger] v.games[j].romm_id
    &&& forall|i: int| 0 <= i < v.games.len() ==> v.seen.contains(#[trigger] v.games[i].romm_id)
}

impl LibrarySync {
    /// A sync that has met nothing yet; it first fetches the page at 0.
    pub fn new() -> (r: (LibrarySync, SyncStep))
        ensures
            r.0@ == (LibrarySyncView { offset: 0, seen: Set::empty(), games: Seq::empty() }),
            sync_wf(r.0@),
            r.1 == (SyncStep::FetchPage { offset: 0, limit: page_size() }),
    {
        let s = LibrarySync { offset: 0, seen: SeenIds::new(), games: Vec::new() };
        assert(s@.games =~= Seq::<SyncedGameView>::empty());
        (s, SyncStep::FetchPage { offset: 0, limit: 100 })
    }

    /// The games brought in so far, in the order they were met.
    pub fn games(&self) -> (g: &Vec<SyncedGame>)
        ensures
            synced_views(g@) == self@.games,
    {
        &self.games
    }

    /// Takes in the page `page` fetched at the current offset, out of the
    /// `total` ROMs of the server: the ROMs not met before become games, in
    /// their order; the sync then fetches the next page, or is over when the
    /// page was empty or the list is exhausted.
    pub fn take_page(&mut self, page: &Vec<RemoteRom>, total: i32) -> (step: SyncStep)
        requires
            sync_wf(old(self)@),
            old(self)@.offset + page.len() <= i32::MAX,
        ensures
            final(self)@.seen == after_page(old(self)@.seen, rom_views(page@)).0,
            final(self)@.games == old(self)@.games + after_page(old(self)@.seen, rom_views(page@)).1.map_values(
                |r: RemoteRomView| synced_from(r),
            ),
            step == if page.len() == 0 || old(self)@.offset + page.len() >= total {
                SyncStep::Finished
            } else {
                SyncStep::FetchPage { offset: (old(self)@.offset + page.len()) as i32, limit: page_size() }
            },
            final(self)@.offset == if step is FetchPage {
                (old(self)@.offset + page.len()) as i32
            } else {
                old(self)@.offset
            },
            sync_wf(final(self)@),
    {
        let ghost v0 = self@;
        let ghost pv = rom_views(page@);
        let mut i: usize = 0;
        while i < page.len()
            invariant
                pv == rom_views(page@),
                i <= page.len(),
                self.offset == v0.offset,
                self@.seen == after_page(v0.seen, pv.take(i as int)).0,
                self@.games == v0.games + after_page(v0.seen, pv.take(i as int)).1.map_values(
                    |r: RemoteRomView| synced_from(r),
                ),
                sync_wf(self@),
            decreases page.len() - i,
        {
            let rom = &page[i];
            assert(pv.take(i + 1).drop_last() =~= pv.take(i as int));
            assert(pv.take(i + 1).last() == rom@);
            let ghost kept = after_page(v0.seen, pv.take(i as int)).1;
            let ghost before = self@;
            if self.seen.insert(rom.id) {
                let g = synced_game(rom);
                let ghost old_games = self.games@;
                self.games.push(g);
                proof {
                    let f = |r: RemoteRomView| synced_from(r);
                    assert(kept.push(rom@).map_values(f) =~= kept.map_values(f).push(synced_from(rom@)));
                    assert(synced_views(self.games@) =~= synced_views(old_games).push(g@));
                    assert(self@.games =~= v0.games + after_page(v0.seen, pv.take(i + 1)).1.map_values(f));
                    {
                        let n = before.games.len();
                        assert forall|a: int, b: int| 0 <= a < b < self@.games.len() implies #[trigger] self@.games[a].romm_id
                            != #[trigger] self@.games[b].romm_id by {
                            if b == n {
                                assert(self@.games[a] == before.games[a]);
                                assert(before.seen.contains(before.games[a].romm_id));
                            } else {
                                assert(self@.games[a] == before.games[a]);
                                assert(self@.games[b] == before.games[b]);
                            }
                        }
                        assert forall|a: int| 0 <= a < self@.games.len() implies self@.seen.contains(
                            #[trigger] self@.games[a].romm_id,
                        ) by {
                            if a < n {
                                assert(self@.games[a] == before.games[a]);
                            }
                        }
                    }
                }
            } else {
                assert(self@.seen =~= before.seen);
            }
            i = i + 1;
        }
        assert(pv.take(page.len() as int) =~= pv);
        match next_page_offset(self.offset, page.len(), total) {
            Some(next) => {
                self.offset = next;
                SyncStep::FetchPage { offset: next, limit: 100 }
            },
            None => SyncStep::Finished,
        }
    }
}

} // verus!
