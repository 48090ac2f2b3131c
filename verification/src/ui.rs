//! The library screen's decisions: which games are shown, how a platform
//! is named and coloured, and how each message changes the screen's state.

use vstd::prelude::*;
use vstd::string::*;

use crate::models::platform::{platform_views, Platform, PlatformView};
use crate::text::{contains_seq, contains_str, copy_string, lowercase, opt_view, str_eq, to_lowercase};

verus! {

/// The screens of the launcher.
#[derive(Debug, Clone, Copy, PartialEq, Eq, Structural)]
pub enum Screen {
    Library,
    GameDetails(i64),
    Settings,
    Downloads,
    Setup,
}

/// The console families whose colour marks their platforms.
#[derive(Debug, Clone, Copy, PartialEq, Eq, Structural)]
pub enum PlatformFamily {
    Nintendo,
    PlayStation,
    Sega,
    Xbox,
    Arcade,
    /// Any other platform, shown in the theme's primary colour.
    Other,
}

/// The platforms of the Nintendo family.
pub open spec fn nintendo_platforms() -> Seq<Seq<char>> {
    seq!["nes"@, "snes"@, "n64"@, "gc"@, "wii"@, "wiiu"@, "switch"@, "gb"@, "gbc"@, "gba"@, "nds"@, "3ds"@]
}

/// The platforms of the PlayStation family.
pub open spec fn playstation_platforms() -> Seq<Seq<char>> {
    seq!["psx"@, "ps2"@, "ps3"@, "psp"@, "psvita"@]
}

/// The platforms of the Sega family.
pub open spec fn sega_platforms() -> Seq<Seq<char>> {
    seq!["genesis"@, "saturn"@, "dreamcast"@]
}

/// The platforms of the Xbox family.
pub open spec fn xbox_platforms() -> Seq<Seq<char>> {
    seq!["xbox"@, "xbox360"@]
}

/// The family whose colour marks the platform `id`.
pub open spec fn family_of(id: Seq<char>) -> PlatformFamily {
    if nintendo_platforms().contains(id) {
        PlatformFamily::Nintendo
    } else if playstation_platforms().contains(id) {
        PlatformFamily::PlayStation
    } else if sega_platforms().contains(id) {
        PlatformFamily::Sega
    } else if xbox_platforms().contains(id) {
        PlatformFamily::Xbox
    } else if id == "arcade"@ {
        PlatformFamily::Arcade
    } else {
        PlatformFamily::Other
    }
}

fn any_of(id: &str, names: &Vec<&str>) -> (b: bool)
    ensures
        b == crate::text::str_views(names@).contains(id@),
{
    let mut i: usize = 0;
    while i < names.len()
        invariant
            i <= names.len(),
            forall|j: int| 0 <= j < i ==> names@[j]@ != id@,
        decreases names.len() - i,
    {
        if str_eq(names[i], id) {
            assert(crate::text::str_views(names@)[i as int] == id@);
            return true;
        }
        i = i + 1;
    }
    assert(!crate::text::str_views(names@).contains(id@)) by {
        if crate::text::str_views(names@).contains(id@) {
            let j = choose|j: int| 0 <= j < names@.len() && crate::text::str_views(names@)[j] == id@;
            assert(names@[j]@ == id@);
        }
    }
    false
}

/// The family whose colour marks the platform `platform_id`.
pub fn platform_family(platform_id: &str) -> (f: PlatformFamily)
    ensures
        f == family_of(platform_id@),
{
    let mut nintendo: Vec<&str> = Vec::new();
    nintendo.push("nes");
    nintendo.push("snes");
    nintendo.push("n64");
    nintendo.push("gc");
    nintendo.push("wii");
    nintendo.push("wiiu");
    nintendo.push("switch");
    nintendo.push("gb");
    nintendo.push("gbc");
    nintendo.push("gba");
    nintendo.push("nds");
    nintendo.push("3ds");
    assert(crate::text::str_views(nintendo@) =~= nintendo_platforms());
    if any_of(platform_id, &nintendo) {
        return PlatformFamily::Nintendo;
    }
    let playstation = crate::text::strs5("psx", "ps2", "ps3", "psp", "psvita");
    if any_of(platform_id, &playstation) {
        return PlatformFamily::PlayStation;
    }
    let sega = crate::text::strs3("genesis", "saturn", "dreamcast");
    if any_of(platform_id, &sega) {
        return PlatformFamily::Sega;
    }
    let xbox = crate::text::strs2("xbox", "xbox360");
    if any_of(platform_id, &xbox) {
        return PlatformFamily::Xbox;
    }
    if str_eq(platform_id, "arcade") {
        return PlatformFamily::Arcade;
    }
    PlatformFamily::Other
}

/// A game is listed when it belongs to the selected platform (or none is
/// selected) and, unless the search is empty, its name contains the search
/// text, both compared in lowercase.
pub open spec fn shown_in_library(
    name: Seq<char>,
    platform_id: Seq<char>,
    selected_platform: Option<Seq<char>>,
    search_query: Seq<char>,
) -> bool {
    &&& selected_platform matches Some(p) ==> platform_id == p
    &&& search_query.len() > 0 ==> contains_seq(lowercase(name), lowercase(search_query))
}

/// Whether the library lists the game called `name` of platform
/// `platform_id` under the selected platform and search text.
pub fn game_visible(name: &str, platform_id: &str, selected_platform: &Option<String>, search_query: &str) -> (b: bool)
    ensures
        b == shown_in_library(name@, platform_id@, opt_view(*selected_platform), search_query@),
{
    if let Some(platform) = selected_platform {
        if !str_eq(platform_id, platform.as_str()) {
            return false;
        }
    }
    if !search_query.is_empty() {
        let lower_name = to_lowercase(name);
        let lower_query = to_lowercase(search_query);
        if !contains_str(lower_name.as_str(), lower_query.as_str()) {
            return false;
        }
    }
    true
}

/// The name of the first platform in `ps` with the id `id`, if any.
pub open spec fn platform_name_of(ps: Seq<PlatformView>, id: Seq<char>) -> Option<Seq<char>>
    decreases ps.len(),
{
    if ps.len() == 0 {
        None
    } else if ps[0].id == id {
        Some(ps[0].name)
    } else {
        platform_name_of(ps.drop_first(), id)
    }
}

/// The name a game's platform is shown under: the name of the platform
/// with that id, or the id itself when no platform has it.
pub fn platform_display_name(platforms: &Vec<Platform>, platform_id: &str) -> (n: String)
    ensures
        n@ == match platform_name_of(platform_views(platforms@), platform_id@) {
            Some(name) => name,
            None => platform_id@,
        },
{
    let ghost t = platform_views(platforms@);
    let mut i: usize = 0;
    assert(t.skip(0) =~= t);
    while i < platforms.len()
        invariant
            t == platform_views(platforms@),
            i <= platforms.len(),
            platform_name_of(t, platform_id@) == platform_name_of(t.skip(i as int), platform_id@),
        decreases platforms.len() - i,
    {
        assert(t.skip(i as int)[0] == platforms@[i as int]@);
        assert(t.skip(i as int).drop_first() =~= t.skip(i + 1));
        if str_eq(platforms[i].id.as_str(), platform_id) {
            return copy_string(&platforms[i].name);
        }
        i = i + 1;
    }
    String::from_str(platform_id)
}

/// A game as the library screen reads it.
pub struct LibraryGame {
    pub id: i64,
    pub name: String,
    pub platform_id: String,
    pub is_favorite: bool,
    pub summary: Option<String>,
    pub play_count: i32,
}

/// The mathematical model of a [`LibraryGame`].
pub struct LibraryGameView {
    pub id: i64,
    pub name: Seq<char>,
    pub platform_id: Seq<char>,
    pub is_favorite: bool,
    pub summary: Option<Seq<char>>,
    pub play_count: i32,
}

impl View for LibraryGame {
    type V = LibraryGameView;

    open spec fn view(&self) -> LibraryGameView {
        LibraryGameView {
            id: self.id,
            name: self.name@,
            platform_id: self.platform_id@,
            is_favorite: self.is_favorite,
            summary: opt_view(self.summary),
            play_count: self.play_count,
        }
    }
}

/// The models of a list of games.
pub open spec fn game_views(g: Seq<LibraryGame>) -> Seq<LibraryGameView> {
    g.map_values(|x: LibraryGame| x@)
}

/// What the first load brings: the games and the platforms.
pub struct LoadedData {
    pub games: Vec<LibraryGame>,
    pub platforms: Vec<Platform>,
}

/// What the library screen remembers between messages.
pub struct AppState {
    pub screen: Screen,
    pub games: Vec<LibraryGame>,
    pub platforms: Vec<Platform>,
    pub selected_platform: Option<String>,
    pub selected_game: Option<i64>,
    pub search_query: String,
    pub error_message: Option<String>,
    pub is_loading: bool,
    /// Whether a database is open; the caller sets it once it has opened
    /// one (see [`Effect::OpenDatabase`]).
    pub has_database: bool,
}

/// The mathematical model of an [`AppState`].
pub struct AppStateView {
    pub screen: Screen,
    pub games: Seq<LibraryGameView>,
    pub platforms: Seq<PlatformView>,
    pub selected_platform: Option<Seq<char>>,
    pub selected_game: Option<i64>,
    pub search_query: Seq<char>,
    pub error_message: Option<Seq<char>>,
    pub is_loading: bool,
    pub has_database: bool,
}

impl View for AppState {
    type V = AppStateView;

    open spec fn view(&self) -> AppStateView {
        AppStateView {
            screen: self.screen,
            games: game_views(self.games@),
            platforms: platform_views(self.platforms@),
            selected_platform: opt_view(self.selected_platform),
            selected_game: self.selected_game,
            search_query: self.search_query@,
            error_message: opt_view(self.error_message),
            is_loading: self.is_loading,
            has_database: self.has_database,
        }
    }
}

/// What happened on the screen.
pub enum Message {
    Loaded(Result<LoadedData, String>),
    SelectPlatform(Option<String>),
    SelectGame(i64),
    LaunchGame(i64),
    GameLaunched(Result<(), String>),
    ToggleFavorite(i64),
    FavoriteToggled(Result<(), String>),
    SearchChanged(String),
    NavigateTo(Screen),
    RefreshLibrary,
    LibraryRefreshed(Result<Vec<LibraryGame>, String>),
    OpenSettings,
    CloseError,
}

/// What the caller does after a message has been taken in.
#[derive(Debug, Clone, Copy, PartialEq, Eq, Structural)]
pub enum Effect {
    /// Nothing more.
    Nothing,
    /// Load the games and platforms from the database.
    LoadInitialData,
    /// Open the database and the configuration; set
    /// [`AppState::has_database`] when the database opened.
    OpenDatabase,
    /// Note that this game is being launched.
    LogLaunch(i64),
    /// Store this favourite mark for this game.
    StoreFavorite(i64, bool),
}

/// The error text of a failed result, if it failed.
pub open spec fn failure_text(r: Result<(), String>) -> Option<Seq<char>> {
    match r {
        Ok(_) => None,
        Err(e) => Some(e@),
    }
}

/// Some game of `g` has the id `id`.
pub open spec fn has_game(g: Seq<LibraryGameView>, id: i64) -> bool {
    exists|i: int| 0 <= i < g.len() && #[trigger] g[i].id == id
}

/// `i` is the position of the first game of `g` with the id `id`.
pub open spec fn first_game(g: Seq<LibraryGameView>, id: i64, i: int) -> bool {
    &&& 0 <= i < g.len()
    &&& g[i].id == id
    &&& forall|j: int| 0 <= j < i ==> #[trigger] g[j].id != id
}

/// The position of the first game of `g` with the id `id`.
pub open spec fn first_game_index(g: Seq<LibraryGameView>, id: i64) -> int {
    choose|i: int| first_game(g, id, i)
}

/// `g` with the favourite mark of the first game with the id `id` flipped.
pub open spec fn with_favorite_flipped(g: Seq<LibraryGameView>, id: i64) -> Seq<LibraryGameView> {
    let i = first_game_index(g, id);
    g.update(i, LibraryGameView { is_favorite: !g[i].is_favorite, ..g[i] })
}

/// A favourite mark is flipped when a database is open and the game is
/// listed.
pub open spec fn can_toggle_favorite(s: AppStateView, id: i64) -> bool {
    s.has_database && has_game(s.games, id)
}

/// The state after taking in message `m` in state `s`.
pub open spec fn next_state(s: AppStateView, m: Message) -> AppStateView {
    match m {
        Message::Loaded(r) => match r {
            Ok(d) => AppStateView {
                is_loading: false,
                games: game_views(d.games@),
                platforms: platform_views(d.platforms@),
                ..s
            },
            Err(e) => AppStateView { is_loading: false, error_message: Some(e@), ..s },
        },
        Message::SelectPlatform(p) => AppStateView { selected_platform: opt_view(p), ..s },
        Message::SelectGame(id) => AppStateView { selected_game: Some(id), screen: Screen::GameDetails(id), ..s },
        Message::LaunchGame(_) => s,
        Message::GameLaunched(r) => AppStateView {
            error_message: if r is Err { failure_text(r) } else { s.error_message },
            ..s
        },
        Message::ToggleFavorite(id) => if can_toggle_favorite(s, id) {
            AppStateView { games: with_favorite_flipped(s.games, id), ..s }
        } else {
            s
        },
        Message::FavoriteToggled(r) => AppStateView {
            error_message: if r is Err { failure_text(r) } else { s.error_message },
            ..s
        },
        Message::SearchChanged(q) => AppStateView { search_query: q@, ..s },
        Message::NavigateTo(v) => AppStateView { screen: v, ..s },
        Message::RefreshLibrary => AppStateView { is_loading: true, ..s },
        Message::LibraryRefreshed(r) => match r {
            Ok(g) => AppStateView { is_loading: false, games: game_views(g@), ..s },
            Err(e) => AppStateView { is_loading: false, error_message: Some(e@), ..s },
        },
        Message::OpenSettings => AppStateView { screen: Screen::Settings, ..s },
        Message::CloseError => AppStateView { error_message: None, ..s },
    }
}

/// What the caller does after message `m` in state `s`.
pub open spec fn effect_of(s: AppStateView, m: Message) -> Effect {
    match m {
        Message::Loaded(r) => if r is Ok { Effect::OpenDatabase } else { Effect::Nothing },
        Message::LaunchGame(id) => if has_game(s.games, id) { Effect::LogLaunch(id) } else { Effect::Nothing },
        Message::ToggleFavorite(id) => if can_toggle_favorite(s, id) {
            Effect::StoreFavorite(id, !s.games[first_game_index(s.games, id)].is_favorite)
        } else {
            Effect::Nothing
        },
        _ => Effect::Nothing,
    }
}

/// The ids of the games of `g` that the library lists under the selected
/// platform and search text, in their order.
pub open spec fn listed_ids(g: Seq<LibraryGameView>, selected_platform: Option<Seq<char>>, search_query: Seq<char>) -> Seq<i64>
    decreases g.len(),
{
    if g.len() == 0 {
        Seq::empty()
    } else {
        let rest = listed_ids(g.drop_last(), selected_platform, search_query);
        if shown_in_library(g.last().name, g.last().platform_id, selected_platform, search_query) {
            rest.push(g.last().id)
        } else {
            rest
        }
    }
}

impl AppState {
    /// The state the launcher opens in: the library, nothing loaded or
    /// selected, no database, loading; the caller then loads the library.
    pub fn new() -> (r: (AppState, Effect))
        ensures
            r.0@ == (AppStateView {
                screen: Screen::Library,
                games: seq![],
                platforms: seq![],
                selected_platform: None,
                selected_game: None,
                search_query: seq![],
                error_message: None,
                is_loading: true,
                has_database: false,
            }),
            r.1 == Effect::LoadInitialData,
    {
        let s = AppState {
            screen: Screen::Library,
            games: Vec::new(),
            platforms: Vec::new(),
            selected_platform: None,
            selected_game: None,
            search_query: String::new(),
            error_message: None,
            is_loading: true,
            has_database: false,
        };
        assert(s@.search_query =~= Seq::<char>::empty());
        assert(s@.games =~= Seq::<LibraryGameView>::empty());
        assert(s@.platforms =~= Seq::<PlatformView>::empty());
        (s, Effect::LoadInitialData)
    }

    /// The position of the first listed game with the id `id`, if any.
    fn find_game(&self, id: i64) -> (r: Option<usize>)
        ensures
            r is None <==> !has_game(self@.games, id),
            r matches Some(i) ==> first_game(self@.games, id, i as int),
    {
        let ghost g = self@.games;
        let mut i: usize = 0;
        while i < self.games.len()
            invariant
                g == game_views(self.games@),
                i <= self.games.len(),
                forall|j: int| 0 <= j < i ==> #[trigger] g[j].id != id,
            decreases self.games.len() - i,
        {
            assert(g[i as int] == self.games@[i as int]@);
            if self.games[i].id == id {
                assert(g[i as int].id == id);
                return Some(i);
            }
            i = i + 1;
        }
        None
    }

    /// The ids of the games the library lists under the selected platform
    /// and search text, in their order.
    pub fn listed_game_ids(&self) -> (r: Vec<i64>)
        ensures
            r@ == listed_ids(self@.games, self@.selected_platform, self@.search_query),
    {
        let ghost g = self@.games;
        let mut ids: Vec<i64> = Vec::new();
        let mut i: usize = 0;
        while i < self.games.len()
            invariant
                g == game_views(self.games@),
                i <= self.games.len(),
                ids@ == listed_ids(g.take(i as int), self@.selected_platform, self@.search_query),
            decreases self.games.len() - i,
        {
            let game = &self.games[i];
            assert(g.take(i + 1).drop_last() =~= g.take(i as int));
            assert(g.take(i + 1).last() == game@);
            if game_visible(game.name.as_str(), game.platform_id.as_str(), &self.selected_platform, self.search_query.as_str()) {
                ids.push(game.id);
            }
            i = i + 1;
        }
        assert(g.take(self.games.len() as int) =~= g);
        ids
    }

    /// Takes in a message: changes the state and says what the caller does next.
    pub fn update(&mut self, message: Message) -> (e: Effect)
        ensures
            final(self)@ == next_state(old(self)@, message),
            e == effect_of(old(self)@, message),
    {
        match message {
            Message::Loaded(result) => {
                self.is_loading = false;
                match result {
                    Ok(data) => {
                        self.games = data.games;
                        self.platforms = data.platforms;
                        Effect::OpenDatabase
                    },
                    Err(e) => {
                        self.error_message = Some(e);
                        Effect::Nothing
                    },
                }
            },
            Message::SelectPlatform(platform_id) => {
                self.selected_platform = platform_id;
                Effect::Nothing
            },
            Message::SelectGame(game_id) => {
                self.selected_game = Some(game_id);
                self.screen = Screen::GameDetails(game_id);
                Effect::Nothing
            },
            Message::LaunchGame(game_id) => {
                match self.find_game(game_id) {
                    Some(_) => Effect::LogLaunch(game_id),
                    None => Effect::Nothing,
                }
            },
            Message::GameLaunched(result) => {
                if let Err(e) = result {
                    self.error_message = Some(e);
                }
                Effect::Nothing
            },
            Message::ToggleFavorite(game_id) => {
                if !self.has_database {
                    return Effect::Nothing;
                }
                match self.find_game(game_id) {
                    Some(i) => {
                        let ghost g = self@.games;
                        assert(first_game_index(g, game_id) == i as int) by {
                            let k = first_game_index(g, game_id);
                            assert(first_game(g, game_id, k));
                            if k < i {
                                assert(g[k].id != game_id);
                            } else if i < k {
                                assert(g[i as int].id != game_id);
                            }
                        }
                        let old_game = &self.games[i];
                        let favorite = !old_game.is_favorite;
                        let flipped = LibraryGame {
                            id: old_game.id,
                            name: copy_string(&old_game.name),
                            platform_id: copy_string(&old_game.platform_id),
                            is_favorite: favorite,
                            summary: crate::text::copy_opt_string(&old_game.summary),
                            play_count: old_game.play_count,
                        };
                        self.games.set(i, flipped);
                        assert(game_views(self.games@) =~= with_favorite_flipped(g, game_id));
                        Effect::StoreFavorite(game_id, favorite)
                    },
                    None => Effect::Nothing,
                }
            },
            Message::FavoriteToggled(result) => {
                if let Err(e) = result {
                    self.error_message = Some(e);
                }
                Effect::Nothing
            },
            Message::SearchChanged(query) => {
                self.search_query = query;
                Effect::Nothing
            },
            Message::NavigateTo(screen) => {
                self.screen = screen;
                Effect::Nothing
            },
            Message::RefreshLibrary => {
                self.is_loading = true;
                Effect::Nothing
            },
            Message::LibraryRefreshed(result) => {
                self.is_loading = false;
                match result {
                    Ok(games) => {
                        self.games = games;
                        Effect::Nothing
                    },
                    Err(e) => {
                        self.error_message = Some(e);
                        Effect::Nothing
                    },
                }
            },
            Message::OpenSettings => {
                self.screen = Screen::Settings;
                Effect::Nothing
            },
            Message::CloseError => {
                self.error_message = None;
                Effect::Nothing
            },
        }
    }
}

/// The text shown in place of a game's details when no game has its id.
pub fn game_not_found_text() -> (t: String)
    ensures
        t@ == "Game not found"@,
{
    String::from_str("Game not found")
}

/// The text shown in place of the game list when it lists no game.
pub fn empty_library_text() -> (t: String)
    ensures
        t@ == "No games found. Add ROMs to your library or sync with RomM."@,
{
    String::from_str("No games found. Add ROMs to your library or sync with RomM.")
}

/// The label of the button that flips a game's favourite mark.
pub open spec fn favorite_label_of(is_favorite: bool) -> Seq<char> {
    if is_favorite {
        "Remove from Favorites"@
    } else {
        "Add to Favorites"@
    }
}

/// The mark a game's card shows for its favourite flag.
pub open spec fn favorite_icon_of(is_favorite: bool) -> Seq<char> {
    if is_favorite {
        "★"@
    } else {
        "☆"@
    }
}

/// The mark a game's card shows for its favourite flag: a full star for a
/// favourite, an empty one otherwise.
pub fn favorite_icon(is_favorite: bool) -> (t: String)
    ensures
        t@ == favorite_icon_of(is_favorite),
{
    if is_favorite {
        String::from_str("★")
    } else {
        String::from_str("☆")
    }
}

/// The description a game's details show: its summary, or a note that it
/// has none.
pub open spec fn description_of(summary: Option<Seq<char>>) -> Seq<char> {
    match summary {
        Some(s) => s,
        None => "No description available."@,
    }
}

/// What the details screen shows of a game.
pub struct GameDetails {
    /// The game that the Play button launches and the favourite button
    /// flips.
    pub game_id: i64,
    pub title: String,
    pub platform_label: String,
    pub favorite_label: String,
    pub description: String,
    pub play_count: i32,
}

/// The details of the game `game_id` among `games`, named by the platforms
/// `platforms`: none when no game has that id; otherwise, of the first game
/// with it, its name as title, the name of its platform (or the platform's
/// id when no platform has it), the label of the favourite button by its
/// flag, its description and how often it was played.
pub fn game_details(games: &Vec<LibraryGame>, platforms: &Vec<Platform>, game_id: i64) -> (r: Option<GameDetails>)
    ensures
        r is None <==> !has_game(game_views(games@), game_id),
        r matches Some(d) ==> {
            let g = game_views(games@)[first_game_index(game_views(games@), game_id)];
            &&& d.game_id == game_id
            &&& d.title@ == g.name
            &&& d.platform_label@ == match platform_name_of(platform_views(platforms@), g.platform_id) {
                Some(name) => name,
                None => g.platform_id,
            }
            &&& d.favorite_label@ == favorite_label_of(g.is_favorite)
            &&& d.description@ == description_of(g.summary)
            &&& d.play_count == g.play_count
        },
{
    let ghost gv = game_views(games@);
    let mut i: usize = 0;
    while i < games.len()
        invariant
            gv == game_views(games@),
            i <= games.len(),
            forall|j: int| 0 <= j < i ==> #[trigger] gv[j].id != game_id,
        decreases games.len() - i,
    {
        assert(gv[i as int] == games@[i as int]@);
        if games[i].id == game_id {
            assert(first_game(gv, game_id, i as int));
            assert(first_game_index(gv, game_id) == i as int) by {
                let k = first_game_index(gv, game_id);
                assert(first_game(gv, game_id, k));
                if k < i {
                    assert(gv[k].id != game_id);
                } else if i < k {
                    assert(gv[i as int].id != game_id);
                }
            }
            let g = &games[i];
            let favorite_label = if g.is_favorite {
                String::from_str("Remove from Favorites")
            } else {
                String::from_str("Add to Favorites")
            };
            let description = match &g.summary {
                Some(text) => copy_string(text),
                None => String::from_str("No description available."),
            };
            return Some(
                GameDetails {
                    game_id,
                    title: copy_string(&g.name),
                    platform_label: platform_display_name(platforms, g.platform_id.as_str()),
                    favorite_label,
                    description,
                    play_count: g.play_count,
                },
            );
        }
        i = i + 1;
    }
    None
}

/// The end of row `r` of the rows of five over `n` games.
pub open spec fn row_end(r: int, n: int) -> int {
    if 5 * r + 5 < n {
        5 * r + 5
    } else {
        n
    }
}

/// `rows` cuts `ids` into rows of five, in order; only the last may be
/// shorter.
pub open spec fn rows_of_five(rows: Seq<Seq<i64>>, ids: Seq<i64>) -> bool {
    &&& 5 * rows.len() >= ids.len()
    &&& 5 * rows.len() < ids.len() + 5
    &&& forall|r: int| 0 <= r < rows.len() ==> #[trigger] rows[r] == ids.subrange(5 * r, row_end(r, ids.len() as int))
}

/// The ids of the rows `rows`.
pub open spec fn row_views(rows: Seq<Vec<i64>>) -> Seq<Seq<i64>> {
    rows.map_values(|v: Vec<i64>| v@)
}

/// `ids` cut into rows of five, in order; only the last may be shorter.
pub fn rows_of_five_ids(ids: &Vec<i64>) -> (rows: Vec<Vec<i64>>)
    ensures
        rows_of_five(row_views(rows@), ids@),
{
    let n = ids.len();
    let mut rows: Vec<Vec<i64>> = Vec::new();
    let mut start: usize = 0;
    while start < n
        invariant
            n == ids.len(),
            start <= n,
            start <= 5 * rows.len() < start + 5,
            start < n ==> start == 5 * rows.len(),
            forall|r: int|
                0 <= r < rows.len() ==> #[trigger] row_views(rows@)[r] == ids@.subrange(5 * r, row_end(r, n as int)),
        decreases n - start,
    {
        let end: usize = if n - start > 5 {
            start + 5
        } else {
            n
        };
        let mut row: Vec<i64> = Vec::new();
        let mut j: usize = start;
        while j < end
            invariant
                start <= j <= end <= n,
                n == ids.len(),
                row@ == ids@.subrange(start as int, j as int),
            decreases end - j,
        {
            row.push(ids[j]);
            j = j + 1;
            assert(row@ =~= ids@.subrange(start as int, j as int));
        }
        let ghost old_rows = rows@;
        rows.push(row);
        proof {
            assert forall|r: int| 0 <= r < rows.len() implies #[trigger] row_views(rows@)[r] == ids@.subrange(
                5 * r,
                row_end(r, n as int),
            ) by {
                if r < old_rows.len() {
                    assert(rows@[r] == old_rows[r]);
                    assert(row_views(rows@)[r] == row_views(old_rows)[r]);
                }
            }
        }
        start = end;
    }
    rows
}

/// What the library shows in place of its game list.
pub enum LibraryContent {
    /// No game is listed: this text instead.
    NoGames(String),
    /// The cards of the listed games, by id, in rows of five.
    Rows(Vec<Vec<i64>>),
}

impl AppState {
    /// What the library shows: the listed games in rows of five, or the
    /// text saying there are none.
    pub fn library_content(&self) -> (c: LibraryContent)
        ensures
            match c {
                LibraryContent::NoGames(t) => listed_ids(self@.games, self@.selected_platform, self@.search_query).len()
                    == 0 && t@ == "No games found. Add ROMs to your library or sync with RomM."@,
                LibraryContent::Rows(rows) => listed_ids(self@.games, self@.selected_platform, self@.search_query).len()
                    > 0 && rows_of_five(row_views(rows@), listed_ids(self@.games, self@.selected_platform, self@.search_query)),
            },
    {
        let ids = self.listed_game_ids();
        if ids.len() == 0 {
            LibraryContent::NoGames(empty_library_text())
        } else {
            LibraryContent::Rows(rows_of_five_ids(&ids))
        }
    }
}

} // verus!
