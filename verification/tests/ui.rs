use wingosy_launcher::models::platform::default_platforms;
use wingosy_launcher::ui::{
    empty_library_text, favorite_icon, game_details, game_not_found_text, game_visible, platform_display_name,
    platform_family, rows_of_five_ids, AppState, Effect, LibraryContent, LibraryGame, LoadedData, Message, PlatformFamily,
    Screen,
};

fn game(id: i64, name: &str, platform_id: &str) -> LibraryGame {
    LibraryGame { id, name: name.into(), platform_id: platform_id.into(), is_favorite: false, summary: None, play_count: 0 }
}

#[test]
fn platform_families() {
    assert_eq!(platform_family("snes"), PlatformFamily::Nintendo);
    assert_eq!(platform_family("3ds"), PlatformFamily::Nintendo);
    assert_eq!(platform_family("psvita"), PlatformFamily::PlayStation);
    assert_eq!(platform_family("dreamcast"), PlatformFamily::Sega);
    assert_eq!(platform_family("xbox360"), PlatformFamily::Xbox);
    assert_eq!(platform_family("arcade"), PlatformFamily::Arcade);
    assert_eq!(platform_family("pc"), PlatformFamily::Other);
    assert_eq!(platform_family("SNES"), PlatformFamily::Other);
}

#[test]
fn library_filter() {
    assert!(game_visible("Super Mario World", "snes", &None, ""));
    assert!(game_visible("Super Mario World", "snes", &Some("snes".into()), "mario"));
    assert!(game_visible("Super Mario World", "snes", &None, "MARIO w"));
    assert!(!game_visible("Super Mario World", "snes", &Some("nes".into()), ""));
    assert!(!game_visible("Super Mario World", "snes", &None, "zelda"));
    assert!(game_visible("Zelda", "nes", &None, "ZELDA"));
}

#[test]
fn platform_names_for_display() {
    let platforms = default_platforms();
    assert_eq!(platform_display_name(&platforms, "n64"), "Nintendo 64");
    assert_eq!(platform_display_name(&platforms, "amiga"), "amiga");
}

#[test]
fn screen_state_machine() {
    let (mut s, first) = AppState::new();
    assert_eq!(first, Effect::LoadInitialData);
    assert!(s.is_loading);
    assert!(!s.has_database);
    assert_eq!(s.screen, Screen::Library);
    let data = LoadedData { games: vec![game(7, "Super Mario World", "snes")], platforms: default_platforms() };
    assert_eq!(s.update(Message::Loaded(Ok(data))), Effect::OpenDatabase);
    assert!(!s.is_loading);
    assert_eq!(s.games.len(), 1);
    assert_eq!(s.platforms.len(), default_platforms().len());
    assert_eq!(s.update(Message::SelectGame(7)), Effect::Nothing);
    assert_eq!(s.screen, Screen::GameDetails(7));
    assert_eq!(s.selected_game, Some(7));
    assert_eq!(s.update(Message::LaunchGame(7)), Effect::LogLaunch(7));
    assert_eq!(s.update(Message::LaunchGame(8)), Effect::Nothing);
    s.update(Message::GameLaunched(Err("boom".into())));
    assert_eq!(s.error_message.as_deref(), Some("boom"));
    s.update(Message::GameLaunched(Ok(())));
    assert_eq!(s.error_message.as_deref(), Some("boom"));
    s.update(Message::CloseError);
    assert_eq!(s.error_message, None);
    s.update(Message::SearchChanged("mario".into()));
    assert_eq!(s.search_query, "mario");
    s.update(Message::SelectPlatform(Some("snes".into())));
    assert_eq!(s.selected_platform.as_deref(), Some("snes"));
    s.update(Message::OpenSettings);
    assert_eq!(s.screen, Screen::Settings);
    s.update(Message::NavigateTo(Screen::Downloads));
    assert_eq!(s.screen, Screen::Downloads);
    s.update(Message::RefreshLibrary);
    assert!(s.is_loading);
    assert_eq!(s.update(Message::LibraryRefreshed(Err("db".into()))), Effect::Nothing);
    assert!(!s.is_loading);
    assert_eq!(s.error_message.as_deref(), Some("db"));
    let refreshed = vec![game(7, "Super Mario World", "snes"), game(9, "Zelda", "nes")];
    assert_eq!(s.update(Message::LibraryRefreshed(Ok(refreshed))), Effect::Nothing);
    assert_eq!(s.games.len(), 2);
    assert_eq!(s.update(Message::Loaded(Err("no db".into()))), Effect::Nothing);
    assert_eq!(s.error_message.as_deref(), Some("no db"));
    s.update(Message::FavoriteToggled(Err("fav".into())));
    assert_eq!(s.error_message.as_deref(), Some("fav"));
}

#[test]
fn favorite_toggle_needs_database_and_game() {
    let (mut s, _) = AppState::new();
    let data = LoadedData { games: vec![game(7, "A", "nes"), game(7, "B", "nes"), game(9, "C", "snes")], platforms: vec![] };
    s.update(Message::Loaded(Ok(data)));
    assert_eq!(s.update(Message::ToggleFavorite(7)), Effect::Nothing);
    assert!(!s.games[0].is_favorite);
    s.has_database = true;
    assert_eq!(s.update(Message::ToggleFavorite(7)), Effect::StoreFavorite(7, true));
    assert!(s.games[0].is_favorite);
    assert!(!s.games[1].is_favorite);
    assert_eq!(s.update(Message::ToggleFavorite(7)), Effect::StoreFavorite(7, false));
    assert!(!s.games[0].is_favorite);
    assert_eq!(s.update(Message::ToggleFavorite(5)), Effect::Nothing);
}

#[test]
fn listed_games_follow_filter() {
    let (mut s, _) = AppState::new();
    let data = LoadedData {
        games: vec![game(1, "Super Mario World", "snes"), game(2, "Zelda", "nes"), game(3, "Mario Kart", "n64")],
        platforms: vec![],
    };
    s.update(Message::Loaded(Ok(data)));
    assert_eq!(s.listed_game_ids(), vec![1, 2, 3]);
    s.update(Message::SearchChanged("MARIO".into()));
    assert_eq!(s.listed_game_ids(), vec![1, 3]);
    s.update(Message::SelectPlatform(Some("n64".into())));
    assert_eq!(s.listed_game_ids(), vec![3]);
}

#[test]
fn game_details_texts() {
    let platforms = default_platforms();
    let mut zelda = game(9, "Zelda", "nes");
    zelda.summary = Some("A quest.".into());
    zelda.play_count = 3;
    let mut fav = game(9, "Zelda again", "nes");
    fav.is_favorite = true;
    let games = vec![game(7, "Mario", "amiga"), zelda, fav];
    let d = game_details(&games, &platforms, 9).unwrap();
    assert_eq!(d.game_id, 9);
    assert_eq!(d.title, "Zelda");
    assert_eq!(d.platform_label, platform_display_name(&platforms, "nes"));
    assert_eq!(d.favorite_label, "Add to Favorites");
    assert_eq!(d.description, "A quest.");
    assert_eq!(d.play_count, 3);
    let m = game_details(&games, &platforms, 7).unwrap();
    assert_eq!(m.platform_label, "amiga");
    assert_eq!(m.description, "No description available.");
    let mut fav_only = game(4, "F", "snes");
    fav_only.is_favorite = true;
    assert_eq!(game_details(&vec![fav_only], &platforms, 4).unwrap().favorite_label, "Remove from Favorites");
    assert!(game_details(&games, &platforms, 5).is_none());
    assert_eq!(game_not_found_text(), "Game not found");
    assert_eq!(favorite_icon(true), "★");
    assert_eq!(favorite_icon(false), "☆");
}

#[test]
fn library_rows_of_five() {
    let ids: Vec<i64> = (1..=12).collect();
    let rows = rows_of_five_ids(&ids);
    assert_eq!(rows, vec![vec![1, 2, 3, 4, 5], vec![6, 7, 8, 9, 10], vec![11, 12]]);
    assert_eq!(rows_of_five_ids(&(1..=5).collect()), vec![vec![1, 2, 3, 4, 5]]);
    assert!(rows_of_five_ids(&Vec::new()).is_empty());
    let (mut s, _) = AppState::new();
    match s.library_content() {
        LibraryContent::NoGames(t) => assert_eq!(t, "No games found. Add ROMs to your library or sync with RomM."),
        LibraryContent::Rows(_) => panic!("expected the empty-library text"),
    }
    assert_eq!(empty_library_text(), "No games found. Add ROMs to your library or sync with RomM.");
    let games: Vec<LibraryGame> = (1..=6).map(|i| game(i, "Game", "nes")).collect();
    s.update(Message::Loaded(Ok(LoadedData { games, platforms: vec![] })));
    match s.library_content() {
        LibraryContent::Rows(rows) => assert_eq!(rows, vec![vec![1, 2, 3, 4, 5], vec![6]]),
        LibraryContent::NoGames(_) => panic!("expected rows"),
    }
}
