use wingosy_launcher::commands::finish_emulator_download;
use wingosy_launcher::config::{get_emulator_path_from_config, EmulatorPaths};
use wingosy_launcher::commands::{
    archive_file_name, download_source, emulator_info, find_emulator, needs_extraction, parse_game_sort,
    release_asset_url, retroarch_path_or_detected, sorts_descending, DownloadSource, GameSort,
};
use wingosy_launcher::detection::DetectedEmulator;
use wingosy_launcher::github::{GitHubAsset, GitHubRelease};
use wingosy_launcher::models::emulator::default_emulators;
use wingosy_launcher::sync::{cover_file_name, cover_worth_saving, next_page_offset, valid_release_year, SeenIds};

fn detected(id: &str, path: &str) -> DetectedEmulator {
    DetectedEmulator { id: id.into(), name: id.into(), path: path.into(), version: None }
}

#[test]
fn download_sources() {
    match download_source("ppsspp", &Some("hrydgard/ppsspp".into()), &None, &Some("https://x".into())).unwrap() {
        DownloadSource::GitHub { repo, asset_pattern } => {
            assert_eq!(repo, "hrydgard/ppsspp");
            assert_eq!(asset_pattern, ".*");
        }
        _ => panic!("expected GitHub"),
    }
    match download_source("mgba", &Some("mgba-emu/mgba".into()), &Some("(?i)win64".into()), &None).unwrap() {
        DownloadSource::GitHub { asset_pattern, .. } => assert_eq!(asset_pattern, "(?i)win64"),
        _ => panic!("expected GitHub"),
    }
    match download_source("mame", &None, &None, &Some("https://mame".into())).unwrap() {
        DownloadSource::Direct { url } => assert_eq!(url, "https://mame"),
        _ => panic!("expected a direct address"),
    }
    let err = download_source("cemu", &None, &None, &None).unwrap_err();
    assert_eq!(err.message, "No download source for cemu");
}

#[test]
fn archive_names_and_extraction() {
    assert_eq!(archive_file_name("dolphin", &Some("7z".into())), "dolphin.7z");
    assert_eq!(archive_file_name("xemu", &None), "xemu.zip");
    assert!(needs_extraction(&Some("zip".into())));
    assert!(!needs_extraction(&Some("exe".into())));
    assert!(!needs_extraction(&None));
}

#[test]
fn emulator_lookup_by_id() {
    let emus = default_emulators();
    assert_eq!(find_emulator(&emus, "xenia").unwrap().name, "Xenia Canary");
    assert_eq!(find_emulator(&emus, "snes9x").unwrap_err().message, "Unknown emulator: snes9x");
}

#[test]
fn asset_url_or_error() {
    let release = GitHubRelease {
        tag_name: "v2".into(),
        name: None,
        assets: vec![
            GitHubAsset { name: "mGBA-0.10-win64.7z".into(), browser_download_url: "https://e/m.7z".into(), size: 1, content_type: None },
        ],
    };
    assert_eq!(release_asset_url(&release, "(?i)mgba.*win64.*\\.7z$", "mgba").unwrap(), "https://e/m.7z");
    assert_eq!(
        release_asset_url(&release, "linux", "mgba").unwrap_err().message,
        "No matching asset found for mgba in release v2"
    );
}

#[test]
fn emulator_list_entries() {
    let emus = default_emulators();
    let found = vec![detected("dolphin", "/a/Dolphin.exe"), detected("dolphin", "/b/Dolphin.exe")];
    let info = emulator_info(&emus[1], &found, Some("dolphin-emu/dolphin".into()), None);
    assert!(info.is_installed);
    assert_eq!(info.installed_path.as_deref(), Some("/a/Dolphin.exe"));
    assert!(info.has_download);
    assert_eq!(info.supported_platforms, vec!["gc", "wii"]);
    let other = emulator_info(&emus[2], &found, None, None);
    assert!(!other.is_installed);
    assert!(other.installed_path.is_none());
    assert!(!other.has_download);
}

#[test]
fn retroarch_path_choice() {
    let found = vec![detected("mame", "/m.exe"), detected("retroarch", "/ra.exe")];
    assert_eq!(retroarch_path_or_detected(&Some("/mine.exe".into()), &found).as_deref(), Some("/mine.exe"));
    assert_eq!(retroarch_path_or_detected(&None, &found).as_deref(), Some("/ra.exe"));
    assert_eq!(retroarch_path_or_detected(&None, &vec![]), None);
}

#[test]
fn game_sort_names() {
    assert_eq!(parse_game_sort(&Some("last_played".into())), GameSort::LastPlayed);
    assert_eq!(parse_game_sort(&Some("rating".into())), GameSort::Rating);
    assert_eq!(parse_game_sort(&Some("release_year".into())), GameSort::ReleaseYear);
    assert_eq!(parse_game_sort(&Some("whatever".into())), GameSort::Name);
    assert_eq!(parse_game_sort(&None), GameSort::Name);
    assert!(sorts_descending(GameSort::PlayCount));
    assert!(sorts_descending(GameSort::RecentlyAdded));
    assert!(!sorts_descending(GameSort::Rating));
    assert!(!sorts_descending(GameSort::Name));
}

#[test]
fn sync_paging_and_names() {
    assert_eq!(next_page_offset(0, 100, 250), Some(100));
    assert_eq!(next_page_offset(200, 50, 250), None);
    assert_eq!(next_page_offset(0, 0, 250), None);
    assert_eq!(cover_file_name(42), "42.jpg");
    assert_eq!(valid_release_year(Some(1994)), Some(1994));
    assert_eq!(valid_release_year(Some(0)), None);
    assert_eq!(valid_release_year(None), None);
    assert!(cover_worth_saving(101));
    assert!(!cover_worth_saving(100));
    let mut seen = SeenIds::new();
    assert!(seen.insert(5));
    assert!(seen.insert(6));
    assert!(!seen.insert(5));
}

#[test]
fn full_emulator_list() {
    let mut sources: Vec<(Option<String>, Option<String>)> = vec![(None, None); default_emulators().len()];
    sources[1] = (Some("dolphin-emu/dolphin".into()), None);
    let infos = wingosy_launcher::commands::get_all_emulators(&vec![detected("dolphin", "/d/Dolphin.exe")], &sources);
    assert_eq!(infos.len(), default_emulators().len());
    assert_eq!(infos[0].id, "retroarch");
    assert!(!infos[0].is_installed && !infos[0].has_download);
    assert_eq!(infos[1].id, "dolphin");
    assert!(infos[1].is_installed && infos[1].has_download);
    assert_eq!(infos[1].installed_path.as_deref(), Some("/d/Dolphin.exe"));
    assert_eq!(infos[1].github_repo.as_deref(), Some("dolphin-emu/dolphin"));
}

#[test]
fn emulator_download_last_step() {
    let mut paths = EmulatorPaths::new();
    let answer = finish_emulator_download(&mut paths, "dolphin", "/emu/dolphin", Some("/emu/dolphin/Dolphin.exe".into()));
    assert_eq!(answer, "/emu/dolphin/Dolphin.exe");
    assert_eq!(get_emulator_path_from_config(&paths, "dolphin").as_deref(), Some("/emu/dolphin/Dolphin.exe"));
    let answer = finish_emulator_download(&mut paths, "cemu", "/emu/cemu", None);
    assert_eq!(answer, "/emu/cemu");
    assert_eq!(get_emulator_path_from_config(&paths, "cemu"), None);
}
