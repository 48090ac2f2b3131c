use wingosy_launcher::commands::{
    apply_detected_paths, detected_emulator_infos, get_exe_names, get_missing_cores, launch_report, missing_cores_given,
};
use wingosy_launcher::config::{get_emulator_path_from_config, EmulatorPaths};
use wingosy_launcher::cores::{core_download_url, get_cores_dir, is_core_installed};
use wingosy_launcher::database::{ordered_default_collections, ordered_default_platforms, select_emulator_config};
use wingosy_launcher::detection::{detect_installed_emulators, emulator_patterns, DetectedEmulator};
use wingosy_launcher::launcher::LaunchResult;
use wingosy_launcher::models::emulator::EmulatorConfig;
use wingosy_launcher::models::platform::Platform;

fn detected(id: &str, path: &str) -> DetectedEmulator {
    DetectedEmulator { id: id.into(), name: id.into(), path: path.into(), version: None }
}

#[test]
fn exe_names_per_emulator() {
    assert_eq!(get_exe_names("retroarch"), vec!["retroarch.exe", "RetroArch.exe"]);
    assert_eq!(get_exe_names("citra"), vec!["lime3ds-gui.exe", "lime3ds.exe", "citra-qt.exe"]);
    assert_eq!(get_exe_names("mame"), vec!["mame.exe", "mame64.exe"]);
    assert!(get_exe_names("yuzu").is_empty());
    assert!(get_exe_names("other").is_empty());
}

#[test]
fn detected_paths_fill_only_unset_entries() {
    let mut config = EmulatorPaths::new();
    config.dolphin = Some("/mine/dolphin.exe".into());
    let found = vec![
        detected("dolphin", "/found/dolphin.exe"),
        detected("mgba", "/found/mgba.exe"),
        detected("mgba", "/other/mgba.exe"),
        detected("cemu", "/found/cemu.exe"),
    ];
    let count = apply_detected_paths(&mut config, &found);
    assert_eq!(count, 2);
    assert_eq!(config.dolphin.as_deref(), Some("/mine/dolphin.exe"));
    assert_eq!(get_emulator_path_from_config(&config, "mgba").as_deref(), Some("/found/mgba.exe"));
    assert_eq!(config.cemu.as_deref(), Some("/found/cemu.exe"));
    assert_eq!(apply_detected_paths(&mut config, &found), 0);
}

#[test]
fn detection_infos_copy_fields() {
    let infos = detected_emulator_infos(&vec![detected("xemu", "/x/xemu.exe")]);
    assert_eq!(infos.len(), 1);
    assert_eq!(infos[0].id, "xemu");
    assert_eq!(infos[0].path, "/x/xemu.exe");
}

#[test]
fn missing_cores_with_flags() {
    let platforms = vec![
        (Platform::new("snes", "Super Nintendo", vec![".sfc"]), 3),
        (Platform::new("ps2", "PlayStation 2", vec![".iso"]), 1),
        (Platform::new("gba", "Game Boy Advance", vec![".gba"]), 2),
    ];
    let missing = missing_cores_given(&platforms, &vec![false, false, true]);
    assert_eq!(missing.len(), 1);
    assert_eq!(missing[0].platform_id, "snes");
    assert_eq!(missing[0].platform_name, "Super Nintendo");
    assert_eq!(missing[0].core_filename, "snes9x_libretro.dll");
    let all = get_missing_cores(&platforms, &None);
    let ids: Vec<&str> = all.iter().map(|m| m.platform_id.as_str()).collect();
    assert_eq!(ids, vec!["snes", "gba"]);
    let none_installed = get_missing_cores(&platforms, &Some("/nowhere/retroarch.exe".into()));
    assert_eq!(none_installed.len(), 2);
}

#[test]
fn launch_reports() {
    let ok = launch_report(&LaunchResult::Success { duration_minutes: 42, exit_code: None }).unwrap();
    assert_eq!(ok, "Played for 42 minutes");
    let zero = launch_report(&LaunchResult::Success { duration_minutes: 0, exit_code: Some(1) }).unwrap();
    assert_eq!(zero, "Played for 0 minutes");
    let neg = launch_report(&LaunchResult::Success { duration_minutes: -7, exit_code: None }).unwrap();
    assert_eq!(neg, "Played for -7 minutes");
    let err = launch_report(&LaunchResult::FileNotFound("/x".into())).unwrap_err();
    assert_eq!(err.message, "ROM file not found: /x");
}

#[test]
fn core_url_and_directory() {
    assert_eq!(
        core_download_url("snes9x_libretro.dll"),
        "https://buildbot.libretro.com/nightly/windows/x86_64/latest/snes9x_libretro.dll.zip"
    );
    let dir = get_cores_dir("/opt/retroarch/retroarch.exe");
    assert_eq!(dir, std::path::Path::new("/opt/retroarch").join("cores").to_string_lossy());
    assert_eq!(get_cores_dir(""), "cores");
    assert!(!is_core_installed("/nowhere/retroarch.exe", "snes9x_libretro.dll"));
}

#[test]
fn emulator_config_precedence() {
    let mk = |id: &str| EmulatorConfig { platform_id: None, game_id: None, emulator_id: id.into(), core_name: None, is_default: true };
    assert_eq!(select_emulator_config(Some(mk("a")), Some(mk("b")), Some(mk("c"))).unwrap().emulator_id, "a");
    assert_eq!(select_emulator_config(None, Some(mk("b")), Some(mk("c"))).unwrap().emulator_id, "b");
    assert_eq!(select_emulator_config(None, None, Some(mk("c"))).unwrap().emulator_id, "c");
    assert!(select_emulator_config(None, None, None).is_none());
}

#[test]
fn stored_defaults_are_numbered() {
    let platforms = ordered_default_platforms();
    for (i, p) in platforms.iter().enumerate() {
        assert_eq!(p.sort_order, i as i32);
    }
    assert_eq!(platforms.len(), 24);
    assert_eq!(platforms[5].id, "wiiu");
    let collections = ordered_default_collections();
    let orders: Vec<i32> = collections.iter().map(|c| c.sort_order).collect();
    assert_eq!(orders, vec![0, 1, 2, 3, 4]);
    assert_eq!(collections[2].name, "Top Unplayed");
}

#[test]
fn detection_without_install_directories() {
    assert!(detect_installed_emulators(&vec![]).is_empty());
    assert!(detect_installed_emulators(&vec!["/nonexistent/wingosy/base".to_string()]).is_empty());
}

#[test]
fn detection_pattern_table() {
    let patterns = emulator_patterns();
    assert_eq!(patterns.len(), 15);
    assert_eq!(patterns[2].executables, vec!["pcsx2.exe", "pcsx2-qt.exe", "pcsx2-qtx64.exe"]);
    assert!(patterns.iter().all(|p| p.id != "yuzu"));
}
