use wingosy_launcher::config::{get_emulator_path_from_config, set_emulator_path, EmulatorPaths};
use wingosy_launcher::launcher::{
    check_emulator_installed, finish_launch, plan_launch, select_rom_path, EmulatorLauncher, LaunchError, LaunchResult,
    LaunchStep, ResolveError,
};
use wingosy_launcher::models::emulator::{default_emulators, EmulatorConfig};

fn paths_with(entries: &[(&str, &str)]) -> EmulatorPaths {
    let mut p = EmulatorPaths::new();
    for (id, path) in entries {
        set_emulator_path(&mut p, id, path.to_string());
    }
    p
}

#[test]
fn paths_read_back_what_was_written() {
    let mut p = EmulatorPaths::new();
    assert_eq!(get_emulator_path_from_config(&p, "dolphin"), None);
    set_emulator_path(&mut p, "dolphin", "/d".into());
    set_emulator_path(&mut p, "yuzu", "/y".into());
    set_emulator_path(&mut p, "unknown", "/u".into());
    assert_eq!(get_emulator_path_from_config(&p, "dolphin").as_deref(), Some("/d"));
    assert_eq!(get_emulator_path_from_config(&p, "yuzu").as_deref(), Some("/y"));
    assert_eq!(get_emulator_path_from_config(&p, "unknown"), None);
    assert_eq!(get_emulator_path_from_config(&p, "mame"), None);
    set_emulator_path(&mut p, "dolphin", "/d2".into());
    assert_eq!(p.dolphin.as_deref(), Some("/d2"));
}

#[test]
fn nothing_configured_is_an_error() {
    let launcher = EmulatorLauncher::new(EmulatorPaths::new());
    match launcher.resolve_emulator("snes", None) {
        Err(e) => {
            let ResolveError::NoEmulatorConfigured { platform } = &e;
            assert_eq!(platform, "snes");
            assert_eq!(e.message(), "No emulator configured for platform: snes");
        }
        Ok(_) => panic!("expected no emulator"),
    }
}

#[test]
fn configured_retroarch_wins_with_platform_core() {
    let launcher = EmulatorLauncher::new(paths_with(&[("retroarch", "/ra/retroarch.exe"), ("dolphin", "/d.exe")]));
    let e = launcher.resolve_emulator("snes", None).unwrap();
    assert_eq!(e.id, "retroarch");
    assert_eq!(e.executable_path.as_deref(), Some("/ra/retroarch.exe"));
    assert_eq!(e.core_name.as_deref(), Some("snes9x_libretro.dll"));
    let gc = launcher.resolve_emulator("gc", None).unwrap();
    assert_eq!(gc.id, "retroarch");
    assert_eq!(gc.core_name, None);
}

#[test]
fn standalone_emulator_for_its_platform() {
    let launcher = EmulatorLauncher::new(paths_with(&[("dolphin", "/d.exe")]));
    let e = launcher.resolve_emulator("wii", None).unwrap();
    assert_eq!(e.id, "dolphin");
    assert_eq!(e.executable_path.as_deref(), Some("/d.exe"));
    assert_eq!(e.launch_args, vec!["-e"]);
    assert!(launcher.resolve_emulator("psp", None).is_err());
}

#[test]
fn stored_choice_overrides_even_without_path() {
    let launcher = EmulatorLauncher::new(paths_with(&[("retroarch", "/ra.exe")]));
    let config = EmulatorConfig {
        platform_id: None,
        game_id: Some(3),
        emulator_id: "ppsspp".into(),
        core_name: Some("custom".into()),
        is_default: false,
    };
    let e = launcher.resolve_emulator("psp", Some(config)).unwrap();
    assert_eq!(e.id, "ppsspp");
    assert_eq!(e.executable_path, None);
    assert_eq!(e.core_name.as_deref(), Some("custom"));
}

#[test]
fn unknown_stored_choice_falls_back() {
    let launcher = EmulatorLauncher::new(paths_with(&[("mgba", "/m.exe")]));
    let config = EmulatorConfig {
        platform_id: Some("gba".into()),
        game_id: None,
        emulator_id: "nonexistent".into(),
        core_name: None,
        is_default: true,
    };
    let e = launcher.resolve_emulator("gba", Some(config)).unwrap();
    assert_eq!(e.id, "mgba");
}

#[test]
fn available_emulators_for_platform() {
    let exe = ".".to_string();
    let launcher = EmulatorLauncher::new(paths_with(&[("dolphin", &exe), ("retroarch", "/definitely/not/here.exe")]));
    let list = launcher.get_available_emulators_for_platform("gc");
    let ids: Vec<&str> = list.iter().map(|e| e.id.as_str()).collect();
    assert_eq!(ids, vec!["retroarch", "dolphin"]);
    assert!(!list[0].is_installed);
    assert!(list[1].is_installed);
    assert_eq!(list[1].executable_path.as_deref(), Some(exe.as_str()));
    let switch = launcher.get_available_emulators_for_platform("switch");
    let ids: Vec<&str> = switch.iter().map(|e| e.id.as_str()).collect();
    assert_eq!(ids, vec!["retroarch", "yuzu", "ryujinx"]);
    assert!(switch.iter().all(|e| !e.is_installed));
}

#[test]
fn launch_result_messages() {
    let ok = LaunchResult::Success { duration_minutes: 5, exit_code: Some(0) };
    assert!(ok.is_success());
    assert_eq!(ok.error_message(), None);
    let missing = LaunchResult::FileNotFound("/r.sfc".into());
    assert!(!missing.is_success());
    assert_eq!(missing.error_message().as_deref(), Some("ROM file not found: /r.sfc"));
    let not_installed = LaunchResult::EmulatorNotInstalled { name: "Dolphin".into(), id: "dolphin".into() };
    assert_eq!(not_installed.error_message().as_deref(), Some("Dolphin is not installed"));
    let not_configured = LaunchResult::EmulatorNotConfigured { platform: "nes".into() };
    assert_eq!(not_configured.error_message().as_deref(), Some("No emulator configured for nes"));
}

#[test]
fn rom_path_prefers_local_copy() {
    assert_eq!(select_rom_path(&Some("/local/a.nes".into()), &"a.nes".to_string()), "/local/a.nes");
    assert_eq!(select_rom_path(&None, &"/lib/a.nes".to_string()), "/lib/a.nes");
}

#[test]
fn launch_steps() {
    let mut emu = default_emulators().remove(1);
    match plan_launch(&emu, "/g.iso", false) {
        Ok(LaunchStep::Report(LaunchResult::FileNotFound(p))) => assert_eq!(p, "/g.iso"),
        _ => panic!("expected a missing file"),
    }
    assert!(matches!(plan_launch(&emu, "/g.iso", true), Err(LaunchError::NoLaunchCommand)));
    assert_eq!(LaunchError::NoLaunchCommand.message(), "Failed to build launch command");
    emu.executable_path = Some("/d.exe".into());
    match plan_launch(&emu, "/g.iso", true) {
        Ok(LaunchStep::Start { exe, args }) => {
            assert_eq!(exe, "/d.exe");
            assert_eq!(args, vec!["-e", "/g.iso"]);
        }
        _ => panic!("expected a start"),
    }
    assert!(check_emulator_installed(&emu, true).is_none());
    match check_emulator_installed(&emu, false) {
        Some(LaunchResult::EmulatorNotInstalled { name, id }) => {
            assert_eq!(name, "Dolphin");
            assert_eq!(id, "dolphin");
        }
        _ => panic!("expected not installed"),
    }
}

#[test]
fn finishing_a_launch() {
    let (r, record) = finish_launch(125, Some(0));
    match r {
        LaunchResult::Success { duration_minutes, exit_code } => {
            assert_eq!(duration_minutes, 2);
            assert_eq!(exit_code, Some(0));
        }
        _ => panic!("expected success"),
    }
    assert_eq!(record, Some(2));
    let (short, none) = finish_launch(59, None);
    assert!(short.is_success());
    assert_eq!(none, None);
}

#[test]
fn available_emulators_from_answers() {
    let launcher = EmulatorLauncher::new(paths_with(&[("dolphin", "/nowhere/Dolphin.exe")]));
    let all_found = vec![true; 16];
    let list = launcher.available_emulators_given("gc", &all_found);
    let ids: Vec<&str> = list.iter().map(|e| e.id.as_str()).collect();
    assert_eq!(ids, vec!["retroarch", "dolphin"]);
    assert!(!list[0].is_installed);
    assert!(list[1].is_installed);
    assert_eq!(list[1].executable_path.as_deref(), Some("/nowhere/Dolphin.exe"));
    let none_found = vec![false; 16];
    assert!(launcher.available_emulators_given("gc", &none_found).iter().all(|e| !e.is_installed));
    assert_eq!(launcher.available_emulators_given("nes", &all_found)[0].id, "retroarch");
}
