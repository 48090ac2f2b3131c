use wingosy_launcher::models::collection::{default_smart_collections, Collection, SmartFilter, SmartFilterType};
use wingosy_launcher::models::emulator::{default_emulators, retroarch_core_for, retroarch_cores, Emulator};
use wingosy_launcher::models::platform::{default_platforms, detect_platform_by_extension, platform_for_lowercase_extension, Platform};

fn emulator(exe: Option<&str>, rom_arg: &str, retroarch: bool, core: Option<&str>, args: Vec<&str>) -> Emulator {
    Emulator {
        id: "test".into(),
        name: "Test".into(),
        executable_path: exe.map(String::from),
        supported_platforms: vec!["snes".into()],
        launch_args: args.into_iter().map(String::from).collect(),
        rom_arg: rom_arg.into(),
        core_name: core.map(String::from),
        is_retroarch: retroarch,
        is_installed: false,
    }
}

#[test]
fn launch_command_needs_executable() {
    let e = emulator(None, "{rom}", false, None, vec![]);
    assert!(e.build_launch_command("/roms/game.sfc").is_none());
}

#[test]
fn launch_command_plain_emulator() {
    let e = emulator(Some("/emu/dolphin"), "{rom}", false, None, vec!["-e"]);
    let (exe, args) = e.build_launch_command("/roms/game.iso").unwrap();
    assert_eq!(exe, "/emu/dolphin");
    assert_eq!(args, vec!["-e".to_string(), "/roms/game.iso".to_string()]);
}

#[test]
fn launch_command_retroarch_core() {
    let e = emulator(Some("/emu/retroarch"), "{rom}", true, Some("snes9x_libretro.dll"), vec![]);
    let (_, args) = e.build_launch_command("/roms/a.sfc").unwrap();
    assert_eq!(args, vec!["-L", "snes9x_libretro.dll", "/roms/a.sfc"]);
}

#[test]
fn launch_command_core_only_for_retroarch() {
    let e = emulator(Some("/emu/x"), "{rom}", false, Some("core.dll"), vec![]);
    let (_, args) = e.build_launch_command("r").unwrap();
    assert_eq!(args, vec!["r"]);
    let r = emulator(Some("/emu/ra"), "{rom}", true, None, vec![]);
    let (_, args) = r.build_launch_command("r").unwrap();
    assert_eq!(args, vec!["r"]);
}

#[test]
fn launch_command_rom_argument_template() {
    let e = emulator(Some("/emu/x"), "--file={rom}", false, None, vec!["--fullscreen"]);
    let (_, args) = e.build_launch_command("/g.bin").unwrap();
    assert_eq!(args, vec!["--fullscreen", "--file=/g.bin"]);
    let twice = emulator(Some("/emu/x"), "{rom}:{rom}", false, None, vec![]);
    let (_, args) = twice.build_launch_command("a").unwrap();
    assert_eq!(args, vec!["a:a"]);
}

#[test]
fn launch_command_empty_rom_argument_uses_path() {
    let e = emulator(Some("/emu/x"), "", false, None, vec![]);
    let (_, args) = e.build_launch_command("/g.bin").unwrap();
    assert_eq!(args, vec!["/g.bin"]);
    let fixed = emulator(Some("/emu/x"), "--batch", false, None, vec![]);
    let (_, args) = fixed.build_launch_command("/g.bin").unwrap();
    assert_eq!(args, vec!["--batch"]);
}

#[test]
fn builtin_emulators_table() {
    let emus = default_emulators();
    assert_eq!(emus.len(), 16);
    assert_eq!(emus[0].id, "retroarch");
    assert!(emus[0].is_retroarch);
    assert_eq!(emus[0].supported_platforms, vec!["*"]);
    assert_eq!(emus[1].launch_args, vec!["-e"]);
    assert_eq!(emus[7].name, "Yuzu / Suyu");
    assert_eq!(emus[11].supported_platforms, vec!["gb", "gbc", "gba"]);
    assert_eq!(emus[13].launch_args, vec!["-dvd_path"]);
    for e in &emus {
        assert!(e.executable_path.is_none());
        assert!(!e.is_installed);
        assert_eq!(e.rom_arg, "{rom}");
        assert!(e.core_name.is_none());
    }
    let mut ids: Vec<&String> = emus.iter().map(|e| &e.id).collect();
    ids.sort();
    ids.dedup();
    assert_eq!(ids.len(), 16);
}

#[test]
fn builtin_emulator_command_ends_with_rom() {
    for mut e in default_emulators() {
        e.executable_path = Some("/bin/emu".into());
        let (_, args) = e.build_launch_command("/roms/x").unwrap();
        assert_eq!(args.last().unwrap(), "/roms/x");
        assert_eq!(args.len(), e.launch_args.len() + 1);
    }
}

#[test]
fn retroarch_core_table() {
    let cores = retroarch_cores();
    assert_eq!(cores.len(), 12);
    assert_eq!(retroarch_core_for("nes").as_deref(), Some("fceumm_libretro.dll"));
    assert_eq!(retroarch_core_for("gbc").as_deref(), Some("gambatte_libretro.dll"));
    assert_eq!(retroarch_core_for("arcade").as_deref(), Some("mame_libretro.dll"));
    assert_eq!(retroarch_core_for("ps2"), None);
    assert_eq!(retroarch_core_for("NES"), None);
    let platforms = default_platforms();
    for (platform, _) in &cores {
        assert!(platforms.iter().any(|p| &p.id == platform));
    }
}

#[test]
fn platform_new_defaults() {
    let p = Platform::new("nes", "NES", vec![".nes", ".unf"]);
    assert_eq!(p.id, "nes");
    assert_eq!(p.name, "NES");
    assert_eq!(p.extensions, vec![".nes", ".unf"]);
    assert!(p.short_name.is_none());
    assert!(p.logo_path.is_none());
    assert_eq!(p.sort_order, 0);
}

#[test]
fn builtin_platforms_table() {
    let ps = default_platforms();
    assert_eq!(ps.len(), 24);
    assert_eq!(ps[0].id, "nes");
    assert_eq!(ps[23].id, "pc");
    assert_eq!(ps[23].extensions, vec![".exe"]);
    let mut ids: Vec<&String> = ps.iter().map(|p| &p.id).collect();
    ids.sort();
    ids.dedup();
    assert_eq!(ids.len(), 24);
}

#[test]
fn extension_detection() {
    assert_eq!(detect_platform_by_extension(".nes").as_deref(), Some("nes"));
    assert_eq!(detect_platform_by_extension(".SFC").as_deref(), Some("snes"));
    assert_eq!(detect_platform_by_extension(".Iso").as_deref(), Some("gc"));
    assert_eq!(detect_platform_by_extension(".bin").as_deref(), Some("psx"));
    assert_eq!(detect_platform_by_extension(".vpk").as_deref(), Some("psvita"));
    assert_eq!(detect_platform_by_extension(".xyz"), None);
    assert_eq!(detect_platform_by_extension("nes"), None);
    assert_eq!(platform_for_lowercase_extension(".NES"), None);
    assert_eq!(platform_for_lowercase_extension(".chd").as_deref(), Some("psx"));
}

#[test]
fn manual_and_smart_collections() {
    let c = Collection::new_manual("My Games");
    assert_eq!(c.id, 0);
    assert_eq!(c.name, "My Games");
    assert!(!c.is_smart);
    assert!(c.smart_filter.is_none());
    assert!(c.game_ids.is_empty());
    let filter = SmartFilter { filter_type: SmartFilterType::HighRated, limit: Some(7) };
    let s = Collection::new_smart("Best", filter);
    assert!(s.is_smart);
    assert_eq!(s.smart_filter, Some(filter));
    assert_eq!(s.sort_order, 0);
}

#[test]
fn default_smart_collection_list() {
    let cs = default_smart_collections();
    let names: Vec<&str> = cs.iter().map(|c| c.name.as_str()).collect();
    assert_eq!(names, vec!["Recently Played", "Most Played", "Top Unplayed", "Recently Added", "Favorites"]);
    assert!(cs.iter().all(|c| c.is_smart));
    assert_eq!(cs[0].smart_filter.unwrap().limit, Some(20));
    assert_eq!(cs[4].smart_filter.unwrap().filter_type, SmartFilterType::Favorites);
    assert_eq!(cs[4].smart_filter.unwrap().limit, None);
}
