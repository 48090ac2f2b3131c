use wingosy_launcher::config::EmulatorPaths;
use wingosy_launcher::launcher::EmulatorLauncher;
use wingosy_launcher::models::platform::detect_platform_by_extension;

#[test]
fn supported_platform_extensions() {
    let table: &[(&str, &[&str])] = &[
        ("nes", &[".nes", ".unf"]),
        ("snes", &[".sfc", ".smc"]),
        ("n64", &[".n64", ".z64", ".v64"]),
        ("gc", &[".iso", ".gcm", ".rvz"]),
        ("wii", &[".wbfs"]),
        ("wiiu", &[".wud", ".wux", ".rpx"]),
        ("switch", &[".nsp", ".xci"]),
        ("gb", &[".gb"]),
        ("gbc", &[".gbc"]),
        ("gba", &[".gba"]),
        ("nds", &[".nds"]),
        ("3ds", &[".3ds", ".cia"]),
        ("psx", &[".bin", ".cue", ".chd"]),
        ("ps3", &[".pkg"]),
        ("psp", &[".cso"]),
        ("genesis", &[".md", ".gen"]),
        ("dreamcast", &[".gdi", ".cdi"]),
        ("xbox", &[".xiso"]),
        ("xbox360", &[".xex"]),
        ("arcade", &[".zip"]),
    ];
    for (platform, extensions) in table {
        for ext in *extensions {
            assert_eq!(detect_platform_by_extension(ext).as_deref(), Some(*platform), "extension {}", ext);
        }
    }
}

#[test]
fn recommended_emulators_are_offered() {
    let launcher = EmulatorLauncher::new(EmulatorPaths::new());
    let table: &[(&str, &str)] = &[
        ("gc", "dolphin"),
        ("wii", "dolphin"),
        ("wiiu", "cemu"),
        ("switch", "ryujinx"),
        ("switch", "yuzu"),
        ("gba", "mgba"),
        ("nds", "melonds"),
        ("3ds", "citra"),
        ("psx", "duckstation"),
        ("ps2", "pcsx2"),
        ("ps3", "rpcs3"),
        ("psp", "ppsspp"),
        ("dreamcast", "flycast"),
        ("xbox", "xemu"),
        ("xbox360", "xenia"),
        ("arcade", "mame"),
        ("genesis", "retroarch"),
        ("nes", "retroarch"),
    ];
    for (platform, emulator) in table {
        let offered = launcher.get_available_emulators_for_platform(platform);
        assert!(offered.iter().any(|e| e.id == *emulator), "{} for {}", emulator, platform);
        assert_eq!(offered[0].id, "retroarch");
    }
}
