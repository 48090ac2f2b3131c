use wingosy_launcher::cores::{core_archive_name, core_extraction_result, core_path, get_cores_dir, is_core_entry};
use wingosy_launcher::detection::{detections_given, find_retroarch_cores, get_common_install_paths};

#[test]
fn core_file_next_to_retroarch() {
    assert_eq!(core_path("/opt/RetroArch/retroarch.exe", "snes9x_libretro.dll"), "/opt/RetroArch/cores/snes9x_libretro.dll");
    assert_eq!(core_path("retroarch.exe", "mgba_libretro.dll"), "cores/mgba_libretro.dll");
    assert_eq!(get_cores_dir(""), "cores");
    assert_eq!(core_path("", "x.dll"), "cores/x.dll");
    assert_eq!(get_cores_dir("/opt/Retro Arch/retro arch.exe"), "/opt/Retro Arch/cores");
    assert_eq!(get_cores_dir("C:/RetroArch/retroarch.exe"), "C:/RetroArch/cores");
    assert_eq!(get_cores_dir("retroarch.exe"), "cores");
    assert_eq!(get_cores_dir("/"), "cores");
}

#[test]
fn cores_found_in_listing() {
    let names: Vec<String> =
        vec!["a_libretro.dll".into(), "notes.txt".into(), ".dll".into(), "c.DLL".into(), "x.tar.dll".into()];
    let cores = find_retroarch_cores("/ra/retroarch.exe", &names);
    assert_eq!(cores.len(), 2);
    assert_eq!(cores[0].name, "a_libretro");
    assert_eq!(cores[0].path, "/ra/cores/a_libretro.dll");
    assert_eq!(cores[1].name, "x.tar");
    assert_eq!(cores[1].path, "/ra/cores/x.tar.dll");
    assert!(find_retroarch_cores("/ra/retroarch.exe", &Vec::new()).is_empty());
}

#[test]
fn core_archive_entries() {
    assert_eq!(core_archive_name("mgba_libretro.dll"), "mgba_libretro.dll.zip");
    assert!(is_core_entry("mgba_libretro.dll"));
    assert!(is_core_entry("sub/mgba_libretro.dll"));
    assert!(is_core_entry(".dll"));
    assert!(!is_core_entry("readme.txt"));
    assert!(!is_core_entry("core.DLL"));
    assert!(!is_core_entry("dll"));
}

#[test]
fn core_extraction_outcome() {
    assert_eq!(core_extraction_result(true, "mgba_libretro.dll"), Ok(()));
    assert_eq!(
        core_extraction_result(false, "mgba_libretro.dll"),
        Err("Core file not found after extraction: mgba_libretro.dll".to_string())
    );
}

#[test]
fn install_locations_from_environment() {
    let paths = get_common_install_paths(
        &Some("/pf".into()),
        &Some("/pf86".into()),
        &Some("/local".into()),
        &Some("/roaming".into()),
        &Some("/home/u".into()),
    );
    let expected = vec![
        "/pf",
        "/pf/Emulators",
        "/pf86",
        "/local",
        "/local/Programs",
        "/roaming",
        "/home/u/Emulators",
        "/home/u/Games/Emulators",
        "/home/u/Downloads",
    ];
    assert_eq!(&paths[..expected.len()], &expected[..]);
    let only_profile = get_common_install_paths(&None, &None, &None, &None, &Some("/home/u".into()));
    assert_eq!(&only_profile[..3], &["/home/u/Emulators", "/home/u/Games/Emulators", "/home/u/Downloads"][..]);
    let none = get_common_install_paths(&None, &None, &None, &None, &None);
    assert!(none.len() % 2 == 0 && none.len() <= 8);
}

#[test]
fn detections_from_answers() {
    let bases: Vec<String> = vec!["/b".into()];
    let mut found = vec![false; 69];
    // RetroArch's first executable: found in the named and the lowercase folders.
    found[1] = true;
    found[2] = true;
    // Dolphin: found only in the lowercase folder.
    found[8] = true;
    // MAME's second executable (the last place of all): directly in the directory.
    found[66] = true;
    let r = detections_given(&bases, &found);
    assert_eq!(r.len(), 3);
    assert_eq!((r[0].id.as_str(), r[0].name.as_str(), r[0].path.as_str()), ("retroarch", "RetroArch", "/b/RetroArch/retroarch.exe"));
    assert_eq!((r[1].id.as_str(), r[1].path.as_str()), ("dolphin", "/b/dolphin/Dolphin.exe"));
    assert_eq!((r[2].id.as_str(), r[2].path.as_str()), ("mame", "/b/mame64.exe"));
    assert!(r.iter().all(|d| d.version.is_none()));
    assert!(detections_given(&bases, &vec![false; 69]).is_empty());
    let two: Vec<String> = vec!["".into(), "/x".into()];
    let mut f2 = vec![false; 138];
    f2[69] = true;
    f2[0] = true;
    let r2 = detections_given(&two, &f2);
    assert_eq!(r2.iter().map(|d| d.path.as_str()).collect::<Vec<_>>(), vec!["retroarch.exe", "/x/retroarch.exe"]);
}
