use wingosy_launcher::sync::{synced_game, LibrarySync, RemoteRom, SyncStep};

fn rom(id: i32, name: &str, has_cover: bool, first_release_date: Option<i64>) -> RemoteRom {
    RemoteRom {
        id,
        name: name.into(),
        platform_slug: "snes".into(),
        fs_name: format!("{}.sfc", name),
        has_cover,
        first_release_date,
    }
}

#[test]
fn synced_game_fields() {
    let g = synced_game(&rom(42, "Zelda", true, Some(662688000)));
    assert_eq!(g.romm_id, 42);
    assert_eq!(g.name, "Zelda");
    assert_eq!(g.platform_slug, "snes");
    assert_eq!(g.file_path, "Zelda.sfc");
    assert_eq!(g.cover_file.as_deref(), Some("42.jpg"));
    assert_eq!(g.release_year, Some(1991));
    assert!(!g.is_favorite);
    assert_eq!(g.play_count, 0);
    assert_eq!(g.play_time_minutes, 0);
    assert_eq!(g.local_file_path, None);
    let h = synced_game(&rom(7, "Mario", false, None));
    assert_eq!(h.cover_file, None);
    assert_eq!(h.release_year, None);
    assert_eq!(synced_game(&rom(8, "Old", false, Some(0))).release_year, Some(1970));
    assert_eq!(synced_game(&rom(9, "Ancient", false, Some(-62_200_000_000))).release_year, None);
    assert_eq!(synced_game(&rom(10, "Far", false, Some(i64::MAX))).release_year, None);
}

#[test]
fn sync_pages_skip_repeated_roms() {
    let (mut sync, first) = LibrarySync::new();
    assert_eq!(first, SyncStep::FetchPage { offset: 0, limit: 100 });
    let page1 = vec![rom(1, "A", false, None), rom(2, "B", true, None), rom(1, "A again", false, None)];
    assert_eq!(sync.take_page(&page1, 5), SyncStep::FetchPage { offset: 3, limit: 100 });
    assert_eq!(sync.games().iter().map(|g| g.romm_id).collect::<Vec<_>>(), vec![1, 2]);
    let page2 = vec![rom(2, "B", true, None), rom(3, "C", false, Some(978_307_200))];
    assert_eq!(sync.take_page(&page2, 5), SyncStep::Finished);
    assert_eq!(sync.games().iter().map(|g| g.romm_id).collect::<Vec<_>>(), vec![1, 2, 3]);
    assert_eq!(sync.games()[0].name, "A");
}

#[test]
fn sync_stops_on_empty_page() {
    let (mut sync, _) = LibrarySync::new();
    assert_eq!(sync.take_page(&Vec::new(), 10), SyncStep::Finished);
    assert!(sync.games().is_empty());
}
