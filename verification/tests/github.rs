use wingosy_launcher::github::{find_matching_asset, select_asset, GitHubAsset, GitHubRelease};

fn mock_release() -> GitHubRelease {
    GitHubRelease {
        tag_name: "v1.0.0".into(),
        name: Some("Release 1.0".into()),
        assets: vec![
            GitHubAsset { name: "ppsspp-v1.17-windows-x64.zip".into(), browser_download_url: "https://example.com/ppsspp.zip".into(), size: 50000000, content_type: None },
            GitHubAsset { name: "ppsspp-v1.17-linux-x64.tar.gz".into(), browser_download_url: "https://example.com/ppsspp.tar.gz".into(), size: 45000000, content_type: None },
            GitHubAsset { name: "ppsspp-v1.17-macos-arm64.dmg".into(), browser_download_url: "https://example.com/ppsspp.dmg".into(), size: 48000000, content_type: None },
            GitHubAsset { name: "Source.zip".into(), browser_download_url: "https://example.com/source.zip".into(), size: 1000000, content_type: None },
        ],
    }
}

#[test]
fn matches_windows_asset() {
    let release = mock_release();
    let asset = find_matching_asset(&release, "(?i)ppsspp.*windows.*x64.*\\.zip$");
    assert!(asset.is_some());
    assert!(asset.unwrap().name.contains("windows"));
}

#[test]
fn skips_non_matching_assets() {
    let release = mock_release();
    let asset = find_matching_asset(&release, "(?i)ppsspp.*android.*\\.apk$");
    assert!(asset.is_none());
}

#[test]
fn pattern_is_case_insensitive() {
    let release = GitHubRelease {
        tag_name: "v1.0".into(),
        name: None,
        assets: vec![
            GitHubAsset { name: "Dolphin-x64-Setup.7z".into(), browser_download_url: "https://example.com/d.7z".into(), size: 100, content_type: None },
        ],
    };
    let asset = find_matching_asset(&release, "(?i)dolphin.*x64.*\\.7z$");
    assert!(asset.is_some());
}

#[test]
fn first_matching_asset_wins() {
    let release = mock_release();
    let asset = find_matching_asset(&release, "\\.zip$").unwrap();
    assert_eq!(asset.name, "ppsspp-v1.17-windows-x64.zip");
}

#[test]
fn invalid_pattern_finds_nothing() {
    let release = mock_release();
    assert!(find_matching_asset(&release, "(unclosed").is_none());
}

#[test]
fn match_anything_pattern_picks_first_asset() {
    let release = mock_release();
    let asset = find_matching_asset(&release, ".*").unwrap();
    assert_eq!(asset.browser_download_url, "https://example.com/ppsspp.zip");
}

#[test]
fn no_assets_no_match() {
    let release = GitHubRelease { tag_name: "v0".into(), name: None, assets: vec![] };
    assert!(find_matching_asset(&release, ".*").is_none());
}

#[test]
fn select_asset_takes_first_flagged() {
    let release = mock_release();
    let picked = select_asset(&release, &vec![false, false, true, true]).unwrap();
    assert_eq!(picked.name, "ppsspp-v1.17-macos-arm64.dmg");
    assert!(select_asset(&release, &vec![false, false, false, false]).is_none());
}
