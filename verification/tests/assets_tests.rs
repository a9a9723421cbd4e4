use recast_core::assets::{
    cached_action, cached_asset_file, check_digest, find_asset, sha256_hex, verify_download, AssetEntry,
    AssetInstallResult, CachedAction, Manifest,
};

#[test]
fn sha256_of_a_known_string() {
    assert_eq!(
        sha256_hex(b"abc"),
        "ba7816bf8f01cfea414140de5dae2223b00361a396177a9cb410ff61f20015ad"
    );
}

#[test]
fn a_download_must_match_its_digest_in_any_case() {
    assert!(verify_download(
        b"abc",
        "BA7816BF8F01CFEA414140DE5DAE2223B00361A396177A9CB410FF61F20015AD"
    )
    .is_ok());
    assert_eq!(
        check_digest("00", "ff"),
        Err("sha256 mismatch (expected ff, got 00)".to_string())
    );
}

#[test]
fn cached_files_are_kept_replaced_or_downloaded() {
    assert_eq!(cached_action(&None, "aa"), CachedAction::Download);
    assert_eq!(cached_action(&Some(Some("AA".into())), "aa"), CachedAction::Skip);
    assert_eq!(cached_action(&Some(Some("bb".into())), "aa"), CachedAction::Replace);
    assert_eq!(cached_action(&Some(None), "aa"), CachedAction::Replace);
}

fn entry(id: &str) -> AssetEntry {
    AssetEntry {
        id: id.into(),
        filename: format!("{id}.bin"),
        url: format!("https://cdn.example/{id}"),
        sha256: "00".into(),
        size: None,
        version: None,
    }
}

#[test]
fn install_results_are_tallied() {
    let mut r = AssetInstallResult::new("/cache".into());
    r.record_skipped("a".into());
    r.record_download("b".into(), Ok(()));
    r.record_download("c".into(), Err("http: 404".into()));
    assert_eq!(r.skipped, vec!["a"]);
    assert_eq!(r.installed, vec!["b"]);
    assert_eq!(r.failed.len(), 1);
    assert_eq!(r.failed[0].reason, "http: 404");
    let m = Manifest { version: None, assets: vec![entry("x"), entry("y")] };
    assert_eq!(find_asset(&m, "y"), Some(1));
    assert_eq!(find_asset(&m, "z"), None);
}

#[test]
fn a_cached_asset_is_looked_up_by_id_in_the_assets_directory() {
    let m = Manifest { version: None, assets: vec![entry("x"), entry("y")] };
    let sep = std::path::MAIN_SEPARATOR;
    assert_eq!(cached_asset_file(&m, "/cache", "y"), Some(format!("/cache{sep}y.bin")));
    assert_eq!(cached_asset_file(&m, "/cache", "z"), None);
}
