use recast_core::recordings::{has_listed_extension, newest_first};
use recast_core::types::RecordingEntry;

fn entry(name: &str, modified: u64) -> RecordingEntry {
    RecordingEntry {
        filename: name.into(),
        path: format!("/r/{name}"),
        size_bytes: 1,
        created: modified,
        modified,
        needs_migration: false,
    }
}

#[test]
fn only_listed_extensions_are_shown() {
    let exts = ["mp4", "webm", "gif"];
    assert!(has_listed_extension(Some("mp4"), &exts));
    assert!(has_listed_extension(Some("gif"), &exts));
    assert!(!has_listed_extension(Some("MP4"), &exts));
    assert!(!has_listed_extension(Some("recast"), &exts));
    assert!(!has_listed_extension(None, &exts));
    assert!(has_listed_extension(None, &[""]));
}

#[test]
fn listing_is_newest_first_and_keeps_ties_in_order() {
    let sorted = newest_first(vec![
        entry("a", 10),
        entry("b", 30),
        entry("c", 20),
        entry("d", 30),
        entry("e", 10),
    ]);
    let names: Vec<&str> = sorted.iter().map(|e| e.filename.as_str()).collect();
    assert_eq!(names, ["b", "d", "c", "a", "e"]);
    assert!(newest_first(vec![]).is_empty());
}
