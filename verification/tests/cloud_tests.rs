use recast_core::cloud::{init_request, side_upload_is_put, unsupported_provider_message, upload_method_supported};
use recast_core::cloud::{
    bearer, delete_succeeded, explicit_workspace, has_content_type, humanize_complete_error,
    humanize_init_error, map_visibility, reason_of, settings_value, token_or_err,
    CloudUploadRecord, UploadManifest,
};
use recast_core::error::AppError;

fn record(id: &str, slug: &str) -> CloudUploadRecord {
    CloudUploadRecord {
        recast_id: id.to_string(),
        slug: slug.to_string(),
        share_url: format!("https://recast.example/s/{slug}"),
        uploaded_at: 1_700_000_000,
    }
}

#[test]
fn bearer_prefixes_the_token() {
    assert_eq!(bearer("abc123"), "Bearer abc123");
}

#[test]
fn reason_of_reads_top_level_reason() {
    assert_eq!(
        reason_of(r#"{"reason":"storage_over_cap"}"#).as_deref(),
        Some("storage_over_cap"),
    );
}

#[test]
fn reason_of_reads_nested_denial_reason() {
    assert_eq!(
        reason_of(r#"{"denial":{"reason":"duration_over_cap"}}"#).as_deref(),
        Some("duration_over_cap"),
    );
}

#[test]
fn reason_of_returns_none_for_non_json_or_missing_reason() {
    assert_eq!(reason_of("not json at all"), None);
    assert_eq!(reason_of(r#"{"foo":"bar"}"#), None);
}

#[test]
fn humanize_init_error_prefers_reason_over_status() {
    assert_eq!(
        humanize_init_error(500, r#"{"reason":"storage_over_cap"}"#),
        "You're out of cloud storage. Upgrade or free up space.",
    );
}

#[test]
fn humanize_init_error_falls_back_to_status() {
    assert_eq!(
        humanize_init_error(401, "{}"),
        "Your Recast Cloud session expired. Sign in again.",
    );
    assert_eq!(
        humanize_init_error(403, "{}"),
        "You don't have access to that workspace.",
    );
    assert_eq!(humanize_init_error(500, "{}"), "Upload init failed (500).");
}

#[test]
fn humanize_complete_error_maps_reason_and_status() {
    assert_eq!(
        humanize_complete_error(200, r#"{"reason":"upload_missing"}"#),
        "The upload didn't arrive — please try again.",
    );
    assert_eq!(humanize_complete_error(500, "{}"), "Finalize failed (500).");
}

#[test]
fn a_nested_denial_without_a_string_reason_does_not_fall_back() {
    // `denial.reason` exists, so the top-level reason is not consulted.
    assert_eq!(
        reason_of(r#"{"denial":{"reason":7},"reason":"storage_over_cap"}"#),
        None
    );
    assert_eq!(
        humanize_init_error(413, r#"{"denial":{"reason":"resolution_over_cap"}}"#),
        "Your plan caps cloud sharing at 720p. Export at 720p, or upgrade for HD."
    );
}

#[test]
fn token_is_required() {
    assert_eq!(token_or_err(Some("t".into())), Ok("t".to_string()));
    assert_eq!(
        token_or_err(None),
        Err("Not signed in to Recast Cloud".to_string())
    );
}

#[test]
fn an_empty_workspace_is_not_explicit() {
    assert_eq!(explicit_workspace(Some("ws_1".into())), Some("ws_1".to_string()));
    assert_eq!(explicit_workspace(Some(String::new())), None);
    assert_eq!(explicit_workspace(None), None);
}

#[test]
fn visibility_maps_workspace_to_team_and_refuses_unknown() {
    assert_eq!(map_visibility("public").unwrap(), "public");
    assert_eq!(map_visibility("workspace").unwrap(), "team");
    assert_eq!(map_visibility("team").unwrap(), "team");
    assert_eq!(map_visibility("private").unwrap(), "private");
    match map_visibility("friends") {
        Err(AppError::Message(m)) => assert_eq!(m, "Unknown visibility: friends"),
        _ => panic!("unknown visibility must be refused"),
    }
}

#[test]
fn settings_fields_unchanged_cleared_or_set() {
    assert_eq!(settings_value(None), None);
    assert_eq!(settings_value(Some(String::new())), Some(None));
    assert_eq!(
        settings_value(Some("hunter22".into())),
        Some(Some("hunter22".to_string()))
    );
}

#[test]
fn a_missing_cloud_copy_counts_as_deleted() {
    assert!(delete_succeeded(204));
    assert!(delete_succeeded(404));
    assert!(!delete_succeeded(500));
    assert!(!delete_succeeded(403));
}

#[test]
fn content_type_header_is_found_in_any_case() {
    assert!(has_content_type(&vec!["x-amz-acl".into(), "CONTENT-TYPE".into()]));
    assert!(!has_content_type(&vec!["x-amz-acl".into()]));
}

#[test]
fn a_recorded_upload_reads_back() {
    let mut m = UploadManifest::new();
    m.record_upload("/v/a.mp4".into(), record("r1", "a"));
    m.record_upload("/v/b.mp4".into(), record("r2", "b"));
    m.record_upload("/v/a.mp4".into(), record("r3", "a2"));
    assert_eq!(m.entries.len(), 2);
    assert_eq!(m.get("/v/a.mp4").unwrap().recast_id, "r3");
    assert_eq!(m.get("/v/b.mp4").unwrap().slug, "b");
    assert!(m.get("/v/c.mp4").is_none());
}

#[test]
fn forgetting_drops_only_the_named_records() {
    let mut m = UploadManifest::new();
    m.record_upload("/v/a.mp4".into(), record("r1", "a"));
    m.record_upload("/v/b.mp4".into(), record("r1", "b"));
    m.record_upload("/v/c.mp4".into(), record("r2", "c"));
    assert!(m.forget_path("/v/c.mp4"));
    assert!(!m.forget_path("/v/c.mp4"));
    assert!(m.forget_by_recast_id("r1"));
    assert!(!m.forget_by_recast_id("r1"));
    assert!(m.entries.is_empty());
}

#[test]
fn the_init_request_trims_the_title_and_omits_an_empty_workspace() {
    let r = init_request("  Demo  ", 12, 1000, 1280, 720, 30, Some(String::new()), true);
    assert_eq!(r.title, "Demo");
    assert!(r.workspace_id.is_none());
    assert!(r.has_captions);
    let r = init_request("T", 1, 1, 1, 1, 1, Some("ws".into()), false);
    assert_eq!(r.workspace_id.as_deref(), Some("ws"));
}

#[test]
fn only_put_uploads_are_supported() {
    assert!(upload_method_supported("put"));
    assert!(upload_method_supported("PUT"));
    assert!(!upload_method_supported("POST"));
    assert!(side_upload_is_put("Put"));
    assert!(!side_upload_is_put("GET"));
    assert_eq!(
        unsupported_provider_message(),
        "This storage provider isn't supported by the desktop uploader yet."
    );
}
