use recast_core::control::{new_control_token, not_running_message};
use recast_core::control::{
    apply_patch, is_heartbeat, parse_method, required_param, response_outcome, route_request,
    start_target, unauthorized_message, watch_event_names, ControlMethod, IntentPatch, Route,
    StartParams,
};
use recast_core::types::CaptureIntent;

#[test]
fn patch_merges_fields_without_clobbering() {
    let mut intent = CaptureIntent::default();
    assert!(intent.options.system_audio);
    apply_patch(
        &mut intent,
        &IntentPatch {
            target_type: Some(Some("display".into())),
            target_id: Some(3),
            ..IntentPatch::default()
        },
    );
    apply_patch(
        &mut intent,
        &IntentPatch {
            microphone: Some(true),
            microphone_device_id: Some(Some("mic-1".into())),
            ..IntentPatch::default()
        },
    );
    apply_patch(
        &mut intent,
        &IntentPatch { system_audio: Some(false), ..IntentPatch::default() },
    );
    apply_patch(&mut intent, &IntentPatch { fps: Some(Some(60)), ..IntentPatch::default() });
    assert_eq!(intent.target_type.as_deref(), Some("display"));
    assert_eq!(intent.target_id, 3);
    assert!(intent.options.microphone);
    assert_eq!(intent.options.microphone_device_id.as_deref(), Some("mic-1"));
    assert!(!intent.options.system_audio);
    assert_eq!(intent.options.fps, Some(60));
}

#[test]
fn patch_null_clears_but_absent_preserves() {
    let mut intent = CaptureIntent::default();
    apply_patch(
        &mut intent,
        &IntentPatch {
            microphone: Some(true),
            microphone_device_id: Some(Some("mic-1".into())),
            ..IntentPatch::default()
        },
    );
    assert_eq!(intent.options.microphone_device_id.as_deref(), Some("mic-1"));
    apply_patch(&mut intent, &IntentPatch { fps: Some(Some(30)), ..IntentPatch::default() });
    assert_eq!(intent.options.microphone_device_id.as_deref(), Some("mic-1"));
    apply_patch(
        &mut intent,
        &IntentPatch { microphone_device_id: Some(None), ..IntentPatch::default() },
    );
    assert_eq!(intent.options.microphone_device_id, None);
}

#[test]
fn a_large_target_id_is_narrowed_like_a_cast() {
    let mut intent = CaptureIntent::default();
    apply_patch(
        &mut intent,
        &IntentPatch { target_id: Some((1u64 << 32) + 5), countdown: Some(Some(3)), ..IntentPatch::default() },
    );
    assert_eq!(intent.target_id, 5);
    assert_eq!(intent.countdown, Some(3));
}

#[test]
fn watch_names_default_all_and_by_group() {
    let all = watch_event_names(&None);
    assert!(all.contains(&"recording:started".to_string()));
    assert!(all.contains(&"recording:stopped".to_string()));
    assert!(all.contains(&"capture-intent:changed".to_string()));
    assert!(all.contains(&"recording-profiles:changed".to_string()));

    assert_eq!(
        watch_event_names(&Some(vec![Some("rec".into())])),
        vec!["recording:started".to_string(), "recording:stopped".to_string()]
    );
    assert_eq!(
        watch_event_names(&Some(vec![Some("selection".into())])),
        vec!["capture-intent:changed".to_string()]
    );
    assert_eq!(
        watch_event_names(&Some(vec![Some("profiles".into())])),
        vec!["recording-profiles:changed".to_string()]
    );
}

#[test]
fn watch_names_are_sorted_and_unique() {
    assert_eq!(watch_event_names(&Some(vec![])).len(), 4);
    assert_eq!(
        watch_event_names(&Some(vec![Some("rec".into()), Some("selection".into()), Some("rec".into()), None])),
        vec![
            "capture-intent:changed".to_string(),
            "recording:started".to_string(),
            "recording:stopped".to_string()
        ]
    );
    assert!(watch_event_names(&Some(vec![Some("nope".into())])).is_empty());
}

#[test]
fn a_wrong_token_is_refused_before_routing() {
    assert_eq!(route_request("secret", "guess", "watch"), Route::Unauthorized);
    assert_eq!(route_request("secret", "secret", "watch"), Route::Watch);
    assert_eq!(route_request("secret", "secret", "status"), Route::Dispatch);
    assert_eq!(unauthorized_message(), "unauthorized");
}

#[test]
fn methods_are_routed_by_name() {
    assert_eq!(parse_method("rec.start"), Ok(ControlMethod::RecStart));
    assert_eq!(parse_method("profile.use"), Ok(ControlMethod::ProfileUse));
    assert_eq!(parse_method("rec.rewind"), Err("unknown method: rec.rewind".to_string()));
    assert_eq!(
        required_param(None, "profile.use requires an id"),
        Err("profile.use requires an id".to_string())
    );
}

#[test]
fn recording_needs_a_source() {
    let err = start_target(None, CaptureIntent::default()).unwrap_err();
    assert_eq!(
        err,
        "no source selected. Pass --screen/--window/--region, or run `recast select ...` first."
    );
    let mut intent = CaptureIntent::default();
    intent.target_type = Some("window".into());
    intent.target_id = 9;
    let p = start_target(None, intent).unwrap();
    assert_eq!((p.target_type.as_str(), p.target_id), ("window", 9));
    assert!(p.options.is_some());
    let explicit = StartParams { target_type: "display".into(), target_id: 1, region: None, options: None };
    let p = start_target(Some(explicit), CaptureIntent::default()).unwrap();
    assert_eq!(p.target_type, "display");
}

#[test]
fn client_responses_and_heartbeats() {
    assert_eq!(response_outcome(true, Some(5), None), Ok(Some(5)));
    assert_eq!(response_outcome::<i32>(false, None, Some("boom".into())), Err("boom".to_string()));
    assert_eq!(response_outcome::<i32>(false, None, None), Err("unknown error".to_string()));
    assert!(is_heartbeat(Some("ping")));
    assert!(!is_heartbeat(Some("recording:started")));
    assert!(!is_heartbeat(None));
}

#[test]
fn control_tokens_are_32_lowercase_hex_digits() {
    let a = new_control_token();
    let b = new_control_token();
    assert_eq!(a.len(), 32);
    assert!(a.chars().all(|c| c.is_ascii_hexdigit() && !c.is_ascii_uppercase()));
    assert_ne!(a, b);
}

#[test]
fn a_stopped_app_is_reported_with_the_launch_hint() {
    assert_eq!(
        not_running_message("connection refused"),
        "Recast is not running (connection refused). Launch it, or drop --no-launch to auto-start."
    );
}
