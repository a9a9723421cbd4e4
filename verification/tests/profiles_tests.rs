use recast_core::profiles::{
    apply_profile_to_intent, find_profile, format_uuid_v4, new_id, seed_profiles,
    use_profile_by_id, ProfilesState, RecordingProfile,
};
use recast_core::types::CaptureIntent;

fn profile(id: &str, name: &str) -> RecordingProfile {
    RecordingProfile {
        id: id.into(),
        name: name.into(),
        system_audio: true,
        microphone: false,
        mic_device_id: None,
        mic_label: None,
        camera: false,
        camera_label: None,
        camera_device_id: None,
        countdown: None,
        is_default: false,
    }
}

#[test]
fn seed_has_three_and_exactly_one_default() {
    let seed = seed_profiles();
    assert_eq!(seed.len(), 3);
    assert_eq!(seed.iter().filter(|p| p.is_default).count(), 1);
    assert_ne!(seed[0].id, seed[1].id);
    assert_ne!(seed[1].id, seed[2].id);
}

#[test]
fn apply_maps_capture_fields_and_active_id() {
    let mut prof = profile("p2", "Tutorial");
    prof.microphone = true;
    prof.mic_device_id = Some("mic-7".into());
    prof.camera = true;
    prof.camera_label = Some("HD Webcam".into());
    prof.camera_device_id = Some("browser-cam-id".into());
    prof.countdown = Some(3);
    prof.system_audio = false;

    let mut intent = CaptureIntent::default();
    apply_profile_to_intent(&mut intent, &prof);

    assert!(!intent.options.system_audio);
    assert!(intent.options.microphone);
    assert_eq!(intent.options.microphone_device_id.as_deref(), Some("mic-7"));
    assert!(intent.options.camera);
    assert_eq!(intent.options.camera_device_id.as_deref(), Some("HD Webcam"));
    assert_eq!(intent.countdown, Some(3));
    assert_eq!(intent.active_profile_id.as_deref(), Some("p2"));
}

#[test]
fn apply_clears_device_pointers_when_capability_off() {
    let mut prof = profile("p3", "Silent");
    prof.microphone = false;
    prof.mic_device_id = Some("stale-mic".into());
    prof.camera = false;
    prof.camera_label = Some("stale-cam".into());

    let mut intent = CaptureIntent::default();
    apply_profile_to_intent(&mut intent, &prof);

    assert!(!intent.options.microphone);
    assert_eq!(intent.options.microphone_device_id, None);
    assert!(!intent.options.camera);
    assert_eq!(intent.options.camera_device_id, None);
}

#[test]
fn the_camera_pointer_falls_back_to_the_browser_id() {
    let mut prof = profile("p4", "Cam");
    prof.camera = true;
    prof.camera_device_id = Some("browser-cam-id".into());
    let mut intent = CaptureIntent::default();
    apply_profile_to_intent(&mut intent, &prof);
    assert_eq!(intent.options.camera_device_id.as_deref(), Some("browser-cam-id"));
}

#[test]
fn the_seed_names_and_toggles() {
    let seeded = ProfilesState::seeded();
    assert!(seeded.enabled);
    let names: Vec<&str> = seeded.profiles.iter().map(|p| p.name.as_str()).collect();
    assert_eq!(names, vec!["Screen only", "Tutorial", "Presentation"]);
    assert!(seeded.profiles[0].is_default);
    assert!(seeded.profiles[2].microphone && seeded.profiles[2].camera);
    assert!(seeded.profiles.iter().all(|p| p.system_audio));
}

#[test]
fn uuid_text_sets_version_and_variant() {
    let text = format_uuid_v4(vec![0xff; 16]);
    assert_eq!(text, "ffffffff-ffff-4fff-bfff-ffffffffffff");
    let zero = format_uuid_v4(vec![0; 16]);
    assert_eq!(zero, "00000000-0000-4000-8000-000000000000");
    let id = new_id();
    assert_eq!(id.len(), 36);
    assert_eq!(&id[14..15], "4");
}

#[test]
fn a_profile_is_found_by_id_then_by_name_ignoring_case() {
    let ps = vec![profile("a", "Tutorial"), profile("tutorial", "Other"), profile("c", "Demo")];
    assert_eq!(find_profile(&ps, "tutorial"), Some(1));
    assert_eq!(find_profile(&ps, "DEMO"), Some(2));
    assert_eq!(find_profile(&ps, "nope"), None);
}

#[test]
fn using_an_unknown_profile_is_refused() {
    let ps = vec![profile("a", "Tutorial")];
    let err = use_profile_by_id(&ps, CaptureIntent::default(), "zzz").unwrap_err();
    assert_eq!(err, "no profile matching 'zzz'");
    let next = use_profile_by_id(&ps, CaptureIntent::default(), "TUTORIAL").unwrap();
    assert_eq!(next.active_profile_id.as_deref(), Some("a"));
}
