use recast_core::system::{
    build_capture_capabilities, camera_device_info, camera_validation, check_new_name,
    classify_camera_name, classify_camera_probe, default_microphone, dshow_input,
    encoder_report, final_file_name, log_level_for, microphones, AudioDevice, AudioDirection,
    CapabilityStatus, DisplayEnv, KitCapabilities, LogLevel, Platform,
};
use recast_core::error::AppError;

fn device(id: &str, name: &str, direction: AudioDirection, is_default: bool) -> AudioDevice {
    AudioDevice {
        id: id.to_string(),
        name: name.to_string(),
        direction,
        is_default,
    }
}

fn listed() -> Vec<recast_core::system::AudioDeviceInfo> {
    microphones(&vec![
        device("speakers", "Speakers", AudioDirection::Loopback, true),
        device("yeti", "Blue Yeti", AudioDirection::Input, true),
        device("nameless", "", AudioDirection::Input, false),
    ])
}

#[test]
fn loopback_endpoints_are_not_offered_as_microphones() {
    let ids: Vec<_> = listed().into_iter().map(|d| d.id).collect();
    assert_eq!(ids, vec!["yeti", "nameless"]);
}

#[test]
fn the_default_flag_survives_the_filter() {
    let devices = listed();
    assert!(devices[0].is_default);
    assert!(!devices[1].is_default);
}

#[test]
fn a_device_with_no_name_is_listed_under_its_id() {
    assert_eq!(listed()[1].name, "nameless");
}

#[test]
fn the_default_microphone_row() {
    let d = default_microphone();
    assert_eq!(d.id, "default");
    assert_eq!(d.name, "System default");
    assert!(d.is_default);
}

#[test]
fn classifies_known_flaky_virtual_cameras_as_warning() {
    let (status, message) = classify_camera_name("NVIDIA Broadcast");
    assert_eq!(status, "warning");
    assert!(message.is_some());
}

#[test]
fn classifies_validation_required_virtual_cameras_as_unknown() {
    let (status, message) = classify_camera_name("OBS Virtual Camera");
    assert_eq!(status, "unknown");
    assert!(message.is_some());
}

#[test]
fn classifies_plain_hardware_camera_as_ready_with_no_message() {
    let (status, message) = classify_camera_name("Integrated Camera");
    assert_eq!(status, "ready");
    assert!(message.is_none());
}

#[test]
fn camera_classification_is_case_insensitive() {
    let (status, _) = classify_camera_name("droidcam source");
    assert_eq!(status, "warning");
}

#[test]
fn a_vanished_camera_validates_as_an_error() {
    let devices = vec![camera_device_info("Integrated Camera".into())];
    let gone = camera_validation(devices.clone(), "USB Cam".into(), 42, None);
    assert_eq!(gone.status, "error");
    assert_eq!(gone.name, "USB Cam");
    assert_eq!(gone.probed_at_unix_ms, 42);
    let here = camera_validation(devices.clone(), "Integrated Camera".into(), 7, None);
    assert_eq!(here.status, "ready");
    let probed = camera_validation(
        devices,
        "Integrated Camera".into(),
        7,
        Some(("warning".into(), Some("busy".into()))),
    );
    assert_eq!(probed.status, "warning");
}

#[test]
fn camera_probe_output_is_classified() {
    assert_eq!(classify_camera_probe(true, "").0, "ready");
    assert_eq!(classify_camera_probe(false, "Could not find video device").0, "error");
    assert_eq!(classify_camera_probe(false, "Device is BUSY").0, "warning");
    assert_eq!(
        classify_camera_probe(false, "something else").1.as_deref(),
        Some("Camera probe failed. Preview validation will confirm liveliness.")
    );
    assert_eq!(dshow_input("video=Cam"), "video=Cam");
    assert_eq!(dshow_input("Cam"), "video=Cam");
}

fn kit(pointer: bool, buttons: bool, audio: bool) -> KitCapabilities {
    KitCapabilities {
        cursor_pointer: pointer,
        cursor_buttons: buttons,
        audio_loopback: audio,
    }
}

#[test]
fn linux_prefers_wayland_and_follows_the_audio_backend() {
    let env = DisplayEnv { wayland: true, x11: true };
    let caps = build_capture_capabilities(Platform::Linux, env, kit(false, false, false));
    assert_eq!(caps.platform, "linux");
    assert_eq!(caps.screen_backend, "PipeWire (xdg-desktop-portal)");
    assert_eq!(caps.capabilities.len(), 7);
    assert!(!caps.capabilities[3].supported);
    assert_eq!(caps.capabilities[3].status, CapabilityStatus::Unsupported);
    assert!(!caps.capabilities[6].supported);
    let x11 = build_capture_capabilities(
        Platform::Linux,
        DisplayEnv { wayland: false, x11: true },
        kit(true, false, true),
    );
    assert_eq!(x11.screen_backend, "X11 (XGetImage)");
    assert_eq!(
        x11.capabilities[6].note.as_deref(),
        Some("Movement is tracked, but clicks cannot be detected on this session.")
    );
}

#[test]
fn an_unknown_platform_plans_every_row() {
    let caps = build_capture_capabilities(
        Platform::Other,
        DisplayEnv { wayland: false, x11: false },
        kit(true, true, true),
    );
    assert_eq!(caps.platform, "other");
    assert!(caps
        .capabilities
        .iter()
        .all(|c| !c.supported && c.status == CapabilityStatus::Planned));
    let win = build_capture_capabilities(
        Platform::Windows,
        DisplayEnv { wayland: false, x11: false },
        kit(true, true, true),
    );
    assert_eq!(win.screen_backend, "DXGI Desktop Duplication");
    assert!(win.capabilities.iter().all(|c| c.supported));
}

#[test]
fn encoder_report_sorts_required_and_hardware_encoders() {
    let (present, missing) =
        encoder_report(Some(" V..... libx264\n A..... aac\n V..... h264_nvenc\n"));
    assert_eq!(present, vec!["libx264", "aac", "h264_nvenc"]);
    assert_eq!(missing, vec!["libvpx-vp9", "libopus"]);
    let (present, missing) = encoder_report(None);
    assert!(present.is_empty());
    assert_eq!(missing, vec!["libx264", "aac", "libvpx-vp9", "libopus"]);
}

#[test]
fn the_log_level_follows_the_setting() {
    assert_eq!(log_level_for(true, false), LogLevel::Debug);
    assert_eq!(log_level_for(false, true), LogLevel::Info);
    assert_eq!(log_level_for(false, false), LogLevel::Warn);
}

fn problem(name: &str) -> String {
    match check_new_name(name) {
        Err(AppError::Message(m)) => m,
        _ => String::from("accepted"),
    }
}

#[test]
fn rename_refuses_bad_names_and_keeps_the_extension() {
    assert_eq!(problem("   "), "Name cannot be empty");
    assert_eq!(problem("a/b"), "Name cannot contain path separators");
    assert_eq!(problem("..x"), "Name cannot contain path separators");
    assert_eq!(problem("what?"), "Name contains illegal characters");
    let ok = check_new_name("  Demo take  ").unwrap();
    assert_eq!(ok.iter().collect::<String>(), "Demo take");
    assert_eq!(final_file_name(&ok, Some("mp4")), "Demo take.mp4");
    let with_ext: Vec<char> = "Demo.mov".chars().collect();
    assert_eq!(final_file_name(&with_ext, Some("mp4")), "Demo.mov");
    let hidden: Vec<char> = ".env".chars().collect();
    assert_eq!(final_file_name(&hidden, Some("txt")), ".env.txt");
}
