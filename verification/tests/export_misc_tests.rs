use recast_core::export::codec::cap_software_x264_preset;
use recast_core::export::faststart::{faststart_file_name, needs_faststart, temp_sibling};
use recast_core::export::progress::is_ffmpeg_progress_key_line;
use recast_core::export::run::{is_ffmpeg_crash_code, parse_ffmpeg_exit_code};
use recast_core::export::tail::{build_credits_comment, AudioClipSource};
use std::path::Path;

#[test]
fn caps_sub_realtime_presets_to_medium() {
    for p in ["slow", "slower", "veryslow", "placebo"] {
        assert_eq!(cap_software_x264_preset(p), "medium", "{p} should cap");
    }
}

#[test]
fn leaves_fast_presets_untouched() {
    for p in ["ultrafast", "veryfast", "faster", "fast", "medium"] {
        assert_eq!(cap_software_x264_preset(p), p, "{p} should pass through");
    }
}

#[test]
fn only_mp4_family_outputs_are_remuxed() {
    assert!(needs_faststart("mp4"));
    assert!(needs_faststart("mov"));
    assert!(!needs_faststart("webm"));
    assert!(!needs_faststart("gif"));
}

#[test]
fn the_temp_file_is_a_sibling_of_the_export() {
    let out = "/exports/My Recording (1).mp4";
    let temp = temp_sibling(out);
    assert_eq!(Path::new(&temp).parent(), Path::new(out).parent());
    assert_eq!(
        Path::new(&temp).file_name().unwrap(),
        "My Recording (1).faststart.mp4"
    );
}

#[test]
fn the_faststart_name_keeps_stem_and_extension() {
    assert_eq!(
        faststart_file_name(Some("clip".into()), Some("m4v".into())),
        "clip.faststart.m4v"
    );
    assert_eq!(faststart_file_name(Some("clip".into()), None), "clip.faststart.");
}

#[test]
fn crash_codes_are_out_of_the_normal_exit_range() {
    assert!(is_ffmpeg_crash_code(-1073741819));
    assert!(is_ffmpeg_crash_code(-1));
    assert!(is_ffmpeg_crash_code(256));
    assert!(!is_ffmpeg_crash_code(0));
    assert!(!is_ffmpeg_crash_code(1));
    assert!(!is_ffmpeg_crash_code(255));
}

#[test]
fn parses_exit_code_from_the_error_message() {
    assert_eq!(
        parse_ffmpeg_exit_code("export failed (ffmpeg exit -1073741819):\nboom"),
        Some(-1073741819)
    );
    assert_eq!(
        parse_ffmpeg_exit_code("export failed (ffmpeg exit 1):\nx"),
        Some(1)
    );
    assert_eq!(
        parse_ffmpeg_exit_code("export timed out: no progress"),
        None
    );
}

#[test]
fn an_out_of_range_exit_code_is_not_parsed() {
    assert_eq!(parse_ffmpeg_exit_code("ffmpeg exit 99999999999)"), None);
    assert_eq!(parse_ffmpeg_exit_code("ffmpeg exit --1)"), None);
}

#[test]
fn progress_lines_are_recognised() {
    assert!(is_ffmpeg_progress_key_line("frame=120"));
    assert!(is_ffmpeg_progress_key_line("  out_time_ms=1000"));
    assert!(is_ffmpeg_progress_key_line("stream_0_0_q=23.0"));
    assert!(!is_ffmpeg_progress_key_line("Error opening input"));
}

fn provider(id: &str, attr: Option<&str>) -> AudioClipSource {
    AudioClipSource::Provider {
        provider_id: "jamendo".into(),
        track_id: id.into(),
        asset_path: format!("/{id}.mp3"),
        attribution: attr.map(str::to_string),
        license: None,
    }
}

#[test]
fn credits_comment_dedupes_providers_and_skips_local() {
    let local = AudioClipSource::Local {
        path: "/x.mp3".into(),
    };
    let line = "\"Sunrise\" by Nova (Jamendo)";
    let comment = build_credits_comment(&vec![
        provider("1", Some(line)),
        provider("2", Some(line)),
        local,
    ])
    .expect("comment");
    assert_eq!(comment, format!("Music: {line}"));
    assert!(build_credits_comment(&vec![provider("3", None)]).is_none());
}

#[test]
fn distinct_credits_are_joined_in_first_seen_order() {
    let comment = build_credits_comment(&vec![
        provider("1", Some("A")),
        provider("2", Some("B")),
        provider("3", Some("A")),
    ])
    .unwrap();
    assert_eq!(comment, "Music: A; B");
}

#[test]
fn the_remux_target_ends_with_the_faststart_name() {
    assert!(temp_sibling("/exports/clip.mp4").ends_with("clip.faststart.mp4"));
    assert!(temp_sibling("clip.mov").ends_with("clip.faststart.mov"));
    assert_ne!(temp_sibling("/exports/clip.mp4"), "/exports/clip.mp4");
}

#[test]
fn the_remux_name_splits_at_the_last_dot_and_keeps_a_leading_one() {
    assert_eq!(
        Path::new(&temp_sibling("dir/x.tar.gz")).file_name().unwrap(),
        "x.tar.faststart.gz"
    );
    assert_eq!(
        Path::new(&temp_sibling("dir/.hidden")).file_name().unwrap(),
        ".hidden.faststart."
    );
    assert_eq!(temp_sibling("clip"), "clip.faststart.");
}
