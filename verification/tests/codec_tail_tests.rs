use recast_core::export::codec::{append_codec_args, export_x264_preset};
use recast_core::export::tail::{append_output_tail, AudioClipSource};
use recast_core::ffmpeg::resolve_export_profile;
use recast_core::types::{GifLoop, GifSettings};

fn gif(l: GifLoop) -> GifSettings {
    GifSettings { fps: None, quality: "medium".into(), loop_setting: l, dither: "bayer".into() }
}

fn strs(v: &[String]) -> Vec<&str> {
    v.iter().map(|s| s.as_str()).collect()
}

#[test]
fn gif_codec_args_carry_the_loop_count_and_output() {
    let mut args = vec!["-y".to_string()];
    let profile = resolve_export_profile("1080p");
    append_codec_args(&mut args, "gif", &gif(GifLoop::Text("once".into())), &profile, 4, vec![], true, "/o/a.gif");
    assert_eq!(
        strs(&args),
        ["-y", "-c:v", "gif", "-f", "gif", "-an", "-vsync", "0", "-loop", "-1", "/o/a.gif"]
    );
}

#[test]
fn webm_codec_args_use_vp9_with_opus_or_no_audio() {
    let profile = resolve_export_profile("small");
    let mut args = Vec::new();
    append_codec_args(&mut args, "webm", &gif(GifLoop::Other), &profile, 5, vec![], true, "/o/a.webm");
    assert_eq!(
        strs(&args),
        [
            "-c:v", "libvpx-vp9", "-crf", "34", "-b:v", "0", "-deadline", "good", "-cpu-used", "5",
            "-row-mt", "1", "-tile-columns", "1", "-threads", "0", "-c:a", "libopus", "/o/a.webm"
        ]
    );
    let mut silent = Vec::new();
    append_codec_args(&mut silent, "webm", &gif(GifLoop::Other), &profile, 5, vec![], false, "/o/a.webm");
    assert_eq!(silent[silent.len() - 2], "-an");
}

#[test]
fn mp4_codec_args_follow_the_encoder_flags_with_pinned_aac() {
    let profile = resolve_export_profile("1080p");
    let h264 = vec!["-c:v".to_string(), "libx264".to_string()];
    let mut args = Vec::new();
    append_codec_args(&mut args, "mp4", &gif(GifLoop::Other), &profile, 4, h264.clone(), true, "/o/a.mp4");
    assert_eq!(
        strs(&args),
        ["-c:v", "libx264", "-c:a", "aac", "-b:a", "192k", "-ar", "48000", "-ac", "2", "/o/a.mp4"]
    );
    let mut silent = Vec::new();
    append_codec_args(&mut silent, "mp4", &gif(GifLoop::Other), &profile, 4, h264, false, "/o/a.mp4");
    assert_eq!(strs(&silent), ["-c:v", "libx264", "-an", "/o/a.mp4"]);
}

#[test]
fn software_x264_presets_are_capped_but_hardware_ones_are_not() {
    assert_eq!(export_x264_preset(None, "slow", true), "medium");
    assert_eq!(export_x264_preset(None, "slow", false), "slow");
    assert_eq!(export_x264_preset(Some("veryfast"), "slow", true), "veryfast");
    assert_eq!(export_x264_preset(Some("placebo"), "fast", true), "medium");
}

#[test]
fn output_tail_caps_the_length_and_credits_music() {
    let clips = vec![AudioClipSource::Provider {
        provider_id: "p".into(),
        track_id: "t".into(),
        asset_path: "/a".into(),
        attribution: Some("Song by A (CC-BY)".into()),
        license: None,
    }];
    let mut args = Vec::new();
    let expected = append_output_tail(&mut args, "mp4", 12345, false, true, &clips);
    assert_eq!(expected, Some(12345));
    assert_eq!(
        strs(&args),
        ["-t", "12.345", "-metadata", "comment=Music: Song by A (CC-BY)"]
    );
}

#[test]
fn output_tail_for_an_untrimmed_gif_with_generators() {
    let clips = vec![AudioClipSource::Provider {
        provider_id: "p".into(),
        track_id: "t".into(),
        asset_path: "/a".into(),
        attribution: Some("x".into()),
        license: None,
    }];
    let mut args = Vec::new();
    let expected = append_output_tail(&mut args, "gif", 0, true, true, &clips);
    assert_eq!(expected, None);
    assert_eq!(strs(&args), ["-shortest"]);
    let mut none = Vec::new();
    assert_eq!(append_output_tail(&mut none, "mp4", 0, true, false, &vec![]), None);
    assert!(none.is_empty());
}
