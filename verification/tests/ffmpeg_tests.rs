use recast_core::ffmpeg::{
    append_cursor_overlay_to_complex, append_output_filters_to_complex,
    build_gif_palette_complex, build_output_scale_filter, resolve_export_profile,
    summarize_ffmpeg_error, summarize_ffmpeg_text, GifFilterOptions,
};
use recast_core::types::{GifLoop, GifSettings};

#[test]
fn includes_fps_and_default_palette() {
    let (complex, label) = build_gif_palette_complex(
        None,
        "vout",
        GifFilterOptions { fps: 12, max_colors: 128, dither: "bayer" },
        None,
    );
    assert_eq!(label, "[vgif]");
    assert!(complex.starts_with("[vout]fps=12"), "got: {complex}");
    assert!(complex.contains("max_colors=128"));
    assert!(complex.contains("dither=bayer:bayer_scale=5"));
    assert!(complex.contains("paletteuse"));
    assert!(complex.contains("[vgif]"));
}

#[test]
fn ffmpeg_appends_to_existing_filter_complex() {
    let (complex, _) = build_gif_palette_complex(
        Some("[0:v]hflip[vout]"),
        "[vout]",
        GifFilterOptions::default(),
        None,
    );
    assert!(complex.starts_with("[0:v]hflip[vout];"));
    assert!(complex.contains("[vout]fps=15"));
}

#[test]
fn bakes_inline_scale_before_split() {
    let (complex, _) = build_gif_palette_complex(
        None,
        "vout",
        GifFilterOptions { fps: 18, max_colors: 256, dither: "bayer" },
        Some("scale=w=720:h=-1"),
    );
    let split_idx = complex.find("split").expect("split present");
    let scale_idx = complex.find("scale=").expect("scale present");
    assert!(scale_idx < split_idx, "scale must come before split: {complex}");
}

#[test]
fn sierra2_emits_bare_dither_arg() {
    let (complex, _) = build_gif_palette_complex(
        None,
        "vout",
        GifFilterOptions { fps: 15, max_colors: 128, dither: "sierra2" },
        None,
    );
    assert!(complex.contains("dither=sierra2"), "got: {complex}");
    assert!(!complex.contains("bayer_scale"));
}

#[test]
fn dither_none_disables_dither() {
    let (complex, _) = build_gif_palette_complex(
        None,
        "vout",
        GifFilterOptions { fps: 15, max_colors: 128, dither: "none" },
        None,
    );
    assert!(complex.contains("dither=none"));
}

#[test]
fn unknown_dither_falls_back_to_bayer() {
    let (complex, _) = build_gif_palette_complex(
        None,
        "vout",
        GifFilterOptions { fps: 15, max_colors: 128, dither: "wat" },
        None,
    );
    assert!(complex.contains("dither=bayer:bayer_scale=5"));
}

#[test]
fn fps_zero_clamps_to_one() {
    let (complex, _) = build_gif_palette_complex(
        None,
        "vout",
        GifFilterOptions { fps: 0, max_colors: 128, dither: "bayer" },
        None,
    );
    assert!(complex.contains("fps=1"), "got: {complex}");
}

#[test]
fn max_colors_clamped_to_gif_palette() {
    let (complex, _) = build_gif_palette_complex(
        None,
        "vout",
        GifFilterOptions { fps: 15, max_colors: 9999, dither: "bayer" },
        None,
    );
    assert!(complex.contains("max_colors=256"));

    let (complex, _) = build_gif_palette_complex(
        None,
        "vout",
        GifFilterOptions { fps: 15, max_colors: 1, dither: "bayer" },
        None,
    );
    assert!(complex.contains("max_colors=2"));
}

#[test]
fn the_whole_palette_chain() {
    let (complex, _) = build_gif_palette_complex(
        Some(""),
        "vout",
        GifFilterOptions { fps: 10, max_colors: 64, dither: "none" },
        Some(""),
    );
    assert_eq!(
        complex,
        "[vout]fps=10,split[_gifa][_gifb];[_gifa]palettegen=max_colors=64:stats_mode=diff[_gifp];[_gifb][_gifp]paletteuse=dither=none:diff_mode=rectangle[vgif]"
    );
}

fn settings(l: GifLoop) -> GifSettings {
    GifSettings { fps: None, quality: "medium".into(), loop_setting: l, dither: "bayer".into() }
}

#[test]
fn loop_infinite_to_zero() {
    assert_eq!(settings(GifLoop::Text("infinite".into())).ffmpeg_loop_arg(), 0);
}

#[test]
fn loop_once_to_minus_one() {
    assert_eq!(settings(GifLoop::Text("once".into())).ffmpeg_loop_arg(), -1);
}

#[test]
fn loop_numeric_passthrough() {
    assert_eq!(settings(GifLoop::Number(Some(3))).ffmpeg_loop_arg(), 3);
}

#[test]
fn loop_negative_clamped_to_minus_one() {
    assert_eq!(settings(GifLoop::Number(Some(-5))).ffmpeg_loop_arg(), -1);
}

#[test]
fn an_unreadable_loop_loops_forever() {
    assert_eq!(settings(GifLoop::Number(None)).ffmpeg_loop_arg(), 0);
    assert_eq!(settings(GifLoop::Other).ffmpeg_loop_arg(), 0);
    assert_eq!(settings(GifLoop::Text("twice".into())).ffmpeg_loop_arg(), 0);
}

#[test]
fn quality_to_max_colors() {
    let mut s = GifSettings::default();
    s.quality = "low".into();
    assert_eq!(s.max_colors(), 64);
    s.quality = "medium".into();
    assert_eq!(s.max_colors(), 128);
    s.quality = "high".into();
    assert_eq!(s.max_colors(), 256);
    s.quality = "garbage".into();
    assert_eq!(s.max_colors(), 128);
}

#[test]
fn output_filters_join_onto_the_graph() {
    let (complex, label) = append_output_filters_to_complex(
        "[0:v]hflip[v]",
        "v",
        &vec!["scale=1280:-2".to_string(), "format=yuv420p".to_string()],
    );
    assert_eq!(complex, "[0:v]hflip[v];[v]scale=1280:-2,format=yuv420p[vfinal]");
    assert_eq!(label, "[vfinal]");
    let (complex, _) = append_output_filters_to_complex("x", "[a]", &vec![]);
    assert_eq!(complex, "x;[a][vfinal]");
}

#[test]
fn the_cursor_overlay_appends_or_starts_the_graph() {
    let (complex, label) = append_cursor_overlay_to_complex(None, "0:v:0", 2);
    assert_eq!(complex, "[0:v:0][2:v]overlay=0:0:format=auto[vcursor]");
    assert_eq!(label, "[vcursor]");
    let (complex, _) = append_cursor_overlay_to_complex(Some("[0:v]null[vout]"), "[vout]", 1);
    assert_eq!(complex, "[0:v]null[vout];[vout][1:v]overlay=0:0:format=auto[vcursor]");
}

#[test]
fn export_profiles_by_quality() {
    let small = resolve_export_profile("small");
    assert_eq!((small.max_width, small.max_height), (Some(1280), Some(720)));
    assert_eq!(small.mp4_preset, "veryfast");
    let source = resolve_export_profile("source");
    assert_eq!(source.max_width, None);
    assert_eq!(build_output_scale_filter(source), None);
    let other = resolve_export_profile("whatever");
    assert_eq!(other.mp4_crf, 22);
    assert_eq!(
        build_output_scale_filter(other).as_deref(),
        Some("scale=w='min(iw,1920)':h='min(ih,1080)':force_original_aspect_ratio=decrease:flags=lanczos")
    );
    assert_eq!(resolve_export_profile("4k").gif_fps, 18);
}

#[test]
fn the_error_summary_keeps_the_last_eight_lines() {
    let text = (1..=10).map(|i| format!("  line {i}\r")).collect::<Vec<_>>().join("\n");
    assert_eq!(
        summarize_ffmpeg_text(&format!("{text}\n\n   \n")),
        "line 3\nline 4\nline 5\nline 6\nline 7\nline 8\nline 9\nline 10"
    );
    assert_eq!(summarize_ffmpeg_text("one\n\ntwo"), "one\ntwo");
    assert_eq!(
        summarize_ffmpeg_error(b" \n\t\n"),
        "FFmpeg failed without returning a detailed error."
    );
    assert_eq!(summarize_ffmpeg_error(b"bad \xff byte"), "bad \u{fffd} byte");
}
