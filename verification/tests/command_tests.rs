use recast_core::export::audio::{append_audio_to_complex, build_music_stage};
use recast_core::export::command::encode_head_args;
use recast_core::export::gif::gif_cut_chain;
use recast_core::export::gif::{append_prepass_tail, browser_gif_args};
use recast_core::export::align::AudioKind;
use recast_core::export::command::{
    append_graph_args, append_graph_segment, append_mux_args, decode_mode_of, export_extension,
    is_hardware_encoder, output_stem, retry_in_software, value_after, video_encoder_of,
    FILTER_COMPLEX_SCRIPT_THRESHOLD,
};
use recast_core::export::inputs::{encode_input_layout, plan_encode_audio_inputs, EncodeInputs};

fn strs(v: &[String]) -> Vec<&str> {
    v.iter().map(|s| s.as_str()).collect()
}

fn owned(v: &[&str]) -> Vec<String> {
    v.iter().map(|s| s.to_string()).collect()
}

#[test]
fn exports_are_named_after_the_source() {
    assert_eq!(export_extension("gif"), "gif");
    assert_eq!(export_extension("webm"), "webm");
    assert_eq!(export_extension("mov"), "mp4");
    assert_eq!(output_stem(Some("Demo".into())), "Demo");
    assert_eq!(output_stem(Some(String::new())), "Recast_export");
    assert_eq!(output_stem(None), "Recast_export");
}

#[test]
fn graph_segments_join_with_semicolons() {
    assert_eq!(append_graph_segment(None, "[1:a]anull[m]".into()), Some("[1:a]anull[m]".into()));
    assert_eq!(append_graph_segment(Some("a".into()), "b".into()), Some("a;b".into()));
    assert_eq!(append_graph_segment(Some("a".into()), String::new()), Some("a".into()));
    assert_eq!(append_graph_segment(None, String::new()), None);
}

#[test]
fn graph_args_inline_a_short_graph() {
    let mut args = owned(&["-i", "in.mp4"]);
    let spilled = append_graph_args(
        &mut args,
        &Some("[0:v]null[v]".into()),
        "[v]",
        &Some("[a]".into()),
        &owned(&["scale=1280:-2"]),
        "/tmp/g.txt",
    );
    assert!(!spilled);
    assert_eq!(
        strs(&args),
        ["-i", "in.mp4", "-filter_complex", "[0:v]null[v]", "-map", "[v]", "-map", "[a]"]
    );
}

#[test]
fn graph_args_spill_a_long_graph_to_a_script() {
    let long = "x".repeat(FILTER_COMPLEX_SCRIPT_THRESHOLD + 1);
    let mut args = Vec::new();
    let spilled = append_graph_args(&mut args, &Some(long), "[v]", &None, &vec![], "/tmp/g.txt");
    assert!(spilled);
    assert_eq!(strs(&args), ["-filter_complex_script", "/tmp/g.txt", "-map", "[v]"]);
    // Exactly at the threshold stays inline; the count is in UTF-8 bytes.
    let edge = "x".repeat(FILTER_COMPLEX_SCRIPT_THRESHOLD);
    assert!(!append_graph_args(&mut Vec::new(), &Some(edge), "[v]", &None, &vec![], "/t"));
    let wide = "é".repeat(FILTER_COMPLEX_SCRIPT_THRESHOLD / 2 + 1);
    assert!(append_graph_args(&mut Vec::new(), &Some(wide), "[v]", &None, &vec![], "/t"));
}

#[test]
fn without_a_graph_the_output_filters_go_to_vf() {
    let mut args = Vec::new();
    append_graph_args(&mut args, &None, "[v]", &None, &owned(&["scale=1", "fps=2"]), "/t");
    assert_eq!(strs(&args), ["-map", "0:v:0", "-vf", "scale=1,fps=2"]);
}

#[test]
fn mux_args_copy_video_and_pin_audio() {
    let mut args = owned(&["-y"]);
    let spilled = append_mux_args(&mut args, &Some("[1:a]anull[a]".into()), &Some("[a]".into()), "/t", "/o.mp4");
    assert!(!spilled);
    assert_eq!(
        strs(&args),
        [
            "-y", "-filter_complex", "[1:a]anull[a]", "-map", "0:v:0", "-c:v", "copy", "-map", "[a]",
            "-c:a", "aac", "-b:a", "192k", "-ar", "48000", "-ac", "2", "-shortest", "-movflags",
            "+faststart", "/o.mp4"
        ]
    );
    let mut bare = Vec::new();
    append_mux_args(&mut bare, &None, &None, "/t", "/o.mp4");
    assert_eq!(strs(&bare), ["-map", "0:v:0", "-c:v", "copy", "-movflags", "+faststart", "/o.mp4"]);
}

#[test]
fn the_encoder_and_decode_mode_are_read_off_the_command() {
    let args = owned(&["-hwaccel", "auto", "-i", "a", "-c:v", "h264_nvenc", "-c:v", "libx264"]);
    assert_eq!(value_after(&args, "-c:v"), Some("h264_nvenc".into()));
    assert_eq!(video_encoder_of(&args), "h264_nvenc");
    assert_eq!(decode_mode_of(&args), "hwaccel:auto");
    let plain = owned(&["-i", "a", "-c:v"]);
    assert_eq!(video_encoder_of(&plain), "unknown");
    assert_eq!(decode_mode_of(&plain), "software");
}

#[test]
fn hardware_encoders_get_a_software_retry_on_a_crash() {
    assert!(is_hardware_encoder("h264_nvenc"));
    assert!(is_hardware_encoder("h264_amf"));
    assert!(is_hardware_encoder("h264_qsv"));
    assert!(is_hardware_encoder("h264_videotoolbox"));
    assert!(!is_hardware_encoder("libx264"));
    let crash = "export failed (ffmpeg exit -1073741819):\nboom";
    assert!(retry_in_software(crash, true));
    assert!(!retry_in_software(crash, false));
    assert!(!retry_in_software("export failed (ffmpeg exit 1):\nbad", true));
    assert!(!retry_in_software("export cancelled", true));
}

#[test]
fn encode_inputs_are_numbered_in_order() {
    assert_eq!(
        encode_input_layout(2, true, true, true, true),
        EncodeInputs { cursor: Some(3), camera: Some(4), camera_mask: Some(5), camera_shadow: Some(6), next: 7 }
    );
    assert_eq!(
        encode_input_layout(0, false, true, false, true),
        EncodeInputs { cursor: None, camera: Some(1), camera_mask: None, camera_shadow: Some(2), next: 3 }
    );
}

#[test]
fn encode_audio_rides_on_the_source_and_the_captures_follow() {
    let (inputs, next) = plan_encode_audio_inputs(false, true, false, true, true, true, 4);
    assert_eq!(inputs, vec![(0, AudioKind::Source), (4, AudioKind::System), (5, AudioKind::Mic)]);
    assert_eq!(next, 6);
    let (inputs, next) = plan_encode_audio_inputs(false, true, true, true, true, true, 4);
    assert!(inputs.is_empty());
    assert_eq!(next, 4);
    let (inputs, _) = plan_encode_audio_inputs(true, true, false, true, true, true, 4);
    assert!(inputs.is_empty());
}

#[test]
fn the_encode_head_carries_threads_trim_and_source() {
    let args = encode_head_args(Some(8), 1500, 12000, "/in.mp4");
    assert_eq!(
        strs(&args),
        [
            "-hide_banner", "-loglevel", "error", "-y", "-progress", "pipe:2", "-stats_period", "0.1",
            "-filter_complex_threads", "8", "-filter_threads", "8", "-ss", "1.500", "-t", "12.000",
            "-i", "/in.mp4"
        ]
    );
    let bare = encode_head_args(None, 0, 0, "/in.mp4");
    assert_eq!(
        strs(&bare),
        ["-hide_banner", "-loglevel", "error", "-y", "-progress", "pipe:2", "-stats_period", "0.1", "-i", "/in.mp4"]
    );
}

#[test]
fn the_gif_cut_chain_selects_then_warps() {
    assert_eq!(gif_cut_chain(None, None), None);
    assert_eq!(
        gif_cut_chain(Some("not(between(t,1,2))"), None),
        Some("select='not(between(t,1,2))',setpts=N/FRAME_RATE/TB".to_string())
    );
    assert_eq!(gif_cut_chain(None, Some("T*2")), Some("setpts='(T*2)/TB'".to_string()));
    assert_eq!(
        gif_cut_chain(Some("a"), Some("b")),
        Some("select='a',setpts='(b)/TB'".to_string())
    );
}

#[test]
fn the_palette_prepass_ends_with_one_frame_to_the_palette() {
    let mut args = Vec::new();
    append_prepass_tail(&mut args, Some("select='x'"), "fps=12,palettegen", "/p.png");
    assert_eq!(
        strs(&args),
        ["-vf", "select='x',fps=12,palettegen", "-frames:v", "1", "-an", "/p.png"]
    );
    let mut plain = Vec::new();
    append_prepass_tail(&mut plain, Some(""), "fps=12,palettegen", "/p.png");
    assert_eq!(plain[1], "fps=12,palettegen");
    let second = browser_gif_args("/b.mp4", "/p.png", "[0:v][1:v]paletteuse[g]", "[g]", "/o.gif");
    assert_eq!(
        strs(&second),
        ["-y", "-i", "/b.mp4", "-i", "/p.png", "-filter_complex", "[0:v][1:v]paletteuse[g]", "-map", "[g]", "-an", "/o.gif"]
    );
}

fn chain(input: usize, filters: &[&str]) -> (usize, Vec<String>) {
    (input, owned(filters))
}

#[test]
fn two_live_inputs_are_mixed_into_aout() {
    let (graph, map) = append_audio_to_complex(
        None,
        &vec![chain(1, &["asetpts=PTS-STARTPTS", "volume=1.0000"]), chain(2, &["volume=0.5000"])],
        false,
    )
    .expect("audio graph");
    assert_eq!(map, "[aout]");
    assert_eq!(
        graph,
        "[1:a]asetpts=PTS-STARTPTS,volume=1.0000[aud0];[2:a]volume=0.5000[aud1];\
[aud0][aud1]amix=inputs=2:duration=longest:dropout_transition=0:normalize=0[aout]"
    );
}

#[test]
fn a_lone_live_input_needs_no_mix() {
    let (graph, map) = append_audio_to_complex(Some("  "), &vec![chain(1, &["volume=1.0000"])], false).unwrap();
    assert_eq!(graph, "[1:a]volume=1.0000[aout]");
    assert_eq!(map, "[aout]");
    assert!(append_audio_to_complex(Some("[0:v]null[v]"), &vec![], false).is_none());
    let (graph, _) = append_audio_to_complex(Some("[0:v]null[v]"), &vec![chain(1, &["volume=1.0000"])], false).unwrap();
    assert_eq!(graph, "[0:v]null[v];[1:a]volume=1.0000[aout]");
}

#[test]
fn loudness_normalization_retargets_the_map() {
    let (graph, map) = append_audio_to_complex(None, &vec![chain(1, &["volume=1.0000"])], true).unwrap();
    assert_eq!(graph, "[1:a]volume=1.0000[aout];[aout]loudnorm=I=-14:TP=-1:LRA=11[aoutn]");
    assert_eq!(map, "[aoutn]");
}

#[test]
fn music_is_mixed_over_the_source_audio() {
    let (graph, map) = build_music_stage(
        Some("[aout]"),
        &vec![chain(5, &["atrim=start=1.000:duration=8.000", "volume=0.5000", "adelay=2000|2000"])],
    )
    .unwrap();
    assert_eq!(map, "[afinal]");
    assert_eq!(
        graph,
        "[5:a]atrim=start=1.000:duration=8.000,volume=0.5000,adelay=2000|2000[mus0];\
[aout][mus0]amix=inputs=2:duration=longest:dropout_transition=0:normalize=0[afinal]"
    );
}

#[test]
fn lone_music_keeps_its_own_label() {
    let (graph, map) = build_music_stage(None, &vec![chain(3, &["volume=1.0000"])]).unwrap();
    assert_eq!(map, "[mus0]");
    assert_eq!(graph, "[3:a]volume=1.0000[mus0]");
    assert_eq!(build_music_stage(Some("[aout]"), &vec![]), Some((String::new(), "[aout]".to_string())));
    assert_eq!(build_music_stage(None, &vec![]), None);
}
