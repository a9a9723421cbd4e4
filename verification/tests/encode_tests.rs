use recast_core::export::align::{offset_for, plan_audio_inputs, AudioKind, TrackOffsets};
use recast_core::export::gif::{
    palette_file_name, prepass_failure, prepass_outcome, resolved_gif_fps, splice_gif_cut,
    GifPassError,
};
use recast_core::export::run::{
    encode_verdict, idle_budget_ms, is_progress_end, parse_ffmpeg_exit_code, push_stderr_line,
    stderr_tail, watchdog_should_kill, EncodeEnd, EncodeVerdict, STDERR_RING_BYTES,
};

fn end() -> EncodeEnd {
    EncodeEnd {
        killed_by_user: false,
        killed_by_timeout: false,
        forced_exit: false,
        progress_end_seen: true,
        near_end_seen: true,
        usable_at_close: false,
        usable_after_kill: false,
        exit_success: true,
        exit_code: Some(0),
        stderr_tail: String::new(),
        failure_summary: String::new(),
    }
}

fn failed(v: EncodeVerdict) -> String {
    match v {
        EncodeVerdict::Failed(m) => m,
        _ => panic!("expected a failure"),
    }
}

#[test]
fn a_clean_exit_succeeds() {
    assert!(matches!(encode_verdict(&end()), EncodeVerdict::Success));
}

#[test]
fn a_user_cancel_is_a_cancel() {
    let e = EncodeEnd { killed_by_user: true, ..end() };
    assert!(matches!(encode_verdict(&e), EncodeVerdict::Cancelled));
}

#[test]
fn a_stalled_encode_names_its_stage_and_stderr() {
    let e = EncodeEnd {
        killed_by_timeout: true,
        progress_end_seen: false,
        near_end_seen: false,
        stderr_tail: "a | b".into(),
        ..end()
    };
    assert_eq!(
        failed(encode_verdict(&e)),
        "export timed out: ffmpeg produced no progress for 60s — last stderr: a | b"
    );
    let e = EncodeEnd { killed_by_timeout: true, progress_end_seen: false, ..end() };
    assert_eq!(
        failed(encode_verdict(&e)),
        "export failed: ffmpeg stopped making progress near the end of the encode"
    );
    let e = EncodeEnd { killed_by_timeout: true, usable_after_kill: true, ..end() };
    assert!(matches!(encode_verdict(&e), EncodeVerdict::Success));
}

#[test]
fn a_forced_exit_without_a_usable_file_fails() {
    let e = EncodeEnd { forced_exit: true, ..end() };
    assert_eq!(
        failed(encode_verdict(&e)),
        "export failed: ffmpeg did not exit within 30s of finishing the encode"
    );
}

#[test]
fn a_crash_exit_message_parses_back_to_its_code() {
    let e = EncodeEnd {
        progress_end_seen: false,
        exit_success: false,
        exit_code: Some(-1073741819),
        failure_summary: "boom".into(),
        ..end()
    };
    let m = failed(encode_verdict(&e));
    assert_eq!(m, "export failed (ffmpeg exit -1073741819):\nboom");
    assert_eq!(parse_ffmpeg_exit_code(&m), Some(-1073741819));
    let e = EncodeEnd { exit_code: None, ..e };
    assert_eq!(
        failed(encode_verdict(&e)),
        "export failed (ffmpeg exit terminated by signal):\nboom"
    );
}

#[test]
fn the_log_ring_keeps_the_newest_bytes() {
    let mut buf: Vec<u8> = Vec::new();
    push_stderr_line(&mut buf, b"hello");
    assert_eq!(buf, b"hello\n");
    let long = vec![b'x'; STDERR_RING_BYTES - 2];
    push_stderr_line(&mut buf, &long);
    assert_eq!(buf.len(), STDERR_RING_BYTES);
    assert_eq!(&buf[..5], b"\nxxxx");
    let huge = vec![b'y'; 3 * STDERR_RING_BYTES];
    push_stderr_line(&mut buf, &huge);
    assert_eq!(buf.len(), STDERR_RING_BYTES);
    assert_eq!(*buf.last().unwrap(), b'\n');
    assert!(buf[..STDERR_RING_BYTES - 1].iter().all(|b| *b == b'y'));
}

#[test]
fn the_stderr_tail_is_the_last_two_lines() {
    assert_eq!(stderr_tail("a\nb\n\n  \nc\r\n"), "b | c");
    assert_eq!(stderr_tail("only"), "only");
    assert_eq!(stderr_tail("\n \n"), "");
}

#[test]
fn the_watchdog_budget_follows_the_stage() {
    assert_eq!(idle_budget_ms(true, true, true), 60_000);
    assert_eq!(idle_budget_ms(false, true, false), 20_000);
    assert_eq!(idle_budget_ms(false, false, false), 120_000);
    assert_eq!(idle_budget_ms(false, false, true), 60_000);
    assert!(!watchdog_should_kill(60_000, false, false, true));
    assert!(watchdog_should_kill(60_001, false, false, true));
    assert!(is_progress_end("  progress=end \r"));
    assert!(!is_progress_end("progress=continue"));
}

#[test]
fn audio_inputs_are_numbered_in_order() {
    let (inputs, next) = plan_audio_inputs(false, true, false, true, false, true, 1);
    assert_eq!(inputs, vec![(1, AudioKind::Source), (2, AudioKind::Mic)]);
    assert_eq!(next, 3);
    let (inputs, next) = plan_audio_inputs(true, true, false, true, true, true, 1);
    assert!(inputs.is_empty());
    assert_eq!(next, 1);
    let (inputs, _) = plan_audio_inputs(false, true, true, true, true, true, 1);
    assert!(inputs.is_empty());
    let offsets = TrackOffsets { audio_ms: Some(30), microphone_ms: None, camera_ms: Some(5) };
    assert_eq!(offset_for(AudioKind::System, offsets), Some(30));
    assert_eq!(offset_for(AudioKind::Mic, offsets), None);
    assert_eq!(offset_for(AudioKind::Source, offsets), None);
}

#[test]
fn the_gif_palette_prepass_outcome() {
    assert_eq!(prepass_outcome(true, Ok(10), ""), Ok(()));
    assert_eq!(
        prepass_outcome(true, Ok(0), ""),
        Err("export failed: palette pre-pass wrote empty file".to_string())
    );
    assert_eq!(
        prepass_outcome(true, Err("gone".into()), ""),
        Err("export failed: palette pre-pass output missing: gone".to_string())
    );
    assert_eq!(
        prepass_outcome(false, Ok(10), "bad filter"),
        Err("export failed (palette pre-pass):\nbad filter".to_string())
    );
    assert!(matches!(prepass_failure(true, "x".into()), GifPassError::Cancelled));
    assert!(matches!(prepass_failure(false, "x".into()), GifPassError::Failed(m) if m == "x"));
    assert_eq!(resolved_gif_fps(None, 15), 15);
    assert_eq!(resolved_gif_fps(Some(24), 15), 24);
    assert_eq!(palette_file_name(123, 45), "recast_palette_123_45.png");
}

#[test]
fn gif_cuts_splice_in_front_of_the_palette() {
    let (g, l) = splice_gif_cut(None, "[vout]", "select='x',setpts=N/FRAME_RATE/TB");
    assert_eq!(g, "[0:v];[0:v]select='x',setpts=N/FRAME_RATE/TB[vgifcut]");
    assert_eq!(l, "[vgifcut]");
    let (g, _) = splice_gif_cut(Some("[0:v]hflip[v];".into()), "[v]", "c");
    assert_eq!(g, "[0:v]hflip[v];[v]c[vgifcut]");
    let (g, _) = splice_gif_cut(Some("[0:v]hflip[v]".into()), "[v]", "c");
    assert_eq!(g, "[0:v]hflip[v];[v]c[vgifcut]");
}
