use recast_core::screenshot::{pick_window, AppWindow};
use recast_core::text::lex_less;
use recast_core::screenshot::{
    capture_region, default_shot_name, scaled_dims, screenshot_of, shot_options, shot_path, DEFAULT_MAX_EDGE,
};

#[test]
fn scaled_dims_caps_the_longest_edge_and_keeps_aspect() {
    assert_eq!(scaled_dims(3840, 2160, 1600), (1600, 900));
}

#[test]
fn scaled_dims_caps_a_portrait_by_its_height() {
    assert_eq!(scaled_dims(1080, 1920, 960), (540, 960));
}

#[test]
fn scaled_dims_passes_through_when_already_within_the_cap() {
    assert_eq!(scaled_dims(1280, 720, 1600), (1280, 720));
}

#[test]
fn scaled_dims_zero_cap_means_native_resolution() {
    assert_eq!(scaled_dims(3840, 2160, 0), (3840, 2160));
}

#[test]
fn scaled_dims_never_collapses_to_zero() {
    assert_eq!(scaled_dims(2000, 1, 100), (100, 1));
}

#[test]
fn scaled_dims_rounds_to_the_nearest_pixel() {
    // 1000 * 333 / 1001 = 332.67 -> 333; 10 * 333 / 1001 = 3.33 -> 3
    assert_eq!(scaled_dims(1001, 10, 333), (333, 3));
    assert_eq!(scaled_dims(u32::MAX, u32::MAX, 7), (7, 7));
}

/// The original's computation, in binary32.
fn scaled_dims_in_f32(w: u32, h: u32, max_edge: u32) -> (u32, u32) {
    let longest = w.max(h);
    if max_edge == 0 || longest <= max_edge || w == 0 || h == 0 {
        return (w, h);
    }
    let scale = max_edge as f32 / longest as f32;
    let sw = ((w as f32 * scale).round() as u32).max(1);
    let sh = ((h as f32 * scale).round() as u32).max(1);
    (sw, sh)
}

#[test]
fn scaled_dims_rounds_as_binary32_does() {
    // The exact quotient 90 * 100 / 144 = 62.5 rounds up, but the scale
    // 100 / 144 is just below its true value in binary32, so 62.
    assert_eq!(scaled_dims(144, 90, 100), (100, 62));
    assert_eq!(scaled_dims(90, 144, 100), (62, 100));
    assert_eq!(scaled_dims(u32::MAX, 5, u32::MAX - 1), (u32::MAX, 5));
    // A cap past 2^22 can be overshot by a pixel, in binary32 as here.
    assert_eq!(scaled_dims(11579835, 6022913, 5996381), (5996382, 3118843));
}

#[test]
fn scaled_dims_agrees_with_binary32_arithmetic() {
    let mut seed: u64 = 0x9e37_79b9_7f4a_7c15;
    let mut next = move || {
        seed ^= seed << 13;
        seed ^= seed >> 7;
        seed ^= seed << 17;
        seed
    };
    for _ in 0..60_000 {
        let bits = [8u32, 12, 16, 24, 28, 32][(next() % 6) as usize];
        let mask = if bits == 32 { u32::MAX } else { (1u32 << bits) - 1 };
        let w = (next() as u32) & mask;
        let h = (next() as u32) & mask;
        let cap_bits = [4u32, 8, 12, 16, 24, 32][(next() % 6) as usize];
        let cap_mask = if cap_bits == 32 { u32::MAX } else { (1u32 << cap_bits) - 1 };
        let cap = (next() as u32) & cap_mask;
        assert_eq!(scaled_dims(w, h, cap), scaled_dims_in_f32(w, h, cap), "{w}x{h} cap {cap}");
    }
    for w in 0..120u32 {
        for h in 0..120u32 {
            for cap in [1u32, 2, 3, 7, 50, 99] {
                assert_eq!(scaled_dims(w, h, cap), scaled_dims_in_f32(w, h, cap), "{w}x{h} cap {cap}");
            }
        }
    }
}

#[test]
fn screenshot_options_default_the_cap() {
    let o = shot_options(None, None, None);
    assert_eq!(o.max_edge, DEFAULT_MAX_EDGE);
    assert!(!o.base64);
    let o = shot_options(Some("/tmp/x.png".into()), Some(0), Some(true));
    assert_eq!(o.max_edge, 0);
    assert!(o.base64);
    assert_eq!(o.out.as_deref(), Some("/tmp/x.png"));
}

#[test]
fn a_region_shot_is_planned_from_the_grabbed_size() {
    let opts = shot_options(None, None, Some(true));
    let plan = capture_region(3840, 2160, &opts, "/tmp", 1234);
    assert_eq!(plan.kind, "region");
    assert_eq!((plan.width, plan.height), (1600, 900));
    assert!(plan.downscale && plan.base64);
    let native =
        capture_region(800, 600, &shot_options(Some("/tmp/r.png".into()), Some(0), None), "/tmp", 1);
    assert!(!native.downscale);
    assert_eq!(native.path, "/tmp/r.png");
    assert_eq!(default_shot_name("region", 1234), "recast-shot-region-1234.png");
    let shot = screenshot_of(native, Some("data:image/png;base64,AA".into()));
    assert_eq!((shot.width, shot.height), (800, 600));
    assert_eq!(shot.path, "/tmp/r.png");
    assert_eq!(shot.base64, None);
    assert_eq!(shot.copied_to_clipboard, None);
}

#[test]
fn a_shot_without_out_goes_to_the_temporary_directory() {
    let plan = capture_region(10, 10, &shot_options(None, Some(0), Some(true)), "/tmp", 1234);
    let sep = std::path::MAIN_SEPARATOR;
    assert_eq!(plan.path, format!("/tmp{sep}recast-shot-region-1234.png"));
    assert_eq!(shot_path(&None, "/var/tmp", "display", 7), format!("/var/tmp{sep}recast-shot-display-7.png"));
    assert_eq!(shot_path(&Some("x.png".into()), "/var/tmp", "display", 7), "x.png");
    let shot = screenshot_of(plan, Some("data:image/png;base64,AA".into()));
    assert_eq!(shot.path, format!("/tmp{sep}recast-shot-region-1234.png"));
    assert_eq!(shot.base64.as_deref(), Some("data:image/png;base64,AA"));
    assert_eq!(shot.kind, "region");
}

fn win(label: &str, focused: bool) -> AppWindow {
    AppWindow { label: label.into(), focused }
}

#[test]
fn a_named_window_is_captured_if_it_exists() {
    let ws = vec![win("main", false), win("editor-1", true)];
    assert_eq!(pick_window(Some("main"), &ws), Ok("main".to_string()));
    assert_eq!(pick_window(Some("panel"), &ws), Err("no app window labelled 'panel'".to_string()));
}

#[test]
fn without_a_name_the_focused_window_wins_then_the_first_label() {
    let ws = vec![win("main", false), win("editor-2", true), win("editor-1", true)];
    assert_eq!(pick_window(None, &ws), Ok("editor-1".to_string()));
    let unfocused = vec![win("main", false), win("editor-2", false), win("panel", false)];
    assert_eq!(pick_window(None, &unfocused), Ok("editor-2".to_string()));
    assert_eq!(pick_window(None, &vec![]), Err("the app has no open windows to capture".to_string()));
}

#[test]
fn labels_sort_character_by_character() {
    assert!(lex_less("a", "b"));
    assert!(lex_less("ab", "abc"));
    assert!(!lex_less("abc", "ab"));
    assert!(!lex_less("x", "x"));
    assert!(lex_less("Z", "a"));
}
