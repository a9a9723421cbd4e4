use recast_core::ffmpeg::{build_annotation_blur_complex, BlurRegion};

/// Times are in ticks of 1/10 000 s: 10_000 is one second.
fn region_with(variant: &'static str, start: i64, end: i64) -> BlurRegion<'static> {
    BlurRegion {
        x: 100,
        y: 80,
        w: 320,
        h: 180,
        radius: 12,
        start_ticks: start,
        end_ticks: end,
        variant,
        tint_rgb: 0xff00aa,
        opacity_milli: 1000,
    }
}

#[test]
fn empty_regions_returns_input_unchanged() {
    let (chain, label) = build_annotation_blur_complex(Some("[0:v]hflip[v]"), "[v]", &[]);
    assert_eq!(chain, "[0:v]hflip[v]");
    assert_eq!(label, "[v]");
}

#[test]
fn single_region_emits_split_crop_overlay() {
    let regs = [region_with("glass", 10_000, 35_000)];
    let (chain, label) = build_annotation_blur_complex(None, "vout", &regs);
    assert!(chain.contains("split[blur_main_0][blur_src_0]"), "chain: {chain}");
    assert!(chain.contains("crop=320:180:100:80"));
    assert!(chain.contains("boxblur=luma_radius=12"));
    assert!(!chain.contains("drawbox"));
    assert!(chain.contains("enable='between(t\\,1.0000\\,3.5000)'"));
    assert_eq!(label, "[vblur]");
}

#[test]
fn white_and_black_variants_emit_drawbox() {
    for (variant, expected_color) in [("white", "white@0.300"), ("black", "black@0.300")] {
        let regs = [region_with(variant, 0, 20_000)];
        let (chain, _) = build_annotation_blur_complex(None, "vout", &regs);
        assert!(chain.contains("drawbox"), "missing drawbox for {variant}");
        assert!(
            chain.contains(expected_color),
            "{variant} should embed {expected_color} got: {chain}"
        );
    }
}

#[test]
fn color_variant_emits_hex_drawbox() {
    let regs = [BlurRegion { tint_rgb: 0x3b82f6, ..region_with("color", 0, 10_000) }];
    let (chain, _) = build_annotation_blur_complex(None, "vout", &regs);
    assert!(chain.contains("0x3b82f6@"), "chain: {chain}");
}

#[test]
fn opacity_scales_drawbox_alpha() {
    let regs = [BlurRegion { opacity_milli: 500, ..region_with("white", 0, 10_000) }];
    let (chain, _) = build_annotation_blur_complex(None, "vout", &regs);
    assert!(chain.contains("white@0.150"), "chain: {chain}");
}

#[test]
fn unknown_variant_treated_as_glass() {
    let regs = [region_with("alien", 0, 10_000)];
    let (chain, _) = build_annotation_blur_complex(None, "vout", &regs);
    assert!(!chain.contains("drawbox"), "chain: {chain}");
}

#[test]
fn radius_zero_clamps_to_one() {
    let regs = [BlurRegion { radius: 0, ..region_with("glass", 0, 10_000) }];
    let (chain, _) = build_annotation_blur_complex(None, "vout", &regs);
    assert!(chain.contains("boxblur=luma_radius=1"));
}

#[test]
fn radius_huge_clamps_to_64() {
    let regs = [BlurRegion { radius: 9999, ..region_with("glass", 0, 10_000) }];
    let (chain, _) = build_annotation_blur_complex(None, "vout", &regs);
    assert!(chain.contains("boxblur=luma_radius=64"));
}

#[test]
fn multiple_regions_chain_through_intermediate_labels() {
    let regs = [
        region_with("glass", 0, 20_000),
        region_with("white", 20_000, 40_000),
        region_with("color", 40_000, 60_000),
    ];
    let (chain, label) = build_annotation_blur_complex(None, "vout", &regs);
    assert!(chain.contains("[blur_step_0]"), "first step label missing: {chain}");
    assert!(chain.contains("[blur_step_1]"), "second step label missing: {chain}");
    assert_eq!(label, "[vblur]");
    assert!(chain.contains("[vblur]"));
    assert!(chain.contains("0.0000\\,2.0000"));
    assert!(chain.contains("2.0000\\,4.0000"));
    assert!(chain.contains("4.0000\\,6.0000"));
}

#[test]
fn blur_appends_to_existing_filter_complex() {
    let regs = [region_with("glass", 0, 10_000)];
    let (chain, _) = build_annotation_blur_complex(Some("[0:v]hflip[v]"), "[v]", &regs);
    assert!(chain.starts_with("[0:v]hflip[v];"), "chain: {chain}");
}

#[test]
fn end_clamped_above_start() {
    let regs = [region_with("glass", 50_000, 10_000)];
    let (chain, _) = build_annotation_blur_complex(None, "vout", &regs);
    assert!(chain.contains("between(t\\,5.0000\\,5.0000)"), "chain: {chain}");
}

#[test]
fn negative_coords_clamped_to_zero() {
    let regs = [BlurRegion { x: -50, y: -10, ..region_with("glass", 0, 10_000) }];
    let (chain, _) = build_annotation_blur_complex(None, "vout", &regs);
    assert!(chain.contains("crop=320:180:0:0"));
    assert!(chain.contains("overlay=x=0:y=0"));
}

#[test]
fn single_region_full_chain_text() {
    let regs = [region_with("color", -5, 12_345)];
    let (chain, label) = build_annotation_blur_complex(Some(""), "[in]", &regs);
    assert_eq!(
        chain,
        "[in]split[blur_main_0][blur_src_0];\
         [blur_src_0]crop=320:180:100:80,boxblur=luma_radius=12:luma_power=2:chroma_radius=12:chroma_power=2,\
         drawbox=x=0:y=0:w=iw:h=ih:color=0xff00aa@0.300:t=fill[blur_done_0];\
         [blur_main_0][blur_done_0]overlay=x=100:y=80:enable='between(t\\,0.0000\\,1.2345)'[vblur]"
    );
    assert_eq!(label, "[vblur]");
}

#[test]
fn empty_regions_without_graph_give_empty_text() {
    let (chain, label) = build_annotation_blur_complex(None, "vout", &[]);
    assert_eq!(chain, "");
    assert_eq!(label, "vout");
}

#[test]
fn opacity_out_of_range_is_clamped_and_rounded() {
    let over = [BlurRegion { opacity_milli: 4000, ..region_with("black", 0, 1) }];
    let (chain, _) = build_annotation_blur_complex(None, "v", &over);
    assert!(chain.contains("black@0.300"), "chain: {chain}");
    let under = [BlurRegion { opacity_milli: -3, ..region_with("black", 0, 1) }];
    let (chain, _) = build_annotation_blur_complex(None, "v", &under);
    assert!(chain.contains("black@0.000"), "chain: {chain}");
    let odd = [BlurRegion { opacity_milli: 5, ..region_with("black", 0, 1) }];
    let (chain, _) = build_annotation_blur_complex(None, "v", &odd);
    assert!(chain.contains("black@0.001"), "chain: {chain}");
}
