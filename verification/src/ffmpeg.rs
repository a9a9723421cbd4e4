//! FFmpeg filter-graph pieces and encoder settings: export quality profiles,
//! the output scale stage, appended filter and overlay stages, the GIF
//! palette pipeline, and the one-paragraph summary of a failed run.

use vstd::prelude::*;

use crate::text::{
    ascii_chars, chars_of, dec_digits, has_prefix, hex_byte, int_text, is_ascii_bytes, push_decimal,
    push_hex_byte, push_int, push_str, push_ten_thousandths, push_thousandths, same_text, starts_with,
    string_of, ten_thousandths_text, texts, thousandths_text, trim, trimmed,
};
use crate::paths::has_suffix;
use crate::types::ExportProfile;

verus! {

/// The encoder settings of an export quality: `small`, `4k`, `source`, and
/// everything else as the 1080p default.
pub open spec fn profile_matches(q: Seq<char>, p: ExportProfile) -> bool {
    if q == "small"@ {
        p.max_width == Some(1280u32) && p.max_height == Some(720u32) && p.mp4_crf == 28
            && p.mp4_preset@ == "veryfast"@ && p.mp4_nvenc_cq == 32 && p.webm_crf == 34
            && p.gif_fps == 12
    } else if q == "4k"@ {
        p.max_width == Some(3840u32) && p.max_height == Some(2160u32) && p.mp4_crf == 18
            && p.mp4_preset@ == "slow"@ && p.mp4_nvenc_cq == 22 && p.webm_crf == 24 && p.gif_fps
            == 18
    } else if q == "source"@ {
        p.max_width is None && p.max_height is None && p.mp4_crf == 20 && p.mp4_preset@
            == "slow"@ && p.mp4_nvenc_cq == 24 && p.webm_crf == 28 && p.gif_fps == 18
    } else {
        p.max_width == Some(1920u32) && p.max_height == Some(1080u32) && p.mp4_crf == 22
            && p.mp4_preset@ == "medium"@ && p.mp4_nvenc_cq == 26 && p.webm_crf == 30
            && p.gif_fps == 15
    }
}

/// The encoder settings for an export quality name.
pub fn resolve_export_profile(quality: &str) -> (p: ExportProfile)
    ensures
        profile_matches(quality@, p),
{
    if same_text(quality, "small") {
        ExportProfile {
            max_width: Some(1280),
            max_height: Some(720),
            mp4_crf: 28,
            mp4_preset: "veryfast",
            mp4_nvenc_cq: 32,
            webm_crf: 34,
            gif_fps: 12,
        }
    } else if same_text(quality, "4k") {
        ExportProfile {
            max_width: Some(3840),
            max_height: Some(2160),
            mp4_crf: 18,
            mp4_preset: "slow",
            mp4_nvenc_cq: 22,
            webm_crf: 24,
            gif_fps: 18,
        }
    } else if same_text(quality, "source") {
        ExportProfile {
            max_width: None,
            max_height: None,
            mp4_crf: 20,
            mp4_preset: "slow",
            mp4_nvenc_cq: 24,
            webm_crf: 28,
            gif_fps: 18,
        }
    } else {
        ExportProfile {
            max_width: Some(1920),
            max_height: Some(1080),
            mp4_crf: 22,
            mp4_preset: "medium",
            mp4_nvenc_cq: 26,
            webm_crf: 30,
            gif_fps: 15,
        }
    }
}

/// The scale stage that fits the output inside a profile's bounds, keeping
/// the aspect ratio.
pub open spec fn scale_filter_text(w: u32, h: u32) -> Seq<char> {
    "scale=w='min(iw,"@ + dec_digits(w as nat) + ")':h='min(ih,"@ + dec_digits(h as nat)
        + ")':force_original_aspect_ratio=decrease:flags=lanczos"@
}

/// The output scale stage of a profile; none when the profile keeps the
/// source size.
pub fn build_output_scale_filter(profile: ExportProfile) -> (r: Option<String>)
    ensures
        (profile.max_width is Some && profile.max_height is Some) ==> (r matches Some(s) && s@
            == scale_filter_text(profile.max_width->0, profile.max_height->0)),
        !(profile.max_width is Some && profile.max_height is Some) ==> r is None,
{
    match (profile.max_width, profile.max_height) {
        (Some(w), Some(h)) => {
            let mut out: Vec<char> = Vec::new();
            push_str(&mut out, "scale=w='min(iw,");
            push_decimal(&mut out, w as u64);
            push_str(&mut out, ")':h='min(ih,");
            push_decimal(&mut out, h as u64);
            push_str(&mut out, ")':force_original_aspect_ratio=decrease:flags=lanczos");
            Some(string_of(out.as_slice()))
        },
        _ => None,
    }
}

/// A stream label in brackets, as filter graphs write it.
pub open spec fn bracketed(label: Seq<char>) -> Seq<char> {
    if has_prefix(label, "["@) {
        label
    } else {
        seq!['['] + label + seq![']']
    }
}

fn push_bracketed(out: &mut Vec<char>, label: &str)
    ensures
        final(out)@ == old(out)@ + bracketed(label@),
{
    let l = chars_of(label);
    let open = chars_of("[");
    if starts_with(l.as_slice(), open.as_slice()) {
        push_str(out, label);
    } else {
        out.push('[');
        push_str(out, label);
        out.push(']');
        assert(old(out)@ + bracketed(label@) =~= old(out)@ + seq!['['] + label@ + seq![']']);
    }
}

/// The pieces joined by `sep` (`[T]::join`).
pub open spec fn joined(pieces: Seq<Seq<char>>, sep: Seq<char>) -> Seq<char>
    decreases pieces.len(),
{
    if pieces.len() == 0 {
        Seq::empty()
    } else if pieces.len() == 1 {
        pieces[0]
    } else {
        joined(pieces.drop_last(), sep) + sep + pieces.last()
    }
}

/// Appends `pieces` joined by `sep` to `out`.
pub fn push_joined(out: &mut Vec<char>, pieces: &Vec<String>, sep: &str)
    ensures
        final(out)@ == old(out)@ + joined(texts(pieces@), sep@),
{
    let ghost start = out@;
    let ghost all = texts(pieces@);
    let mut i: usize = 0;
    while i < pieces.len()
        invariant
            i <= pieces.len(),
            all == texts(pieces@),
            out@ == start + joined(all.subrange(0, i as int), sep@),
        decreases pieces.len() - i,
    {
        assert(all.subrange(0, i + 1).drop_last() =~= all.subrange(0, i as int));
        if i > 0 {
            push_str(out, sep);
        }
        push_str(out, pieces[i].as_str());
        i = i + 1;
        assert(out@ =~= start + joined(all.subrange(0, i as int), sep@));
    }
    assert(all.subrange(0, pieces@.len() as int) =~= all);
}

/// The label the appended output filters end in.
pub open spec fn vfinal() -> Seq<char> {
    "[vfinal]"@
}

/// Append a chain of output filters to a filter graph: the graph, `;`, the
/// input label in brackets, the filters joined by `,`, and `[vfinal]`; the
/// new label is `[vfinal]`.
pub fn append_output_filters_to_complex(
    filter_complex: &str,
    input_label: &str,
    filters: &Vec<String>,
) -> (r: (String, String))
    ensures
        r.0@ == filter_complex@ + seq![';'] + bracketed(input_label@) + joined(
            texts(filters@),
            ","@,
        ) + vfinal(),
        r.1@ == vfinal(),
{
    let mut out: Vec<char> = Vec::new();
    push_str(&mut out, filter_complex);
    out.push(';');
    push_bracketed(&mut out, input_label);
    push_joined(&mut out, filters, ",");
    push_str(&mut out, "[vfinal]");
    let mut label: Vec<char> = Vec::new();
    push_str(&mut label, "[vfinal]");
    (string_of(out.as_slice()), string_of(label.as_slice()))
}

/// An existing graph to extend: present and not empty.
pub open spec fn extends(existing: Option<&str>) -> bool {
    existing matches Some(e) && e@.len() > 0
}

/// The graph before a new stage: the existing one and `;`, or nothing.
pub open spec fn graph_prefix(existing: Option<&str>) -> Seq<char> {
    match existing {
        Some(e) => if e@.len() > 0 {
            e@ + seq![';']
        } else {
            Seq::empty()
        },
        None => Seq::empty(),
    }
}

fn push_graph_prefix(out: &mut Vec<char>, existing: Option<&str>)
    ensures
        final(out)@ == old(out)@ + graph_prefix(existing),
{
    match existing {
        Some(e) => {
            if !e.is_empty() {
                push_str(out, e);
                out.push(';');
            } else {
                assert(old(out)@ + graph_prefix(existing) =~= old(out)@);
            }
        },
        None => {
            assert(old(out)@ + graph_prefix(existing) =~= old(out)@);
        },
    }
}

/// Overlay the cursor video (input `cursor_input_index`) on the current
/// video, appending the stage to the graph; the new label is `[vcursor]`.
pub fn append_cursor_overlay_to_complex(
    filter_complex: Option<&str>,
    current_video_map: &str,
    cursor_input_index: u64,
) -> (r: (String, String))
    ensures
        r.0@ == graph_prefix(filter_complex) + bracketed(current_video_map@) + seq!['['] + dec_digits(
            cursor_input_index as nat,
        ) + ":v]overlay=0:0:format=auto[vcursor]"@,
        r.1@ == "[vcursor]"@,
{
    let mut out: Vec<char> = Vec::new();
    push_graph_prefix(&mut out, filter_complex);
    push_bracketed(&mut out, current_video_map);
    out.push('[');
    push_decimal(&mut out, cursor_input_index);
    push_str(&mut out, ":v]overlay=0:0:format=auto[vcursor]");
    let mut label: Vec<char> = Vec::new();
    push_str(&mut label, "[vcursor]");
    (string_of(out.as_slice()), string_of(label.as_slice()))
}

/// Per-export GIF tuning.
#[derive(Debug, Clone, Copy, PartialEq, Eq)]
pub struct GifFilterOptions<'a> {
    /// Output frame rate.
    pub fps: u32,
    /// Palette size, clamped to `2..=256`.
    pub max_colors: u32,
    /// `"bayer"`, `"sierra2"` or `"none"`.
    pub dither: &'a str,
}

impl<'a> Default for GifFilterOptions<'a> {
    fn default() -> (o: GifFilterOptions<'a>)
        ensures
            o.fps == 15,
            o.max_colors == 128,
            o.dither@ == "bayer"@,
    {
        GifFilterOptions { fps: 15, max_colors: 128, dither: "bayer" }
    }
}

/// The `paletteuse` dither argument: `none` and `sierra2` as named, anything
/// else Bayer at scale 5.
pub open spec fn dither_clause(d: Seq<char>) -> Seq<char> {
    if d == "none"@ {
        "dither=none"@
    } else if d == "sierra2"@ {
        "dither=sierra2"@
    } else {
        "dither=bayer:bayer_scale=5"@
    }
}

/// `n` clamped to `lo..=hi`.
pub open spec fn clamped(n: u32, lo: u32, hi: u32) -> u32 {
    if n < lo {
        lo
    } else if n > hi {
        hi
    } else {
        n
    }
}

/// The inline scale stage, when there is one, led by a comma.
pub open spec fn scale_clause(inline_scale: Option<&str>) -> Seq<char> {
    match inline_scale {
        Some(s) => if s@.len() > 0 {
            seq![','] + s@
        } else {
            Seq::empty()
        },
        None => Seq::empty(),
    }
}

/// The palette pipeline: frame rate and scale before a split, a palette
/// generated from one leg and applied to the other, ending in `[vgif]`.
pub open spec fn palette_chain(input: Seq<char>, o: GifFilterOptions, inline_scale: Option<&str>) -> Seq<
    char,
> {
    bracketed(input) + palette_stages(o, inline_scale)
}

/// Wrap the video chain in a palettegen/paletteuse pipeline so GIF exports
/// get a stable dithered palette; any inline scale is baked in before the
/// split. The new label is `[vgif]`.
pub fn build_gif_palette_complex(
    filter_complex: Option<&str>,
    input_label: &str,
    options: GifFilterOptions<'_>,
    inline_scale: Option<&str>,
) -> (r: (String, String))
    ensures
        r.0@ == graph_prefix(filter_complex) + palette_chain(input_label@, options, inline_scale),
        r.1@ == "[vgif]"@,
{
    let mut out: Vec<char> = Vec::new();
    push_graph_prefix(&mut out, filter_complex);
    let ghost prefix = out@;
    push_bracketed(&mut out, input_label);
    push_palette_stages(&mut out, options, inline_scale);
    assert(out@ =~= graph_prefix(filter_complex) + palette_chain(
        input_label@,
        options,
        inline_scale,
    ));
    let mut label: Vec<char> = Vec::new();
    push_str(&mut label, "[vgif]");
    (string_of(out.as_slice()), string_of(label.as_slice()))
}

fn push_scale_clause(out: &mut Vec<char>, inline_scale: Option<&str>)
    ensures
        final(out)@ == old(out)@ + scale_clause(inline_scale),
{
    match inline_scale {
        Some(s) => {
            if !s.is_empty() {
                out.push(',');
                push_str(out, s);
                assert(final(out)@ =~= old(out)@ + scale_clause(inline_scale));
            } else {
                assert(old(out)@ + scale_clause(inline_scale) =~= old(out)@);
            }
        },
        None => {
            assert(old(out)@ + scale_clause(inline_scale) =~= old(out)@);
        },
    }
}

fn push_dither_clause(out: &mut Vec<char>, dither: &str)
    ensures
        final(out)@ == old(out)@ + dither_clause(dither@),
{
    if same_text(dither, "none") {
        push_str(out, "dither=none");
    } else if same_text(dither, "sierra2") {
        push_str(out, "dither=sierra2");
    } else {
        push_str(out, "dither=bayer:bayer_scale=5");
    }
}

/// Everything of the palette chain after the input label.
pub open spec fn palette_stages(o: GifFilterOptions, inline_scale: Option<&str>) -> Seq<char> {
    "fps="@ + dec_digits(if o.fps < 1 {
        1nat
    } else {
        o.fps as nat
    }) + scale_clause(inline_scale) + ",split[_gifa][_gifb];[_gifa]palettegen=max_colors="@
        + dec_digits(clamped(o.max_colors, 2, 256) as nat)
        + ":stats_mode=diff[_gifp];[_gifb][_gifp]paletteuse="@ + dither_clause(o.dither@)
        + ":diff_mode=rectangle[vgif]"@
}

fn push_palette_stages(out: &mut Vec<char>, options: GifFilterOptions<'_>, inline_scale: Option<&str>)
    ensures
        final(out)@ == old(out)@ + palette_stages(options, inline_scale),
{
    let ghost start = out@;
    push_str(out, "fps=");
    let fps: u32 = if options.fps < 1 {
        1
    } else {
        options.fps
    };
    push_decimal(out, fps as u64);
    let ghost a = out@;
    push_scale_clause(out, inline_scale);
    push_str(out, ",split[_gifa][_gifb];[_gifa]palettegen=max_colors=");
    let mc: u32 = if options.max_colors < 2 {
        2
    } else if options.max_colors > 256 {
        256
    } else {
        options.max_colors
    };
    push_decimal(out, mc as u64);
    push_str(out, ":stats_mode=diff[_gifp];[_gifb][_gifp]paletteuse=");
    push_dither_clause(out, options.dither);
    push_str(out, ":diff_mode=rectangle[vgif]");
    assert(out@ =~= start + palette_stages(options, inline_scale));
}

/// The text split at each line feed; there is always at least one piece.
pub open spec fn split_lines(s: Seq<char>) -> Seq<Seq<char>>
    decreases s.len(),
{
    if s.len() == 0 {
        seq![Seq::empty()]
    } else {
        let rest = split_lines(s.drop_last());
        if s.last() == '\n' {
            rest.push(Seq::empty())
        } else {
            rest.update(rest.len() - 1, rest.last().push(s.last()))
        }
    }
}

pub proof fn lemma_split_lines_nonempty(s: Seq<char>)
    ensures
        split_lines(s).len() >= 1,
    decreases s.len(),
{
    if s.len() > 0 {
        lemma_split_lines_nonempty(s.drop_last());
    }
}

/// The trimmed pieces that are not empty, in order.
pub open spec fn kept_lines(pieces: Seq<Seq<char>>) -> Seq<Seq<char>>
    decreases pieces.len(),
{
    if pieces.len() == 0 {
        Seq::empty()
    } else {
        let rest = kept_lines(pieces.drop_last());
        if trim(pieces.last()).len() > 0 {
            rest.push(trim(pieces.last()))
        } else {
            rest
        }
    }
}

/// At most the last `n` items.
pub open spec fn last_n<T>(s: Seq<T>, n: nat) -> Seq<T> {
    if s.len() > n {
        s.subrange(s.len() - n, s.len() as int)
    } else {
        s
    }
}

/// The summary of FFmpeg's error output: its last eight non-blank lines,
/// trimmed and joined by line feeds, or a fixed sentence when there are none.
pub open spec fn summary_text(text: Seq<char>) -> Seq<char> {
    let kept = kept_lines(split_lines(text));
    if kept.len() == 0 {
        "FFmpeg failed without returning a detailed error."@
    } else {
        joined(last_n(kept, 8), seq!['\n'])
    }
}

fn collect_kept_lines(text: &str) -> (kept: Vec<Vec<char>>)
    ensures
        kept@.map_values(|l: Vec<char>| l@) == kept_lines(split_lines(text@)),
{
    let chars = chars_of(text);
    let ghost s = chars@;
    let mut kept: Vec<Vec<char>> = Vec::new();
    let mut cur: Vec<char> = Vec::new();
    let mut i: usize = 0;
    while i < chars.len()
        invariant
            i <= chars.len(),
            s == chars@,
            split_lines(s.subrange(0, i as int)).len() >= 1,
            cur@ == split_lines(s.subrange(0, i as int)).last(),
            kept@.map_values(|l: Vec<char>| l@) == kept_lines(
                split_lines(s.subrange(0, i as int)).drop_last(),
            ),
        decreases chars.len() - i,
    {
        let ghost pre = s.subrange(0, i as int);
        let ghost pieces = split_lines(pre);
        let c = chars[i];
        assert(s.subrange(0, i + 1).drop_last() =~= pre);
        assert(s.subrange(0, i + 1).last() == c);
        if c == '\n' {
            let t = trimmed(cur.as_slice());
            assert(split_lines(s.subrange(0, i + 1)) == pieces.push(Seq::empty()));
            assert(pieces.push(Seq::<char>::empty()).drop_last() =~= pieces);
            assert(pieces.drop_last().push(pieces.last()) =~= pieces);
            if t.len() > 0 {
                let ghost before = kept@;
                kept.push(t);
                assert(kept@.map_values(|l: Vec<char>| l@) =~= before.map_values(
                    |l: Vec<char>| l@,
                ).push(trim(pieces.last())));
            }
            cur = Vec::new();
        } else {
            cur.push(c);
            assert(split_lines(s.subrange(0, i + 1)) == pieces.update(
                pieces.len() - 1,
                pieces.last().push(c),
            ));
            assert(pieces.update(pieces.len() - 1, pieces.last().push(c)).drop_last()
                =~= pieces.drop_last());
        }
        proof {
            lemma_split_lines_nonempty(s.subrange(0, i + 1));
        }
        i = i + 1;
    }
    assert(s.subrange(0, chars@.len() as int) =~= s);
    let ghost pieces = split_lines(s);
    assert(pieces.drop_last().push(pieces.last()) =~= pieces);
    let t = trimmed(cur.as_slice());
    if t.len() > 0 {
        let ghost before = kept@;
        kept.push(t);
        assert(kept@.map_values(|l: Vec<char>| l@) =~= before.map_values(|l: Vec<char>| l@).push(
            trim(pieces.last()),
        ));
    }
    kept
}

/// The summary of an FFmpeg run's error output, already decoded.
pub fn summarize_ffmpeg_text(text: &str) -> (r: String)
    ensures
        r@ == summary_text(text@),
{
    let kept = collect_kept_lines(text);
    let ghost all = kept@.map_values(|l: Vec<char>| l@);
    if kept.len() == 0 {
        let mut out: Vec<char> = Vec::new();
        push_str(&mut out, "FFmpeg failed without returning a detailed error.");
        return string_of(out.as_slice());
    }
    let start: usize = if kept.len() > 8 {
        kept.len() - 8
    } else {
        0
    };
    let ghost tail = last_n(all, 8);
    assert(tail =~= all.subrange(start as int, all.len() as int));
    let mut out: Vec<char> = Vec::new();
    let mut i: usize = start;
    while i < kept.len()
        invariant
            start <= i <= kept.len(),
            all == kept@.map_values(|l: Vec<char>| l@),
            tail == all.subrange(start as int, all.len() as int),
            out@ == joined(tail.subrange(0, i - start), seq!['\n']),
        decreases kept.len() - i,
    {
        assert(tail.subrange(0, i + 1 - start).drop_last() =~= tail.subrange(0, i - start));
        assert(tail.subrange(0, i + 1 - start).last() == kept@[i as int]@);
        if i > start {
            out.push('\n');
        }
        let line = &kept[i];
        let mut j: usize = 0;
        let ghost before = out@;
        while j < line.len()
            invariant
                j <= line.len(),
                out@ == before + line@.subrange(0, j as int),
            decreases line.len() - j,
        {
            out.push(line[j]);
            j = j + 1;
            assert(out@ =~= before + line@.subrange(0, j as int));
        }
        assert(line@.subrange(0, line@.len() as int) =~= line@);
        i = i + 1;
        assert(out@ =~= joined(tail.subrange(0, i - start), seq!['\n']));
    }
    assert(tail.subrange(0, kept.len() - start) =~= tail);
    string_of(out.as_slice())
}

/// What `String::from_utf8_lossy` makes of a byte string.
pub uninterp spec fn utf8_lossy_spec(bytes: Seq<u8>) -> Seq<char>;

/// Decodes bytes with `String::from_utf8_lossy`, which replaces invalid
/// sequences with U+FFFD. Claimed: the result is [`utf8_lossy_spec`] of the
/// bytes, a function of them alone, and ASCII bytes decode to the same
/// characters (ASCII is valid UTF-8); the decoding of other bytes is not
/// stated.
#[verifier::external_body]
fn utf8_lossy(bytes: &[u8]) -> (s: String)
    ensures
        s@ == utf8_lossy_spec(bytes@),
        is_ascii_bytes(bytes@) ==> s@ == ascii_chars(bytes@),
{
    String::from_utf8_lossy(bytes).into_owned()
}

/// The summary of an FFmpeg run's raw error output.
pub fn summarize_ffmpeg_error(stderr: &[u8]) -> (r: String)
    ensures
        r@ == summary_text(utf8_lossy_spec(stderr@)),
{
    let text = utf8_lossy(stderr);
    summarize_ffmpeg_text(text.as_str())
}

/// One blur region of the annotation graph, in source-video pixels. Times
/// are counted in ticks of 1/10 000 s, the precision the graph prints them
/// with; opacity is counted in thousandths.
#[derive(Debug, Clone, Copy, PartialEq, Eq)]
pub struct BlurRegion<'a> {
    pub x: i32,
    pub y: i32,
    pub w: i32,
    pub h: i32,
    /// Box-blur kernel radius in pixels, clamped to `1..=64`.
    pub radius: u32,
    /// Timeline window in which the blur is visible.
    pub start_ticks: i64,
    pub end_ticks: i64,
    /// `"glass"`, `"white"`, `"black"` or `"color"`.
    pub variant: &'a str,
    /// `0xRRGGBB`; read only by the `"color"` variant.
    pub tint_rgb: u32,
    /// Master opacity of the tint, `0..=1000`; other values are clamped.
    pub opacity_milli: i32,
}

/// The larger of two integers.
pub open spec fn max_of(a: int, b: int) -> int {
    if a >= b {
        a
    } else {
        b
    }
}

/// A numbered label: `pre`, the decimal `i`, and `]`.
pub open spec fn indexed(pre: Seq<char>, i: nat) -> Seq<char> {
    pre + dec_digits(i) + "]"@
}

/// The label feeding stage `i`: the input label in brackets for the first
/// stage, the previous stage's output after that.
pub open spec fn blur_stage_input(input: Seq<char>, i: nat) -> Seq<char> {
    if i == 0 {
        bracketed(input)
    } else {
        indexed("[blur_step_"@, (i - 1) as nat)
    }
}

/// The label stage `i` of `n` writes: `[vblur]` for the last one.
pub open spec fn blur_stage_output(i: nat, n: nat) -> Seq<char> {
    if i + 1 == n {
        "[vblur]"@
    } else {
        indexed("[blur_step_"@, i)
    }
}

/// The tint alpha in thousandths: 30 % of the clamped opacity, rounded to
/// the nearest thousandth with halves rounded down, as `{:.3}` prints
/// `0.30 * opacity` in `f64` (where `0.30` lies just below 3/10) for the
/// halves checked; in general a float product can differ in the last place.
pub open spec fn tint_alpha(opacity_milli: i32) -> nat {
    let o: int = if opacity_milli < 0 {
        0
    } else if opacity_milli > 1000 {
        1000
    } else {
        opacity_milli as int
    };
    ((3 * o + 4) / 10) as nat
}

/// The tint colour of a region, `None` for glass and unknown variants.
pub open spec fn tint_color(r: BlurRegion) -> Option<Seq<char>> {
    let alpha = seq!['@'] + thousandths_text(tint_alpha(r.opacity_milli));
    if r.variant@ == "white"@ {
        Some("white"@ + alpha)
    } else if r.variant@ == "black"@ {
        Some("black"@ + alpha)
    } else if r.variant@ == "color"@ {
        Some(
            "0x"@ + hex_byte(((r.tint_rgb / 65536) % 256) as u8) + hex_byte(
                ((r.tint_rgb / 256) % 256) as u8,
            ) + hex_byte((r.tint_rgb % 256) as u8) + alpha,
        )
    } else {
        None
    }
}

/// The `drawbox` pass that tints the blurred crop, when the variant has one.
pub open spec fn tint_clause(r: BlurRegion) -> Seq<char> {
    match tint_color(r) {
        Some(c) => ",drawbox=x=0:y=0:w=iw:h=ih:color="@ + c + ":t=fill"@,
        None => Seq::empty(),
    }
}

/// `[in]split[blur_main_i][blur_src_i]`.
pub open spec fn blur_split_line(input: Seq<char>, i: nat) -> Seq<char> {
    input + "split"@ + indexed("[blur_main_"@, i) + indexed("[blur_src_"@, i)
}

/// The crop rectangle `w:h:x:y`: width and height at least 2, the corner
/// at least 0.
pub open spec fn crop_rect(r: BlurRegion) -> Seq<char> {
    int_text(max_of(r.w as int, 2)) + seq![':'] + int_text(max_of(r.h as int, 2)) + seq![':']
        + int_text(max_of(r.x as int, 0)) + seq![':'] + int_text(max_of(r.y as int, 0))
}

/// The box blur with the radius clamped to `1..=64`.
pub open spec fn blur_params(r: BlurRegion) -> Seq<char> {
    let radius = clamped(r.radius, 1, 64) as nat;
    ",boxblur=luma_radius="@ + dec_digits(radius) + ":luma_power=2:chroma_radius="@ + dec_digits(
        radius,
    ) + ":chroma_power=2"@
}

/// The crop and box blur of the source copy, tinted, into `[blur_done_i]`.
pub open spec fn blur_crop_line(r: BlurRegion, i: nat) -> Seq<char> {
    indexed("[blur_src_"@, i) + "crop="@ + crop_rect(r) + blur_params(r) + tint_clause(r) + indexed(
        "[blur_done_"@,
        i,
    )
}

/// Start of the visible window in ticks: the start, at least 0.
pub open spec fn window_start(r: BlurRegion) -> nat {
    max_of(r.start_ticks as int, 0) as nat
}

/// End of the visible window in ticks: the end, at least the start.
pub open spec fn window_end(r: BlurRegion) -> nat {
    max_of(r.end_ticks as int, window_start(r) as int) as nat
}

/// The overlay position `x:y=..` (the corner, at least 0).
pub open spec fn overlay_pos(r: BlurRegion) -> Seq<char> {
    int_text(max_of(r.x as int, 0)) + ":y="@ + int_text(max_of(r.y as int, 0))
}

/// The enable expression: visible between the window's start and end.
pub open spec fn enable_clause(r: BlurRegion) -> Seq<char> {
    ":enable='between(t\\,"@ + ten_thousandths_text(window_start(r)) + "\\,"@ + ten_thousandths_text(
        window_end(r),
    ) + ")'"@
}

/// The overlay of the blurred crop back at the region's place, enabled only
/// inside the region's window.
pub open spec fn blur_overlay_line(r: BlurRegion, i: nat, n: nat) -> Seq<char> {
    indexed("[blur_main_"@, i) + indexed("[blur_done_"@, i) + "overlay=x="@ + overlay_pos(r)
        + enable_clause(r) + blur_stage_output(i, n)
}

/// The three filter lines of stage `i` of `n`, joined by `;`.
#[verifier::opaque]
pub open spec fn blur_stage(input: Seq<char>, r: BlurRegion, i: nat, n: nat) -> Seq<char> {
    blur_split_line(blur_stage_input(input, i), i) + seq![';'] + blur_crop_line(r, i) + seq![';']
        + blur_overlay_line(r, i, n)
}

/// The first `k` stages for `regions`, joined by `;`.
pub open spec fn blur_chain(input: Seq<char>, regions: Seq<BlurRegion>, k: nat) -> Seq<char>
    decreases k,
{
    if k == 0 {
        Seq::empty()
    } else if k == 1 {
        blur_stage(input, regions[0], 0, regions.len())
    } else {
        blur_chain(input, regions, (k - 1) as nat) + seq![';'] + blur_stage(
            input,
            regions[k - 1],
            (k - 1) as nat,
            regions.len(),
        )
    }
}

proof fn lemma_prefix_of_concat(a: Seq<char>, b: Seq<char>)
    ensures
        has_prefix(a + b, a),
{
    assert((a + b).subrange(0, a.len() as int) =~= a);
}

proof fn lemma_suffix_of_concat(a: Seq<char>, b: Seq<char>)
    ensures
        has_suffix(a + b, b),
{
    assert((a + b).subrange(a.len() as int, (a + b).len() as int) =~= b);
}

/// The stages of a blur chain feed one another: each stage after the first
/// splits exactly the label the stage before it writes,
/// `[blur_step_{i-1}]`; only the first stage splits the input label, and
/// the last one writes `[vblur]`.
pub proof fn law_blur_stages_feed_each_other(input: Seq<char>, regions: Seq<BlurRegion>, i: nat)
    requires
        0 < i < regions.len(),
    ensures
        has_prefix(
            blur_stage(input, regions[i as int], i, regions.len()),
            "[blur_step_"@ + dec_digits((i - 1) as nat) + "]"@ + "split"@,
        ),
        has_suffix(
            blur_stage(input, regions[i - 1], (i - 1) as nat, regions.len()),
            "[blur_step_"@ + dec_digits((i - 1) as nat) + "]"@,
        ),
        has_prefix(blur_stage(input, regions[0], 0, regions.len()), bracketed(input) + "split"@),
        has_suffix(
            blur_stage(input, regions[regions.len() - 1], (regions.len() - 1) as nat, regions.len()),
            "[vblur]"@,
        ),
{
    let n = regions.len();
    lemma_stage_reads(input, regions[i as int], i, n);
    lemma_stage_reads(input, regions[0], 0, n);
    lemma_stage_writes(input, regions[i - 1], (i - 1) as nat, n);
    lemma_stage_writes(input, regions[n - 1], (n - 1) as nat, n);
}

/// A stage begins by splitting its input label.
proof fn lemma_stage_reads(input: Seq<char>, r: BlurRegion, i: nat, n: nat)
    ensures
        has_prefix(blur_stage(input, r, i, n), blur_stage_input(input, i) + "split"@),
        i > 0 ==> blur_stage_input(input, i) == "[blur_step_"@ + dec_digits((i - 1) as nat) + "]"@,
        i == 0 ==> blur_stage_input(input, i) == bracketed(input),
{
    reveal(blur_stage);
    let p = blur_stage_input(input, i) + "split"@;
    let y = indexed("[blur_main_"@, i) + indexed("[blur_src_"@, i) + seq![';'] + blur_crop_line(r, i)
        + seq![';'] + blur_overlay_line(r, i, n);
    assert(blur_stage(input, r, i, n) =~= p + y);
    lemma_prefix_of_concat(p, y);
}

/// A stage ends by writing its output label.
proof fn lemma_stage_writes(input: Seq<char>, r: BlurRegion, i: nat, n: nat)
    ensures
        has_suffix(blur_stage(input, r, i, n), blur_stage_output(i, n)),
        i + 1 == n ==> blur_stage_output(i, n) == "[vblur]"@,
        i + 1 < n ==> blur_stage_output(i, n) == "[blur_step_"@ + dec_digits(i) + "]"@,
{
    reveal(blur_stage);
    let z = blur_split_line(blur_stage_input(input, i), i) + seq![';'] + blur_crop_line(r, i) + seq![';']
        + indexed("[blur_main_"@, i) + indexed("[blur_done_"@, i) + "overlay=x="@ + overlay_pos(r)
        + enable_clause(r);
    assert(blur_stage(input, r, i, n) =~= z + blur_stage_output(i, n));
    lemma_suffix_of_concat(z, blur_stage_output(i, n));
}

fn push_tint_clause(out: &mut Vec<char>, r: &BlurRegion<'_>)
    ensures
        final(out)@ == old(out)@ + tint_clause(*r),
{
    let o: i32 = if r.opacity_milli < 0 {
        0
    } else if r.opacity_milli > 1000 {
        1000
    } else {
        r.opacity_milli
    };
    let alpha: u64 = ((3 * o + 4) / 10) as u64;
    let ghost start = out@;
    if same_text(r.variant, "white") {
        push_str(out, ",drawbox=x=0:y=0:w=iw:h=ih:color=white@");
    } else if same_text(r.variant, "black") {
        push_str(out, ",drawbox=x=0:y=0:w=iw:h=ih:color=black@");
    } else if same_text(r.variant, "color") {
        push_str(out, ",drawbox=x=0:y=0:w=iw:h=ih:color=0x");
        push_hex_byte(out, ((r.tint_rgb / 65536) % 256) as u8);
        push_hex_byte(out, ((r.tint_rgb / 256) % 256) as u8);
        push_hex_byte(out, (r.tint_rgb % 256) as u8);
        out.push('@');
    } else {
        assert(start + tint_clause(*r) =~= start);
        return;
    }
    push_thousandths(out, alpha);
    push_str(out, ":t=fill");
    proof {
        reveal_strlit(",drawbox=x=0:y=0:w=iw:h=ih:color=white@");
        reveal_strlit(",drawbox=x=0:y=0:w=iw:h=ih:color=black@");
        reveal_strlit(",drawbox=x=0:y=0:w=iw:h=ih:color=0x");
        reveal_strlit(",drawbox=x=0:y=0:w=iw:h=ih:color=");
        reveal_strlit("white");
        reveal_strlit("black");
        reveal_strlit("0x");
    }
    assert(out@ =~= start + tint_clause(*r));
}

fn push_indexed(out: &mut Vec<char>, pre: &str, i: u64)
    ensures
        final(out)@ == old(out)@ + indexed(pre@, i as nat),
{
    push_str(out, pre);
    push_decimal(out, i);
    out.push(']');
    proof {
        reveal_strlit("]");
    }
    assert(final(out)@ =~= old(out)@ + indexed(pre@, i as nat));
}

fn push_at_least(out: &mut Vec<char>, v: i32, lo: i32)
    ensures
        final(out)@ == old(out)@ + int_text(max_of(v as int, lo as int)),
{
    let m: i32 = if v < lo {
        lo
    } else {
        v
    };
    push_int(out, m as i128);
}

fn push_crop_rect(out: &mut Vec<char>, r: &BlurRegion<'_>)
    ensures
        final(out)@ == old(out)@ + crop_rect(*r),
{
    let ghost s0 = out@;
    let ghost a = int_text(max_of(r.w as int, 2));
    let ghost b = int_text(max_of(r.h as int, 2));
    let ghost c = int_text(max_of(r.x as int, 0));
    let ghost d = int_text(max_of(r.y as int, 0));
    push_at_least(out, r.w, 2);
    out.push(':');
    assert(out@ =~= s0 + (a + seq![':']));
    push_at_least(out, r.h, 2);
    out.push(':');
    assert(out@ =~= s0 + (a + seq![':'] + b + seq![':']));
    push_at_least(out, r.x, 0);
    out.push(':');
    assert(out@ =~= s0 + (a + seq![':'] + b + seq![':'] + c + seq![':']));
    push_at_least(out, r.y, 0);
    assert(out@ =~= s0 + (a + seq![':'] + b + seq![':'] + c + seq![':'] + d));
}

fn push_blur_params(out: &mut Vec<char>, r: &BlurRegion<'_>)
    ensures
        final(out)@ == old(out)@ + blur_params(*r),
{
    let radius: u32 = if r.radius < 1 {
        1
    } else if r.radius > 64 {
        64
    } else {
        r.radius
    };
    push_str(out, ",boxblur=luma_radius=");
    push_decimal(out, radius as u64);
    push_str(out, ":luma_power=2:chroma_radius=");
    push_decimal(out, radius as u64);
    push_str(out, ":chroma_power=2");
    assert(final(out)@ =~= old(out)@ + blur_params(*r));
}

fn push_blur_crop_line(out: &mut Vec<char>, r: &BlurRegion<'_>, i: u64)
    ensures
        final(out)@ == old(out)@ + blur_crop_line(*r, i as nat),
{
    push_indexed(out, "[blur_src_", i);
    push_str(out, "crop=");
    push_crop_rect(out, r);
    push_blur_params(out, r);
    push_tint_clause(out, r);
    push_indexed(out, "[blur_done_", i);
    assert(final(out)@ =~= old(out)@ + blur_crop_line(*r, i as nat));
}

fn push_overlay_pos(out: &mut Vec<char>, r: &BlurRegion<'_>)
    ensures
        final(out)@ == old(out)@ + overlay_pos(*r),
{
    let x: i32 = if r.x < 0 {
        0
    } else {
        r.x
    };
    let y: i32 = if r.y < 0 {
        0
    } else {
        r.y
    };
    push_int(out, x as i128);
    push_str(out, ":y=");
    push_int(out, y as i128);
    assert(final(out)@ =~= old(out)@ + overlay_pos(*r));
}

fn push_enable_clause(out: &mut Vec<char>, r: &BlurRegion<'_>)
    ensures
        final(out)@ == old(out)@ + enable_clause(*r),
{
    let s: i64 = if r.start_ticks < 0 {
        0
    } else {
        r.start_ticks
    };
    let e: i64 = if r.end_ticks < s {
        s
    } else {
        r.end_ticks
    };
    push_str(out, ":enable='between(t\\,");
    push_ten_thousandths(out, s as u64);
    push_str(out, "\\,");
    push_ten_thousandths(out, e as u64);
    push_str(out, ")'");
    assert(final(out)@ =~= old(out)@ + enable_clause(*r));
}

fn push_blur_overlay_line(out: &mut Vec<char>, r: &BlurRegion<'_>, i: u64, n: u64)
    requires
        i < n,
    ensures
        final(out)@ == old(out)@ + blur_overlay_line(*r, i as nat, n as nat),
{
    push_indexed(out, "[blur_main_", i);
    push_indexed(out, "[blur_done_", i);
    push_str(out, "overlay=x=");
    push_overlay_pos(out, r);
    push_enable_clause(out, r);
    if i + 1 == n {
        push_str(out, "[vblur]");
    } else {
        push_indexed(out, "[blur_step_", i);
    }
    assert(final(out)@ =~= old(out)@ + blur_overlay_line(*r, i as nat, n as nat));
}

fn push_blur_stage(out: &mut Vec<char>, input_label: &str, r: &BlurRegion<'_>, i: u64, n: u64)
    requires
        i < n,
    ensures
        final(out)@ == old(out)@ + blur_stage(input_label@, *r, i as nat, n as nat),
{
    if i == 0 {
        push_bracketed(out, input_label);
    } else {
        push_indexed(out, "[blur_step_", i - 1);
    }
    push_str(out, "split");
    push_indexed(out, "[blur_main_", i);
    push_indexed(out, "[blur_src_", i);
    out.push(';');
    push_blur_crop_line(out, r, i);
    out.push(';');
    push_blur_overlay_line(out, r, i, n);
    reveal(blur_stage);
    assert(final(out)@ =~= old(out)@ + blur_stage(input_label@, *r, i as nat, n as nat));
}

/// Blur each region of the current video: split it, crop and box-blur one
/// copy (tinted for the white, black and colour variants), and overlay the
/// result back at the region's place, visible only inside the region's
/// window. Stages chain through `[blur_step_i]` and the last ends in
/// `[vblur]`, the new label. With no regions the graph (or the empty text)
/// and the input label come back as they were.
pub fn build_annotation_blur_complex(
    filter_complex: Option<&str>,
    input_label: &str,
    regions: &[BlurRegion<'_>],
) -> (r: (String, String))
    ensures
        regions@.len() == 0 ==> r.0@ == (match filter_complex {
            Some(e) => e@,
            None => Seq::empty(),
        }) && r.1@ == input_label@,
        regions@.len() > 0 ==> r.0@ == graph_prefix(filter_complex) + blur_chain(
            input_label@,
            regions@,
            regions@.len(),
        ) && r.1@ == "[vblur]"@,
{
    if regions.len() == 0 {
        let mut g: Vec<char> = Vec::new();
        match filter_complex {
            Some(e) => push_str(&mut g, e),
            None => {},
        }
        let mut l: Vec<char> = Vec::new();
        push_str(&mut l, input_label);
        assert(g@ =~= match filter_complex {
            Some(e) => e@,
            None => Seq::<char>::empty(),
        });
        return (string_of(g.as_slice()), string_of(l.as_slice()));
    }
    let n: u64 = regions.len() as u64;
    let mut out: Vec<char> = Vec::new();
    push_graph_prefix(&mut out, filter_complex);
    let ghost prefix = out@;
    let mut i: usize = 0;
    while i < regions.len()
        invariant
            i <= regions@.len(),
            n == regions@.len(),
            prefix == graph_prefix(filter_complex),
            out@ == prefix + blur_chain(input_label@, regions@, i as nat),
        decreases regions.len() - i,
    {
        let ghost before = out@;
        if i > 0 {
            out.push(';');
        }
        push_blur_stage(&mut out, input_label, &regions[i], i as u64, n);
        i = i + 1;
        assert(out@ =~= prefix + blur_chain(input_label@, regions@, i as nat));
    }
    let mut label: Vec<char> = Vec::new();
    push_str(&mut label, "[vblur]");
    (string_of(out.as_slice()), string_of(label.as_slice()))
}

} // verus!
