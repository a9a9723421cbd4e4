//! Screenshot sizing and options: how far a shot is downscaled before it is
//! handed to an agent, what a capture request asks for, and which app window
//! an app shot captures.

use vstd::prelude::*;

use crate::binary32::{
    bit_len, bit_len_of, lemma_bit_len_bounds, lemma_bit_len_range, lemma_p2_adds, lemma_p2_mono,
    lemma_p2_pos, lemma_p2_values, lemma_rne_div_upper, lemma_round24_bounds, lemma_round24_mono,
    lemma_round24_order, lemma_round24_upper,
    p2, p2_of, rne_div, rne_div_of, round24, round24_of,
};
use crate::text::{
    dec_digits, lemma_lex_asymmetric, lemma_lex_total, lemma_lex_transitive, lex_less, lex_lt,
    push_decimal, push_str, same_text, string_of,
};
use crate::paths::{
    has_suffix, join_path, joined_path, open_dir, plain_file_name, portable_path,
};

verus! {

/// Longest-edge cap for agent-facing shots, unless the caller asks for full
/// resolution with `0`.
pub const DEFAULT_MAX_EDGE: u32 = 1600;

/// What the caller wants out of a capture.
#[derive(Debug, Clone)]
pub struct ShotOptions {
    /// Where to write the PNG; `None` picks a timestamped temporary file.
    pub out: Option<String>,
    /// Longest-edge cap in pixels; `0` keeps the native resolution.
    pub max_edge: u32,
    /// Also embed a `data:image/png;base64,...` URI in the result.
    pub base64: bool,
}

/// The written screenshot and what an agent needs to act on it.
#[derive(Debug, Clone)]
pub struct Screenshot {
    pub path: String,
    pub width: u32,
    pub height: u32,
    /// `"display"`, `"window"`, `"app"` or `"region"`.
    pub kind: String,
    pub base64: Option<String>,
    /// Whether the shot also reached the clipboard; `None` when no copy was
    /// asked for.
    pub copied_to_clipboard: Option<bool>,
}

/// The options of a control-channel screenshot request: an absent cap is the
/// default cap (a sent one is narrowed to 32 bits), and no base64 unless
/// asked.
pub fn shot_options(out: Option<String>, max_edge: Option<u64>, base64: Option<bool>) -> (o:
    ShotOptions)
    ensures
        o.out == out,
        max_edge matches Some(n) ==> o.max_edge == n as u32,
        max_edge is None ==> o.max_edge == DEFAULT_MAX_EDGE,
        o.base64 == (base64 == Some(true)),
{
    ShotOptions {
        out,
        max_edge: match max_edge {
            Some(n) => n as u32,
            None => DEFAULT_MAX_EDGE,
        },
        base64: match base64 {
            Some(b) => b,
            None => false,
        },
    }
}

/// The exponent of the scale `cap / longest` as binary32 computes it: the
/// scale is [`scale_sig`] over `2^scale_exp`. It is picked so that the
/// exact quotient of the rounded operands, times `2^scale_exp`, has 24
/// integer digits (`x` below has one digit per power of two of the ratio,
/// read with 64 fractional bits), so rounding it to an integer is rounding
/// the quotient to 24 significant bits.
pub open spec fn scale_exp(cap: u32, longest: u32) -> int {
    let x = round24(cap as nat) * p2(64) / round24(longest as nat);
    88 - bit_len(x)
}

/// The significand of the binary32 scale `cap as f32 / longest as f32`:
/// the quotient of the rounded operands, scaled by `2^scale_exp`, rounded
/// to the nearest integer with ties to even.
pub open spec fn scale_sig(cap: u32, longest: u32) -> nat {
    rne_div(round24(cap as nat) * p2(scale_exp(cap, longest) as nat), round24(longest as nat))
}

/// One scaled edge exactly as `((n as f32) * (cap as f32 / longest as
/// f32)).round() as u32` computes it, and never below one: each conversion,
/// the division and the product round to 24 significant bits with ties to
/// even ([`round24`]); `round` takes the product over `2^scale_exp` to the
/// nearest integer with halves away from zero; the cast saturates at
/// `u32::MAX`.
pub open spec fn scaled_edge(n: u32, cap: u32, longest: u32) -> u32 {
    let e = scale_exp(cap, longest) as nat;
    let v = round24(round24(n as nat) * scale_sig(cap, longest));
    let r = (2 * v + p2(e)) / (2 * p2(e));
    if r < 1 {
        1
    } else if r > u32::MAX {
        u32::MAX
    } else {
        r as u32
    }
}

/// The dimensions after capping the longest edge to `max_edge`, keeping the
/// aspect ratio: unchanged when the cap is `0`, already met, or a side is
/// `0`.
pub open spec fn scaled_dims_spec(w: u32, h: u32, max_edge: u32) -> (u32, u32) {
    let longest = if w >= h {
        w
    } else {
        h
    };
    if max_edge == 0 || longest <= max_edge || w == 0 || h == 0 {
        (w, h)
    } else {
        (scaled_edge(w, max_edge, longest), scaled_edge(h, max_edge, longest))
    }
}

/// The scale's exponent lies in `22..=56`, and scaling by it leaves the
/// quotient of the rounded operands at least `2^23`: the scale has 24
/// significant bits.
proof fn lemma_scale_normalized(m: u32, l: u32)
    requires
        0 < m < l,
    ensures
        22 <= scale_exp(m, l) <= 56,
        round24(m as nat) * p2(scale_exp(m, l) as nat) >= p2(23) * round24(l as nat),
{
    let mf = round24(m as nat);
    let lf = round24(l as nat);
    lemma_round24_bounds(m as nat);
    lemma_round24_bounds(l as nat);
    lemma_round24_order(m as nat, l as nat);
    lemma_p2_values();
    let p64 = p2(64);
    let x = mf * p64 / lf;
    assert(0x8000_0000 <= x <= 2 * p64 && x * lf <= mf * p64) by (nonlinear_arith)
        requires
            x == mf * p64 / lf,
            1 <= mf <= 2 * lf,
            1 <= lf < 0x2_0000_0000,
            p64 == 0x1_0000_0000_0000_0000,
    ;
    let t = bit_len(x);
    lemma_bit_len_range(x, 31);
    lemma_bit_len_range(x, 66);
    lemma_bit_len_bounds(x);
    assert(p2(66) == 4 * p2(64)) by {
        reveal_with_fuel(p2, 3);
    }
    let e = (88 - t) as nat;
    let c = (t - 24) as nat;
    lemma_p2_adds(e, c);
    lemma_p2_adds(23, c);
    assert(e + c == 64);
    assert((23 + c) as nat == (t - 1) as nat);
    lemma_p2_pos(c);
    let pe = p2(e);
    let pc = p2(c);
    assert(p2(23) * lf <= mf * pe) by (nonlinear_arith)
        requires
            p2(23) * pc <= x,
            x * lf <= mf * p64,
            p64 == pe * pc,
            pc > 0,
    ;
}

/// With a cap below `2^22`, a binary32-scaled edge no longer than the
/// longest side stays within the cap.
proof fn lemma_scaled_edge_within(n: u32, m: u32, l: u32)
    requires
        0 < n <= l,
        0 < m < l,
        m < 0x40_0000,
    ensures
        1 <= scaled_edge(n, m, l) <= m,
{
    lemma_scale_normalized(m, l);
    lemma_p2_values();
    let e = scale_exp(m, l) as nat;
    let pe = p2(e);
    lemma_p2_pos(e);
    lemma_bit_len_range(m as nat, 24);
    assert(round24(m as nat) == m);
    let lf = round24(l as nat);
    let nf = round24(n as nat);
    lemma_round24_bounds(l as nat);
    lemma_round24_bounds(n as nat);
    lemma_round24_mono(n as nat, l as nat);
    let a: nat = (m * pe) as nat;
    let sig = scale_sig(m, l);
    lemma_rne_div_upper(a, lf);
    assert(0x100_0000 * sig * lf <= 0x100_0001 * a) by (nonlinear_arith)
        requires
            2 * sig * lf <= 2 * a + lf,
            0x80_0000 * lf <= a,
    ;
    let prod = nf * sig;
    let v = round24(prod);
    if prod > 0 {
        lemma_round24_upper(prod);
    }
    assert(0x100_0000 * v <= 0x100_0001 * prod);
    assert(prod <= lf * sig) by (nonlinear_arith)
        requires
            prod == nf * sig,
            nf <= lf,
    ;
    assert(2 * v < (2 * m + 1) * pe) by (nonlinear_arith)
        requires
            0x100_0000 * v <= 0x100_0001 * prod,
            prod <= lf * sig,
            0x100_0000 * sig * lf <= 0x100_0001 * a,
            a == m * pe,
            0 < m < 0x40_0000,
            pe > 0,
    ;
    let r = (2 * v + pe) / (2 * pe);
    assert(r <= m) by (nonlinear_arith)
        requires
            2 * v < (2 * m + 1) * pe,
            r == (2 * v + pe) / (2 * pe),
            pe > 0,
    ;
}

fn scale_edge(n: u32, cap: u32, longest: u32) -> (r: u32)
    requires
        0 < cap < longest,
    ensures
        r == scaled_edge(n, cap, longest),
{
    let mf = round24_of(cap as u128);
    let lf = round24_of(longest as u128);
    proof {
        lemma_round24_order(cap as nat, longest as nat);
        lemma_p2_values();
    }
    let p64 = p2_of(64);
    assert(mf * p64 < 0x2_0000_0000 * 0x1_0000_0000_0000_0000) by (nonlinear_arith)
        requires
            mf < 0x2_0000_0000,
            p64 == 0x1_0000_0000_0000_0000,
    ;
    let x = mf * p64 / lf;
    assert(0x8000_0000 <= x <= 2 * p64) by (nonlinear_arith)
        requires
            x == (mf * p64) as int / lf as int,
            1 <= mf <= 2 * lf,
            1 <= lf < 0x2_0000_0000,
            p64 == 0x1_0000_0000_0000_0000,
    ;
    let t = bit_len_of(x);
    proof {
        lemma_bit_len_range(x as nat, 31);
        lemma_bit_len_range(x as nat, 66);
        assert(p2(66) == 4 * p2(64)) by {
            reveal_with_fuel(p2, 3);
        }
    }
    let e: u128 = 88 - t;
    let pe = p2_of(e);
    proof {
        lemma_p2_mono(e as nat, 64);
        lemma_p2_pos(e as nat);
    }
    assert(mf * pe < 0x2_0000_0000 * 0x1_0000_0000_0000_0001) by (nonlinear_arith)
        requires
            mf < 0x2_0000_0000,
            pe <= 0x1_0000_0000_0000_0000,
    ;
    let sig = rne_div_of(mf * pe, lf);
    assert((mf * pe) as int / lf as int <= 2 * pe) by (nonlinear_arith)
        requires
            1 <= mf <= 2 * lf,
            lf >= 1,
    ;
    let wf = round24_of(n as u128);
    assert(wf * sig < 0x2_0000_0000 * 0x2_0000_0000_0000_0002) by (nonlinear_arith)
        requires
            wf < 0x2_0000_0000,
            sig <= 2 * pe + 1,
            pe <= 0x1_0000_0000_0000_0000,
    ;
    let v = round24_of(wf * sig);
    let r: u128 = (2 * v + pe) / (2 * pe);
    if r < 1 {
        1
    } else if r > 0xffff_ffff {
        0xffff_ffff
    } else {
        r as u32
    }
}

/// Target dimensions after capping the longest edge to `max_edge` (`0` means
/// no cap), keeping the aspect ratio; each edge is scaled in binary32 (see
/// [`scaled_edge`]).
pub fn scaled_dims(w: u32, h: u32, max_edge: u32) -> (r: (u32, u32))
    ensures
        r == scaled_dims_spec(w, h, max_edge),
{
    let longest = if w >= h {
        w
    } else {
        h
    };
    if max_edge == 0 || longest <= max_edge || w == 0 || h == 0 {
        return (w, h);
    }
    (scale_edge(w, max_edge, longest), scale_edge(h, max_edge, longest))
}

/// A downscaled shot fits the cap on both sides and is never empty, for
/// every cap below `2^22` pixels. (Above that the cap itself has no exact
/// binary32 value near a large longest side, and the scaled edge can pass
/// it by a pixel.)
pub proof fn law_scaled_dims_fit_the_cap(w: u32, h: u32, max_edge: u32)
    requires
        0 < max_edge < 0x40_0000,
        w > 0,
        h > 0,
    ensures
        1 <= scaled_dims_spec(w, h, max_edge).0,
        1 <= scaled_dims_spec(w, h, max_edge).1,
        scaled_dims_spec(w, h, max_edge).0 <= if w <= max_edge && h <= max_edge {
            w
        } else {
            max_edge
        },
        scaled_dims_spec(w, h, max_edge).1 <= if w <= max_edge && h <= max_edge {
            h
        } else {
            max_edge
        },
{
    let longest = if w >= h {
        w
    } else {
        h
    };
    if longest > max_edge {
        lemma_scaled_edge_within(w, max_edge, longest);
        lemma_scaled_edge_within(h, max_edge, longest);
    }
}

/// What finalizing a grabbed image does: the size it is written at (and
/// whether that needs a resize), the file it is written to, and whether a
/// base64 copy is embedded.
#[derive(Debug, Clone)]
pub struct ShotPlan {
    /// `"display"`, `"window"`, `"app"` or `"region"`.
    pub kind: String,
    pub width: u32,
    pub height: u32,
    /// The grabbed image must be resized to `width` x `height`.
    pub downscale: bool,
    /// Where the PNG is written.
    pub path: String,
    pub base64: bool,
}

/// The temporary file name of a `kind` shot taken at `millis` (Unix ms).
pub open spec fn shot_name(kind: Seq<char>, millis: u64) -> Seq<char> {
    "recast-shot-"@ + kind + "-"@ + dec_digits(millis as nat) + ".png"@
}

/// `r` is where a shot goes: the requested file when there is one, else
/// the file [`shot_name`] in the temporary directory `temp_dir` (joined
/// as [`join_path`] states it: ending in the name, and after one separator
/// onto a portable directory).
pub open spec fn shot_path_ok(out: Option<String>, temp_dir: Seq<char>, name: Seq<char>, r: Seq<char>) -> bool {
    match out {
        Some(o) => r == o@,
        None => {
            &&& plain_file_name(name) ==> has_suffix(r, name)
            &&& portable_path(temp_dir) && open_dir(temp_dir) && plain_file_name(name)
                ==> joined_path(temp_dir, name, r)
        },
    }
}

/// `p` is the plan for a `width` x `height` grab of `kind` under `opts`,
/// taken at `millis` with temporary directory `temp_dir`.
pub open spec fn is_plan(
    p: ShotPlan,
    kind: Seq<char>,
    width: u32,
    height: u32,
    opts: ShotOptions,
    temp_dir: Seq<char>,
    millis: u64,
) -> bool {
    &&& p.kind@ == kind
    &&& (p.width, p.height) == scaled_dims_spec(width, height, opts.max_edge)
    &&& p.downscale == ((p.width, p.height) != (width, height))
    &&& shot_path_ok(opts.out, temp_dir, shot_name(kind, millis), p.path@)
    &&& p.base64 == opts.base64
}

/// The file a `kind` shot taken at `millis` is written to: `out` when
/// given, else its timestamped name in `temp_dir`.
pub fn shot_path(out: &Option<String>, temp_dir: &str, kind: &str, millis: u64) -> (r: String)
    ensures
        shot_path_ok(*out, temp_dir@, shot_name(kind@, millis), r@),
{
    match out {
        Some(o) => o.clone(),
        None => {
            let name = default_shot_name(kind, millis);
            join_path(temp_dir, name.as_str())
        },
    }
}

/// Plan how a grabbed `width` x `height` image of `kind` is finalized.
pub fn plan_shot(
    kind: &str,
    width: u32,
    height: u32,
    opts: &ShotOptions,
    temp_dir: &str,
    millis: u64,
) -> (p: ShotPlan)
    ensures
        is_plan(p, kind@, width, height, *opts, temp_dir@, millis),
{
    let (w, h) = scaled_dims(width, height, opts.max_edge);
    let mut k: Vec<char> = Vec::new();
    push_str(&mut k, kind);
    ShotPlan {
        kind: string_of(k.as_slice()),
        width: w,
        height: h,
        downscale: w != width || h != height,
        path: shot_path(&opts.out, temp_dir, kind, millis),
        base64: opts.base64,
    }
}

/// Capture the region the overlay dragged out, once its pixels (a `width` x
/// `height` image, cropped during acquisition) have been grabbed: the plan
/// for a `region` shot.
pub fn capture_region(width: u32, height: u32, opts: &ShotOptions, temp_dir: &str, millis: u64) -> (p:
    ShotPlan)
    ensures
        is_plan(p, "region"@, width, height, *opts, temp_dir@, millis),
{
    plan_shot("region", width, height, opts, temp_dir, millis)
}

/// The temporary file name of a shot taken at `millis` (Unix ms).
pub fn default_shot_name(kind: &str, millis: u64) -> (s: String)
    ensures
        s@ == shot_name(kind@, millis),
{
    let mut out: Vec<char> = Vec::new();
    push_str(&mut out, "recast-shot-");
    push_str(&mut out, kind);
    push_str(&mut out, "-");
    push_decimal(&mut out, millis);
    push_str(&mut out, ".png");
    string_of(out.as_slice())
}

/// The result of a shot finalized by `plan`: written to the plan's path at
/// the plan's size, with the base64 copy `encoded` embedded only when the
/// plan asks for one, and no clipboard copy.
pub fn screenshot_of(plan: ShotPlan, encoded: Option<String>) -> (s: Screenshot)
    ensures
        s.path == plan.path,
        s.width == plan.width,
        s.height == plan.height,
        s.kind == plan.kind,
        s.base64 == (if plan.base64 {
            encoded
        } else {
            None
        }),
        s.copied_to_clipboard is None,
{
    Screenshot {
        path: plan.path,
        width: plan.width,
        height: plan.height,
        kind: plan.kind,
        base64: if plan.base64 {
            encoded
        } else {
            None
        },
        copied_to_clipboard: None,
    }
}

/// One of the app's windows: its label and whether it has focus.
#[derive(Debug, Clone)]
pub struct AppWindow {
    pub label: String,
    pub focused: bool,
}

/// The app's windows have distinct labels.
pub open spec fn labels_unique(ws: Seq<AppWindow>) -> bool {
    forall|i: int, j: int| 0 <= i < j < ws.len() ==> ws[i].label@ != ws[j].label@
}

/// Window `i` is the focused window whose label sorts first.
pub open spec fn first_focused(ws: Seq<AppWindow>, i: int) -> bool {
    &&& 0 <= i < ws.len()
    &&& ws[i].focused
    &&& forall|j: int| 0 <= j < ws.len() && j != i && ws[j].focused ==> lex_lt(ws[i].label@, ws[j].label@)
}

/// Window `i` is the window whose label sorts first.
pub open spec fn first_window(ws: Seq<AppWindow>, i: int) -> bool {
    &&& 0 <= i < ws.len()
    &&& forall|j: int| 0 <= j < ws.len() && j != i ==> lex_lt(ws[i].label@, ws[j].label@)
}

/// Some window has focus.
pub open spec fn any_focused(ws: Seq<AppWindow>) -> bool {
    exists|i: int| 0 <= i < ws.len() && ws[i].focused
}

/// Some window carries `label`.
pub open spec fn has_label(ws: Seq<AppWindow>, label: Seq<char>) -> bool {
    exists|i: int| 0 <= i < ws.len() && ws[i].label@ == label
}

/// Whether window `j` is a better pick than the current best `b` (focus
/// first, then the earlier label).
pub open spec fn better(ws: Seq<AppWindow>, j: int, b: int) -> bool {
    (ws[j].focused && !ws[b].focused) || (ws[j].focused == ws[b].focused && lex_lt(
        ws[j].label@,
        ws[b].label@,
    ))
}

/// The label of the app window an app screenshot captures: the one named,
/// if it exists; else the focused window, the first by label when several
/// are; else the first window by label. Refused when the named window does
/// not exist or the app has no window.
pub fn pick_window(label: Option<&str>, windows: &Vec<AppWindow>) -> (r: Result<String, String>)
    requires
        labels_unique(windows@),
    ensures
        label is Some && has_label(windows@, label->0@) ==> (r matches Ok(s) && s@
            == label->0@),
        label is Some && !has_label(windows@, label->0@) ==> (r matches Err(e) && e@
            == "no app window labelled '"@ + label->0@ + "'"@),
        label is None && windows@.len() == 0 ==> (r matches Err(e) && e@
            == "the app has no open windows to capture"@),
        label is None && windows@.len() > 0 && any_focused(windows@) ==> (r matches Ok(s)
            && exists|i: int| #[trigger] first_focused(windows@, i) && s@ == windows@[i].label@),
        label is None && windows@.len() > 0 && !any_focused(windows@) ==> (r matches Ok(s)
            && exists|i: int| #[trigger] first_window(windows@, i) && s@ == windows@[i].label@),
{
    let ws = windows;
    match label {
        Some(l) => {
            let mut i: usize = 0;
            while i < ws.len()
                invariant
                    i <= ws@.len(),
                    ws@ == windows@,
                    label == Some(l),
                    forall|k: int| 0 <= k < i ==> ws@[k].label@ != l@,
                decreases ws.len() - i,
            {
                if same_text(ws[i].label.as_str(), l) {
                    assert(ws@[i as int].label@ == l@);
                    assert(has_label(windows@, l@));
                    return Ok(l.to_owned());
                }
                i = i + 1;
            }
            let mut out: Vec<char> = Vec::new();
            push_str(&mut out, "no app window labelled '");
            push_str(&mut out, l);
            push_str(&mut out, "'");
            Err(string_of(out.as_slice()))
        },
        None => {
            if ws.len() == 0 {
                return Err("the app has no open windows to capture".to_owned());
            }
            let mut best: usize = 0;
            let mut i: usize = 1;
            while i < ws.len()
                invariant
                    1 <= i <= ws@.len(),
                    ws@ == windows@,
                    best < i,
                    labels_unique(ws@),
                    forall|k: int| 0 <= k < i && k != best ==> !better(ws@, k, best as int),
                    forall|k: int| 0 <= k < i && k != best ==> ws@[k].label@ != ws@[best as int].label@,
                decreases ws.len() - i,
            {
                let take = if ws[i].focused != ws[best].focused {
                    ws[i].focused
                } else {
                    lex_less(ws[i].label.as_str(), ws[best].label.as_str())
                };
                if take {
                    proof {
                        assert forall|k: int| 0 <= k < i + 1 && k != i implies !better(ws@, k, i as int) by {
                            if k == best {
                                if ws@[k].focused == ws@[i as int].focused {
                                    lemma_lex_asymmetric(ws@[i as int].label@, ws@[k].label@);
                                }
                            } else {
                                assert(!better(ws@, k, best as int));
                                if ws@[k].focused == ws@[i as int].focused && ws@[k].focused
                                    == ws@[best as int].focused {
                                    lemma_lex_total(ws@[k].label@, ws@[best as int].label@);
                                    if lex_lt(ws@[k].label@, ws@[i as int].label@) {
                                        lemma_lex_transitive(
                                            ws@[k].label@,
                                            ws@[i as int].label@,
                                            ws@[best as int].label@,
                                        );
                                    }
                                }
                            }
                        }
                    }
                    best = i;
                } else {
                    proof {
                        assert(ws@[i as int].label@ != ws@[best as int].label@);
                        if ws@[i as int].focused == ws@[best as int].focused {
                            lemma_lex_total(ws@[i as int].label@, ws@[best as int].label@);
                            lemma_lex_asymmetric(ws@[best as int].label@, ws@[i as int].label@);
                        }
                    }
                }
                i = i + 1;
            }
            proof {
                let w = ws@;
                let b = best as int;
                assert forall|k: int| 0 <= k < w.len() && k != b implies (w[k].focused == w[b].focused
                    ==> lex_lt(w[b].label@, w[k].label@)) by {
                    assert(!better(w, k, b));
                    assert(w[k].label@ != w[b].label@);
                    if w[k].focused == w[b].focused {
                        lemma_lex_total(w[b].label@, w[k].label@);
                    }
                }
                if any_focused(w) {
                    let f = choose|f: int| 0 <= f < w.len() && w[f].focused;
                    if f != b {
                        assert(!better(w, f, b));
                    }
                    assert(w[b].focused);
                    assert(first_focused(w, b));
                } else {
                    assert(first_window(w, b));
                }
            }
            Ok(ws[best].label.clone())
        },
    }
}

} // verus!
