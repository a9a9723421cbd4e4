//! The two-pass GIF export's decisions: the cut-and-warp chain, the pre-pass
//! and second-pass arguments, how the palette pre-pass ended, how a failed
//! pre-pass is reported, and where cut ranges are spliced into the graph
//! before the palette is applied.

use vstd::prelude::*;

use crate::export::command::push_arg;
use crate::text::{dec_digits, push_decimal, push_str, string_of, texts};

verus! {

/// How the palette pre-pass ended: success only when FFmpeg exited cleanly
/// and wrote a non-empty palette. `palette` is the palette file's size, or
/// the error reading its metadata.
pub open spec fn prepass_outcome_spec(
    exit_success: bool,
    palette: Result<u64, Seq<char>>,
    summary: Seq<char>,
) -> Result<(), Seq<char>> {
    if !exit_success {
        Err("export failed (palette pre-pass):\n"@ + summary)
    } else {
        match palette {
            Ok(n) => if n > 0 {
                Ok(())
            } else {
                Err("export failed: palette pre-pass wrote empty file"@)
            },
            Err(e) => Err("export failed: palette pre-pass output missing: "@ + e),
        }
    }
}

/// The view of a pre-pass outcome.
pub open spec fn unit_result_view(r: Result<(), String>) -> Result<(), Seq<char>> {
    match r {
        Ok(()) => Ok(()),
        Err(e) => Err(e@),
    }
}

/// Decide how the palette pre-pass ended; `summary` is the summary of its
/// error output.
pub fn prepass_outcome(exit_success: bool, palette: Result<u64, String>, summary: &str) -> (r:
    Result<(), String>)
    ensures
        unit_result_view(r) == prepass_outcome_spec(
            exit_success,
            match palette {
                Ok(n) => Ok(n),
                Err(e) => Err(e@),
            },
            summary@,
        ),
{
    if !exit_success {
        let mut out: Vec<char> = Vec::new();
        push_str(&mut out, "export failed (palette pre-pass):\n");
        push_str(&mut out, summary);
        return Err(string_of(out.as_slice()));
    }
    match palette {
        Ok(n) => {
            if n > 0 {
                Ok(())
            } else {
                let mut out: Vec<char> = Vec::new();
                push_str(&mut out, "export failed: palette pre-pass wrote empty file");
                Err(string_of(out.as_slice()))
            }
        },
        Err(e) => {
            let mut out: Vec<char> = Vec::new();
            push_str(&mut out, "export failed: palette pre-pass output missing: ");
            push_str(&mut out, e.as_str());
            Err(string_of(out.as_slice()))
        },
    }
}

/// Why the GIF pre-pass stopped short.
#[derive(Debug, Clone)]
pub enum GifPassError {
    Cancelled,
    Failed(String),
}

/// A failed pre-pass is a cancellation when the user asked for one, else a
/// failure with its message.
pub fn prepass_failure(cancel_requested: bool, message: String) -> (e: GifPassError)
    ensures
        cancel_requested ==> e is Cancelled,
        !cancel_requested ==> (e matches GifPassError::Failed(m) && m == message),
{
    if cancel_requested {
        GifPassError::Cancelled
    } else {
        GifPassError::Failed(message)
    }
}

/// The GIF frame rate: the settings' override, else the quality profile's.
pub fn resolved_gif_fps(override_fps: Option<u32>, profile_fps: u32) -> (f: u32)
    ensures
        f == match override_fps {
            Some(v) => v,
            None => profile_fps,
        },
{
    match override_fps {
        Some(v) => v,
        None => profile_fps,
    }
}

/// The temporary palette's file name, unique per run and process.
pub fn palette_file_name(stamp: u64, pid: u32) -> (s: String)
    ensures
        s@ == "recast_palette_"@ + dec_digits(stamp as nat) + "_"@ + dec_digits(pid as nat)
            + ".png"@,
{
    let mut out: Vec<char> = Vec::new();
    push_str(&mut out, "recast_palette_");
    push_decimal(&mut out, stamp);
    push_str(&mut out, "_");
    push_decimal(&mut out, pid as u64);
    push_str(&mut out, ".png");
    string_of(out.as_slice())
}

/// The graph after splicing the cut-and-warp chain in front of the palette
/// stage: the existing graph (or the bare source stream) and `;` unless it
/// already ends a stage, the current label, the chain, and `[vgifcut]`.
pub open spec fn spliced_graph(existing: Option<Seq<char>>, video_map: Seq<char>, chain: Seq<char>) -> Seq<
    char,
> {
    let (complex, label) = match existing {
        Some(e) => (e, video_map),
        None => ("[0:v]"@, "[0:v]"@),
    };
    let sep = if complex.len() > 0 && complex.last() != ';' && label.len() > 0 {
        seq![';']
    } else {
        Seq::empty()
    };
    complex + sep + label + chain + "[vgifcut]"@
}

/// Splice the cut-and-warp chain into the GIF graph; the new label is
/// `[vgifcut]`.
pub fn splice_gif_cut(filter_complex: Option<String>, video_map: &str, chain: &str) -> (r: (
    String,
    String,
))
    ensures
        r.0@ == spliced_graph(
            match filter_complex {
                Some(e) => Some(e@),
                None => None,
            },
            video_map@,
            chain@,
        ),
        r.1@ == "[vgifcut]"@,
{
    proof {
        reveal_strlit("[0:v]");
    }
    let mut complex: Vec<char> = Vec::new();
    let mut label: Vec<char> = Vec::new();
    match &filter_complex {
        Some(e) => {
            push_str(&mut complex, e.as_str());
            push_str(&mut label, video_map);
        },
        None => {
            push_str(&mut complex, "[0:v]");
            push_str(&mut label, "[0:v]");
        },
    }
    let ghost c0 = complex@;
    if complex.len() > 0 && complex[complex.len() - 1] != ';' && label.len() > 0 {
        complex.push(';');
    }
    let mut i: usize = 0;
    let ghost c1 = complex@;
    while i < label.len()
        invariant
            i <= label.len(),
            complex@ == c1 + label@.subrange(0, i as int),
        decreases label.len() - i,
    {
        complex.push(label[i]);
        i = i + 1;
        assert(complex@ =~= c1 + label@.subrange(0, i as int));
    }
    assert(label@.subrange(0, label@.len() as int) =~= label@);
    push_str(&mut complex, chain);
    push_str(&mut complex, "[vgifcut]");
    let mut map: Vec<char> = Vec::new();
    push_str(&mut map, "[vgifcut]");
    (string_of(complex.as_slice()), string_of(map.as_slice()))
}

/// The chain that drops cut ranges and re-times the survivors ahead of the
/// palette stages: `select='<cuts>',` when there are cuts, then the speed
/// warp `setpts='(<warp>)/TB'`, or plain re-stamping when only cuts apply.
/// Nothing when there is neither.
pub open spec fn gif_cut_chain_spec(cut_expr: Option<Seq<char>>, speed_expr: Option<Seq<char>>) -> Option<
    Seq<char>,
> {
    if cut_expr is None && speed_expr is None {
        None
    } else {
        let prefix = match cut_expr {
            Some(c) => "select='"@ + c + "',"@,
            None => Seq::empty(),
        };
        let setpts = match speed_expr {
            Some(w) => "setpts='("@ + w + ")/TB'"@,
            None => "setpts=N/FRAME_RATE/TB"@,
        };
        Some(prefix + setpts)
    }
}

/// Build the GIF cut-and-warp chain from the cut selection and the speed
/// warp expressions, each present only when it applies.
pub fn gif_cut_chain(cut_expr: Option<&str>, speed_expr: Option<&str>) -> (r: Option<String>)
    ensures
        opt_text(r) == gif_cut_chain_spec(opt_str(cut_expr), opt_str(speed_expr)),
{
    if cut_expr.is_none() && speed_expr.is_none() {
        return None;
    }
    let mut out: Vec<char> = Vec::new();
    match cut_expr {
        Some(c) => {
            push_str(&mut out, "select='");
            push_str(&mut out, c);
            push_str(&mut out, "',");
        },
        None => {},
    }
    let ghost prefix = out@;
    match speed_expr {
        Some(w) => {
            push_str(&mut out, "setpts='(");
            push_str(&mut out, w);
            push_str(&mut out, ")/TB'");
        },
        None => {
            push_str(&mut out, "setpts=N/FRAME_RATE/TB");
        },
    }
    proof {
        if cut_expr is None {
            assert(prefix =~= Seq::<char>::empty());
        }
    }
    Some(string_of(out.as_slice()))
}

pub open spec fn opt_text(o: Option<String>) -> Option<Seq<char>> {
    match o {
        Some(s) => Some(s@),
        None => None,
    }
}

pub open spec fn opt_str(o: Option<&str>) -> Option<Seq<char>> {
    match o {
        Some(s) => Some(s@),
        None => None,
    }
}

/// The palette pre-pass filter: the cut selection (when there is a non-empty
/// one) ahead of the palette filter.
pub open spec fn prepass_vf_spec(cut_select: Option<Seq<char>>, base_vf: Seq<char>) -> Seq<char> {
    match cut_select {
        Some(cs) => if cs.len() > 0 {
            cs + ","@ + base_vf
        } else {
            base_vf
        },
        None => base_vf,
    }
}

/// The palette pre-pass arguments after the common head: the filter, one
/// output frame, no audio, and the palette file.
pub open spec fn prepass_tail(vf: Seq<char>, palette: Seq<char>) -> Seq<Seq<char>> {
    seq!["-vf"@, vf, "-frames:v"@, "1"@, "-an"@, palette]
}

/// Append the palette pre-pass filter and output to `args`.
pub fn append_prepass_tail(
    args: &mut Vec<String>,
    cut_select: Option<&str>,
    base_vf: &str,
    palette_path: &str,
)
    ensures
        texts(final(args)@) == texts(old(args)@) + prepass_tail(
            prepass_vf_spec(opt_str(cut_select), base_vf@),
            palette_path@,
        ),
{
    let ghost start = texts(args@);
    let mut vf: Vec<char> = Vec::new();
    match cut_select {
        Some(cs) => {
            if !cs.is_empty() {
                push_str(&mut vf, cs);
                push_str(&mut vf, ",");
            }
        },
        None => {},
    }
    push_str(&mut vf, base_vf);
    proof {
        match cut_select {
            Some(cs) => {
                if cs@.len() == 0 {
                    assert(vf@ =~= base_vf@);
                }
            },
            None => {
                assert(vf@ =~= base_vf@);
            },
        }
    }
    assert(vf@ =~= prepass_vf_spec(opt_str(cut_select), base_vf@));
    push_arg(args, "-vf");
    let v = string_of(vf.as_slice());
    push_arg(args, v.as_str());
    push_arg(args, "-frames:v");
    push_arg(args, "1");
    push_arg(args, "-an");
    push_arg(args, palette_path);
    assert(texts(args@) =~= start + prepass_tail(
        prepass_vf_spec(opt_str(cut_select), base_vf@),
        palette_path@,
    ));
}

/// The second pass of a GIF made from a browser-rendered video: the video
/// and the palette as inputs, the paletteuse graph and its map, no audio.
pub open spec fn browser_gif_args_spec(
    video: Seq<char>,
    palette: Seq<char>,
    complex: Seq<char>,
    video_map: Seq<char>,
    output: Seq<char>,
) -> Seq<Seq<char>> {
    seq![
        "-y"@,
        "-i"@,
        video,
        "-i"@,
        palette,
        "-filter_complex"@,
        complex,
        "-map"@,
        video_map,
        "-an"@,
        output,
    ]
}

/// The FFmpeg arguments of that second pass.
pub fn browser_gif_args(video: &str, palette: &str, complex: &str, video_map: &str, output: &str) -> (r: Vec<String>)
    ensures
        texts(r@) == browser_gif_args_spec(video@, palette@, complex@, video_map@, output@),
{
    let mut args: Vec<String> = Vec::new();
    push_arg(&mut args, "-y");
    push_arg(&mut args, "-i");
    push_arg(&mut args, video);
    push_arg(&mut args, "-i");
    push_arg(&mut args, palette);
    push_arg(&mut args, "-filter_complex");
    push_arg(&mut args, complex);
    push_arg(&mut args, "-map");
    push_arg(&mut args, video_map);
    push_arg(&mut args, "-an");
    push_arg(&mut args, output);
    assert(texts(args@) =~= browser_gif_args_spec(video@, palette@, complex@, video_map@, output@));
    args
}

} // verus!
