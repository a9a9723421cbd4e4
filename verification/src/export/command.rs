//! Assembling and reading an export's FFmpeg command line: the output name,
//! the filter graph and stream maps, the mux tail, and what the command says
//! about its encoder.

use vstd::prelude::*;

use crate::export::run::{
    exit_code_spec, exit_message, is_ffmpeg_crash_code, law_exit_message_parses_back,
    parse_ffmpeg_exit_code,
};
use crate::ffmpeg::{joined, push_joined};
use crate::text::{
    chars_of, contains, dec_digits, has_substring, push_decimal, push_str, push_thousandths,
    same_text, string_of, texts, thousandths_text, utf8_len, utf8_len_exceeds,
};

verus! {

/// Above this many bytes a filter graph goes to a script file: Windows caps
/// a command line at about 32 KB.
pub const FILTER_COMPLEX_SCRIPT_THRESHOLD: usize = 8000;

/// The file extension of an export format: `gif`, `webm`, else `mp4`.
pub fn export_extension(format: &str) -> (e: &'static str)
    ensures
        format@ == "gif"@ ==> e@ == "gif"@,
        format@ == "webm"@ ==> e@ == "webm"@,
        format@ != "gif"@ && format@ != "webm"@ ==> e@ == "mp4"@,
{
    if same_text(format, "gif") {
        "gif"
    } else if same_text(format, "webm") {
        "webm"
    } else {
        "mp4"
    }
}

/// The name an export is given: the source's file stem, or `Recast_export`
/// when it has none (or an empty one).
pub fn output_stem(stem: Option<String>) -> (s: String)
    ensures
        (stem matches Some(t) && t@.len() > 0) ==> s@ == stem->0@,
        !(stem matches Some(t) && t@.len() > 0) ==> s@ == "Recast_export"@,
{
    match stem {
        Some(t) => {
            if t.as_str().is_empty() {
                "Recast_export".to_owned()
            } else {
                t
            }
        },
        None => "Recast_export".to_owned(),
    }
}

/// A filter graph with one more segment: segments are joined by `;`, and an
/// empty segment changes nothing.
pub open spec fn graph_with(graph: Option<Seq<char>>, seg: Seq<char>) -> Option<Seq<char>> {
    if seg.len() == 0 {
        graph
    } else {
        match graph {
            Some(g) => Some(g + ";"@ + seg),
            None => Some(seg),
        }
    }
}

pub open spec fn opt_text(o: Option<String>) -> Option<Seq<char>> {
    match o {
        Some(s) => Some(s@),
        None => None,
    }
}

/// Add a segment to a filter graph.
pub fn append_graph_segment(graph: Option<String>, seg: String) -> (r: Option<String>)
    ensures
        opt_text(r) == graph_with(opt_text(graph), seg@),
{
    if seg.as_str().is_empty() {
        return graph;
    }
    match graph {
        Some(g) => {
            let mut out: Vec<char> = Vec::new();
            push_str(&mut out, g.as_str());
            push_str(&mut out, ";");
            push_str(&mut out, seg.as_str());
            Some(string_of(out.as_slice()))
        },
        None => Some(seg),
    }
}

/// The filter-graph and stream-map arguments of an encode: the graph (inline,
/// or as `script` when it is too long for a command line) with its video
/// map, or the source's first video stream; the audio map when there is one;
/// and the output filters as `-vf` when there is no graph to hold them.
pub open spec fn graph_args(
    graph: Option<Seq<char>>,
    video_map: Seq<char>,
    audio_map: Option<Seq<char>>,
    output_filters: Seq<Seq<char>>,
    script: Seq<char>,
) -> Seq<Seq<char>> {
    (match graph {
        Some(g) => if utf8_len(g) > FILTER_COMPLEX_SCRIPT_THRESHOLD {
            seq!["-filter_complex_script"@, script, "-map"@, video_map]
        } else {
            seq!["-filter_complex"@, g, "-map"@, video_map]
        },
        None => seq!["-map"@, "0:v:0"@],
    }) + (match audio_map {
        Some(a) => seq!["-map"@, a],
        None => Seq::empty(),
    }) + (if output_filters.len() > 0 && graph is None {
        seq!["-vf"@, joined(output_filters, ","@)]
    } else {
        Seq::empty()
    })
}

pub(crate) fn push_arg(args: &mut Vec<String>, s: &str)
    ensures
        texts(final(args)@) == texts(old(args)@).push(s@),
{
    let ghost before = args@;
    args.push(s.to_owned());
    assert(texts(args@) =~= texts(before).push(s@));
}

/// Append the filter-graph and stream-map arguments to `args`. Returns
/// whether the graph was handed over as the script file `script_path`,
/// which the caller then writes.
pub fn append_graph_args(
    args: &mut Vec<String>,
    graph: &Option<String>,
    video_map: &str,
    audio_map: &Option<String>,
    output_filters: &Vec<String>,
    script_path: &str,
) -> (spilled: bool)
    ensures
        texts(final(args)@) == texts(old(args)@) + graph_args(
            opt_text(*graph),
            video_map@,
            opt_text(*audio_map),
            texts(output_filters@),
            script_path@,
        ),
        spilled == (graph matches Some(g) && utf8_len(g@) > FILTER_COMPLEX_SCRIPT_THRESHOLD),
{
    let ghost start = texts(args@);
    let mut spilled = false;
    match graph {
        Some(g) => {
            if utf8_len_exceeds(g.as_str(), FILTER_COMPLEX_SCRIPT_THRESHOLD) {
                push_arg(args, "-filter_complex_script");
                push_arg(args, script_path);
                spilled = true;
            } else {
                push_arg(args, "-filter_complex");
                push_arg(args, g.as_str());
            }
            push_arg(args, "-map");
            push_arg(args, video_map);
        },
        None => {
            push_arg(args, "-map");
            push_arg(args, "0:v:0");
        },
    }
    let ghost mid = texts(args@);
    match audio_map {
        Some(a) => {
            push_arg(args, "-map");
            push_arg(args, a.as_str());
        },
        None => {},
    }
    let ghost mid2 = texts(args@);
    if output_filters.len() > 0 && graph.is_none() {
        push_arg(args, "-vf");
        let mut v: Vec<char> = Vec::new();
        push_joined(&mut v, output_filters, ",");
        let j = string_of(v.as_slice());
        push_arg(args, j.as_str());
    }
    assert(texts(args@) =~= start + graph_args(
        opt_text(*graph),
        video_map@,
        opt_text(*audio_map),
        texts(output_filters@),
        script_path@,
    ));
    spilled
}

/// The arguments after the inputs of a mux pass over an already-rendered
/// video: the audio graph (inline or as `script`), the video stream copied,
/// the audio map encoded as AAC pinned to 48 kHz stereo and cut at the
/// shortest stream, and a faststart MP4 at `output`.
pub open spec fn mux_args(
    graph: Option<Seq<char>>,
    audio_map: Option<Seq<char>>,
    script: Seq<char>,
    output: Seq<char>,
) -> Seq<Seq<char>> {
    (match graph {
        Some(g) => if utf8_len(g) > FILTER_COMPLEX_SCRIPT_THRESHOLD {
            seq!["-filter_complex_script"@, script]
        } else {
            seq!["-filter_complex"@, g]
        },
        None => Seq::empty(),
    }) + seq!["-map"@, "0:v:0"@, "-c:v"@, "copy"@] + (match audio_map {
        Some(a) => seq![
            "-map"@,
            a,
            "-c:a"@,
            "aac"@,
            "-b:a"@,
            "192k"@,
            "-ar"@,
            "48000"@,
            "-ac"@,
            "2"@,
            "-shortest"@,
        ],
        None => Seq::empty(),
    }) + seq!["-movflags"@, "+faststart"@, output]
}

/// Append the mux-pass arguments to `args`. Returns whether the graph was
/// handed over as the script file `script_path`, which the caller then
/// writes.
pub fn append_mux_args(
    args: &mut Vec<String>,
    graph: &Option<String>,
    audio_map: &Option<String>,
    script_path: &str,
    output_path: &str,
) -> (spilled: bool)
    ensures
        texts(final(args)@) == texts(old(args)@) + mux_args(
            opt_text(*graph),
            opt_text(*audio_map),
            script_path@,
            output_path@,
        ),
        spilled == (graph matches Some(g) && utf8_len(g@) > FILTER_COMPLEX_SCRIPT_THRESHOLD),
{
    let ghost start = texts(args@);
    let mut spilled = false;
    match graph {
        Some(g) => {
            if utf8_len_exceeds(g.as_str(), FILTER_COMPLEX_SCRIPT_THRESHOLD) {
                push_arg(args, "-filter_complex_script");
                push_arg(args, script_path);
                spilled = true;
            } else {
                push_arg(args, "-filter_complex");
                push_arg(args, g.as_str());
            }
        },
        None => {},
    }
    push_arg(args, "-map");
    push_arg(args, "0:v:0");
    push_arg(args, "-c:v");
    push_arg(args, "copy");
    match audio_map {
        Some(a) => {
            push_arg(args, "-map");
            push_arg(args, a.as_str());
            push_arg(args, "-c:a");
            push_arg(args, "aac");
            push_arg(args, "-b:a");
            push_arg(args, "192k");
            push_arg(args, "-ar");
            push_arg(args, "48000");
            push_arg(args, "-ac");
            push_arg(args, "2");
            push_arg(args, "-shortest");
        },
        None => {},
    }
    push_arg(args, "-movflags");
    push_arg(args, "+faststart");
    push_arg(args, output_path);
    assert(texts(args@) =~= start + mux_args(
        opt_text(*graph),
        opt_text(*audio_map),
        script_path@,
        output_path@,
    ));
    spilled
}

/// `flag` first occurs in `args` at `i`.
pub open spec fn first_at(args: Seq<Seq<char>>, flag: Seq<char>, i: int) -> bool {
    &&& 0 <= i < args.len()
    &&& args[i] == flag
    &&& forall|j: int| 0 <= j < i ==> args[j] != flag
}

/// The value after the first occurrence of `flag` in `args`: `Some` exactly
/// when the flag occurs and is not the last argument.
pub open spec fn value_after_spec(args: Seq<Seq<char>>, flag: Seq<char>, r: Option<Seq<char>>) -> bool {
    match r {
        Some(v) => exists|i: int| #[trigger] first_at(args, flag, i) && i + 1 < args.len() && v == args[i + 1],
        None => forall|i: int| #[trigger] first_at(args, flag, i) ==> i + 1 == args.len(),
    }
}

/// The argument that follows the first `flag` in `args`, if any.
pub fn value_after(args: &Vec<String>, flag: &str) -> (r: Option<String>)
    ensures
        value_after_spec(texts(args@), flag@, opt_text(r)),
{
    let ghost t = texts(args@);
    let mut i: usize = 0;
    while i < args.len()
        invariant
            i <= args@.len(),
            t == texts(args@),
            forall|j: int| 0 <= j < i ==> t[j] != flag@,
        decreases args.len() - i,
    {
        if same_text(args[i].as_str(), flag) {
            assert(first_at(t, flag@, i as int));
            if i + 1 < args.len() {
                return Some(args[i + 1].clone());
            } else {
                return None;
            }
        }
        i = i + 1;
    }
    None
}

/// The video encoder an encode command names after `-c:v`, or `unknown`.
pub fn video_encoder_of(args: &Vec<String>) -> (s: String)
    ensures
        exists|r: Option<Seq<char>>| #[trigger] value_after_spec(texts(args@), "-c:v"@, r) && s@
            == match r {
            Some(v) => v,
            None => "unknown"@,
        },
{
    let r = value_after(args, "-c:v");
    match r {
        Some(v) => v,
        None => "unknown".to_owned(),
    }
}

/// How an encode command decodes: `hwaccel:` and the value after
/// `-hwaccel`, or `software`.
pub fn decode_mode_of(args: &Vec<String>) -> (s: String)
    ensures
        exists|r: Option<Seq<char>>| #[trigger] value_after_spec(texts(args@), "-hwaccel"@, r) && s@
            == match r {
            Some(v) => "hwaccel:"@ + v,
            None => "software"@,
        },
{
    let r = value_after(args, "-hwaccel");
    match r {
        Some(v) => {
            let mut out: Vec<char> = Vec::new();
            push_str(&mut out, "hwaccel:");
            push_str(&mut out, v.as_str());
            string_of(out.as_slice())
        },
        None => "software".to_owned(),
    }
}

/// A hardware H.264 encoder: NVENC, AMF, QuickSync or VideoToolbox, by name.
pub open spec fn hardware_encoder_spec(name: Seq<char>) -> bool {
    has_substring(name, "nvenc"@) || has_substring(name, "amf"@) || has_substring(name, "qsv"@)
        || has_substring(name, "videotoolbox"@)
}

/// Whether an encoder name is one of the hardware encoders, which can crash
/// mid-encode and then get one retry with software x264.
pub fn is_hardware_encoder(name: &str) -> (b: bool)
    ensures
        b == hardware_encoder_spec(name@),
{
    let n = chars_of(name);
    let a = chars_of("nvenc");
    let b = chars_of("amf");
    let c = chars_of("qsv");
    let d = chars_of("videotoolbox");
    contains(n.as_slice(), a.as_slice()) || contains(n.as_slice(), b.as_slice()) || contains(
        n.as_slice(),
        c.as_slice(),
    ) || contains(n.as_slice(), d.as_slice())
}

/// A failed encode is retried in software when a retry command was prepared
/// and the error carries an FFmpeg exit code outside `0..=255` (a crash).
pub fn retry_in_software(error: &str, has_retry: bool) -> (b: bool)
    ensures
        b == (has_retry && (exit_code_spec(error@) matches Some(c) && !(0 <= c <= 255))),
{
    if !has_retry {
        return false;
    }
    match parse_ffmpeg_exit_code(error) {
        Some(c) => is_ffmpeg_crash_code(c),
        None => false,
    }
}

/// The head of an encode command: quiet logging, overwrite, progress blocks
/// on stderr every 100 ms, the filter thread counts when given, the trim
/// start and length (milliseconds, printed as seconds to three places) when
/// set, and the source as input 0.
pub open spec fn head_args(
    filter_threads: Option<nat>,
    trim_start_ms: nat,
    duration_ms: nat,
    source: Seq<char>,
) -> Seq<Seq<char>> {
    seq![
        "-hide_banner"@,
        "-loglevel"@,
        "error"@,
        "-y"@,
        "-progress"@,
        "pipe:2"@,
        "-stats_period"@,
        "0.1"@,
    ] + (match filter_threads {
        Some(n) => seq![
            "-filter_complex_threads"@,
            dec_digits(n),
            "-filter_threads"@,
            dec_digits(n),
        ],
        None => Seq::empty(),
    }) + (if trim_start_ms > 0 {
        seq!["-ss"@, thousandths_text(trim_start_ms)]
    } else {
        Seq::empty()
    }) + (if duration_ms > 0 {
        seq!["-t"@, thousandths_text(duration_ms)]
    } else {
        Seq::empty()
    }) + seq!["-i"@, source]
}

fn thousandths_string(n: u64) -> (s: String)
    ensures
        s@ == thousandths_text(n as nat),
{
    let mut v: Vec<char> = Vec::new();
    push_thousandths(&mut v, n);
    string_of(v.as_slice())
}

fn decimal_string(n: u64) -> (s: String)
    ensures
        s@ == dec_digits(n as nat),
{
    let mut v: Vec<char> = Vec::new();
    push_decimal(&mut v, n);
    string_of(v.as_slice())
}

/// The head of an encode command (see [`head_args`]); the palette pre-pass
/// uses it without filter thread counts.
pub fn encode_head_args(
    filter_threads: Option<u64>,
    trim_start_ms: u64,
    duration_ms: u64,
    source: &str,
) -> (r: Vec<String>)
    ensures
        texts(r@) == head_args(
            match filter_threads {
                Some(n) => Some(n as nat),
                None => None,
            },
            trim_start_ms as nat,
            duration_ms as nat,
            source@,
        ),
{
    let mut args: Vec<String> = Vec::new();
    push_arg(&mut args, "-hide_banner");
    push_arg(&mut args, "-loglevel");
    push_arg(&mut args, "error");
    push_arg(&mut args, "-y");
    push_arg(&mut args, "-progress");
    push_arg(&mut args, "pipe:2");
    push_arg(&mut args, "-stats_period");
    push_arg(&mut args, "0.1");
    match filter_threads {
        Some(n) => {
            let t = decimal_string(n);
            push_arg(&mut args, "-filter_complex_threads");
            push_arg(&mut args, t.as_str());
            push_arg(&mut args, "-filter_threads");
            push_arg(&mut args, t.as_str());
        },
        None => {},
    }
    if trim_start_ms > 0 {
        let s = thousandths_string(trim_start_ms);
        push_arg(&mut args, "-ss");
        push_arg(&mut args, s.as_str());
    }
    if duration_ms > 0 {
        let s = thousandths_string(duration_ms);
        push_arg(&mut args, "-t");
        push_arg(&mut args, s.as_str());
    }
    push_arg(&mut args, "-i");
    push_arg(&mut args, source);
    assert(texts(args@) =~= head_args(
        match filter_threads {
            Some(n) => Some(n as nat),
            None => None,
        },
        trim_start_ms as nat,
        duration_ms as nat,
        source@,
    ));
    args
}

/// A failed encode's message names its exit code, and that code alone
/// decides the software retry: a crash (outside `0..=255`) is retried when a
/// retry command exists, an ordinary FFmpeg error never is.
pub proof fn law_only_crash_exits_are_retried(code: i32, summary: Seq<char>)
    ensures
        ({
            let err = exit_message(Some(code), summary);
            (exit_code_spec(err) matches Some(c) && !(0 <= c <= 255)) <==> !(0 <= code <= 255)
        }),
{
    law_exit_message_parses_back(code, summary);
}

} // verus!
