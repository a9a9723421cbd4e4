//! Encoder presets and the codec/output arguments of the video export.

use vstd::prelude::*;

use crate::text::{dec_digits, int_text, push_decimal, push_int, same_text, string_of, texts};
use crate::types::{loop_arg, ExportProfile, GifSettings};

verus! {

/// The x264 presets far below realtime at 4K.
pub open spec fn is_sub_realtime_preset(p: Seq<char>) -> bool {
    p == "slow"@ || p == "slower"@ || p == "veryslow"@ || p == "placebo"@
}

/// Clamp a software-x264 `-preset` so a GPU-less export cannot run the
/// sub-realtime tiers: those become `medium`, faster presets pass through.
pub fn cap_software_x264_preset<'a>(preset: &'a str) -> (r: &'a str)
    ensures
        is_sub_realtime_preset(preset@) ==> r@ == "medium"@,
        !is_sub_realtime_preset(preset@) ==> r@ == preset@,
{
    if same_text(preset, "slow") || same_text(preset, "slower") || same_text(preset, "veryslow")
        || same_text(preset, "placebo") {
        "medium"
    } else {
        preset
    }
}

/// The x264 preset an export runs with: the speed setting's own preset when it
/// names one, else the quality profile's; on the software encoder the
/// sub-realtime tiers are capped to `medium`.
pub fn export_x264_preset<'a>(speed_preset: Option<&'a str>, profile_preset: &'a str, software: bool) -> (r: &'a str)
    ensures
        ({
            let chosen = match speed_preset {
                Some(p) => p@,
                None => profile_preset@,
            };
            r@ == if software && is_sub_realtime_preset(chosen) {
                "medium"@
            } else {
                chosen
            }
        }),
{
    let chosen: &str = match speed_preset {
        Some(p) => p,
        None => profile_preset,
    };
    if software {
        cap_software_x264_preset(chosen)
    } else {
        chosen
    }
}

/// The audio codec arguments of an MP4 export: AAC at 192 kb/s, pinned to
/// 48 kHz stereo, or `-an` without an audio map.
pub open spec fn mp4_audio_args(has_audio: bool) -> Seq<Seq<char>> {
    if has_audio {
        seq!["-c:a"@, "aac"@, "-b:a"@, "192k"@, "-ar"@, "48000"@, "-ac"@, "2"@]
    } else {
        seq!["-an"@]
    }
}

/// The VP9 arguments of a WebM export, before the audio codec.
pub open spec fn webm_video_args(crf: nat, cpu_used: nat) -> Seq<Seq<char>> {
    seq![
        "-c:v"@,
        "libvpx-vp9"@,
        "-crf"@,
        dec_digits(crf),
        "-b:v"@,
        "0"@,
        "-deadline"@,
        "good"@,
        "-cpu-used"@,
        dec_digits(cpu_used),
        "-row-mt"@,
        "1"@,
        "-tile-columns"@,
        "1"@,
        "-threads"@,
        "0"@,
    ]
}

/// The codec and output arguments for an export `format`: GIF, WebM (VP9 and
/// Opus), or anything else as MP4 with the H.264 encoder's own flags `h264`
/// followed by AAC; each ends with the output path.
pub open spec fn codec_tail(
    format: Seq<char>,
    loop_n: int,
    webm_crf: nat,
    vp9_cpu_used: nat,
    h264: Seq<Seq<char>>,
    has_audio: bool,
    output: Seq<char>,
) -> Seq<Seq<char>> {
    if format == "gif"@ {
        seq!["-c:v"@, "gif"@, "-f"@, "gif"@, "-an"@, "-vsync"@, "0"@, "-loop"@, int_text(loop_n), output]
    } else if format == "webm"@ {
        webm_video_args(webm_crf, vp9_cpu_used) + (if has_audio {
            seq!["-c:a"@, "libopus"@]
        } else {
            seq!["-an"@]
        }) + seq![output]
    } else {
        h264 + mp4_audio_args(has_audio) + seq![output]
    }
}

fn decimal_string(n: u64) -> (s: String)
    ensures
        s@ == dec_digits(n as nat),
{
    let mut v: Vec<char> = Vec::new();
    push_decimal(&mut v, n);
    string_of(v.as_slice())
}

fn int_string(n: i64) -> (s: String)
    ensures
        s@ == int_text(n as int),
{
    let mut v: Vec<char> = Vec::new();
    push_int(&mut v, n as i128);
    string_of(v.as_slice())
}

fn push_texts(args: &mut Vec<String>, more: Vec<String>)
    ensures
        texts(final(args)@) == texts(old(args)@) + texts(more@),
{
    let ghost start = args@;
    let mut i: usize = 0;
    while i < more.len()
        invariant
            i <= more.len(),
            texts(args@) == texts(start) + texts(more@.subrange(0, i as int)),
        decreases more.len() - i,
    {
        let ghost before = args@;
        args.push(more[i].clone());
        proof {
            assert(texts(args@) =~= texts(before).push(more@[i as int]@));
            assert(texts(more@.subrange(0, i + 1)) =~= texts(more@.subrange(0, i as int)).push(
                more@[i as int]@,
            ));
        }
        i = i + 1;
    }
    assert(more@.subrange(0, more@.len() as int) =~= more@);
}

/// Append the codec and output arguments for `format` to `args`. The export
/// speed contributes the VP9 `-cpu-used` level, and the chosen H.264 encoder
/// its own flags (`h264_args`), used for any format but GIF and WebM.
pub fn append_codec_args(
    args: &mut Vec<String>,
    format: &str,
    gif_settings: &GifSettings,
    profile: &ExportProfile,
    vp9_cpu_used: u32,
    h264_args: Vec<String>,
    has_audio_map: bool,
    output_path: &str,
)
    ensures
        texts(final(args)@) == texts(old(args)@) + codec_tail(
            format@,
            loop_arg(gif_settings.loop_setting),
            profile.webm_crf as nat,
            vp9_cpu_used as nat,
            texts(h264_args@),
            has_audio_map,
            output_path@,
        ),
{
    let mut more: Vec<String> = Vec::new();
    if same_text(format, "gif") {
        more.push("-c:v".to_owned());
        more.push("gif".to_owned());
        more.push("-f".to_owned());
        more.push("gif".to_owned());
        more.push("-an".to_owned());
        more.push("-vsync".to_owned());
        more.push("0".to_owned());
        more.push("-loop".to_owned());
        more.push(int_string(gif_settings.ffmpeg_loop_arg()));
        more.push(output_path.to_owned());
    } else if same_text(format, "webm") {
        more.push("-c:v".to_owned());
        more.push("libvpx-vp9".to_owned());
        more.push("-crf".to_owned());
        more.push(decimal_string(profile.webm_crf as u64));
        more.push("-b:v".to_owned());
        more.push("0".to_owned());
        more.push("-deadline".to_owned());
        more.push("good".to_owned());
        more.push("-cpu-used".to_owned());
        more.push(decimal_string(vp9_cpu_used as u64));
        more.push("-row-mt".to_owned());
        more.push("1".to_owned());
        more.push("-tile-columns".to_owned());
        more.push("1".to_owned());
        more.push("-threads".to_owned());
        more.push("0".to_owned());
        if has_audio_map {
            more.push("-c:a".to_owned());
            more.push("libopus".to_owned());
        } else {
            more.push("-an".to_owned());
        }
        more.push(output_path.to_owned());
    } else {
        more = h264_args;
        if has_audio_map {
            more.push("-c:a".to_owned());
            more.push("aac".to_owned());
            more.push("-b:a".to_owned());
            more.push("192k".to_owned());
            more.push("-ar".to_owned());
            more.push("48000".to_owned());
            more.push("-ac".to_owned());
            more.push("2".to_owned());
        } else {
            more.push("-an".to_owned());
        }
        more.push(output_path.to_owned());
    }
    assert(texts(more@) =~= codec_tail(
        format@,
        loop_arg(gif_settings.loop_setting),
        profile.webm_crf as nat,
        vp9_cpu_used as nat,
        texts(h264_args@),
        has_audio_map,
        output_path@,
    ));
    push_texts(args, more);
}

} // verus!
