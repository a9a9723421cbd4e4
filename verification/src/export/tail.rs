//! Output-side arguments of an export: the duration cap, `-shortest` and
//! the music credits line.

use vstd::prelude::*;

use crate::ffmpeg::{joined, push_joined};
use crate::text::{push_str, push_thousandths, same_text, string_of, texts, thousandths_text};

verus! {

/// Where a music clip's audio comes from.
#[derive(Debug, Clone)]
pub enum AudioClipSource {
    /// A file the user picked; nothing to credit.
    Local { path: String },
    /// A track from a music provider, with the credit line its license asks
    /// for.
    Provider {
        provider_id: String,
        track_id: String,
        asset_path: String,
        attribution: Option<String>,
        license: Option<String>,
    },
}

/// The credit line a clip's license requires, if any.
pub open spec fn attribution_of(s: AudioClipSource) -> Option<Seq<char>> {
    match s {
        AudioClipSource::Provider { attribution: Some(a), .. } => Some(a@),
        _ => None,
    }
}

/// The distinct credit lines of the clips, in order of first appearance.
pub open spec fn credits(clips: Seq<AudioClipSource>) -> Seq<Seq<char>>
    decreases clips.len(),
{
    if clips.len() == 0 {
        Seq::empty()
    } else {
        let rest = credits(clips.drop_last());
        match attribution_of(clips.last()) {
            Some(a) => if rest.contains(a) {
                rest
            } else {
                rest.push(a)
            },
            None => rest,
        }
    }
}

fn seen_before(seen: &Vec<String>, a: &str) -> (b: bool)
    ensures
        b == texts(seen@).contains(a@),
{
    let mut i: usize = 0;
    while i < seen.len()
        invariant
            i <= seen.len(),
            forall|k: int| 0 <= k < i ==> seen@[k]@ != a@,
        decreases seen.len() - i,
    {
        if same_text(seen[i].as_str(), a) {
            assert(texts(seen@)[i as int] == a@);
            return true;
        }
        i = i + 1;
    }
    assert(!texts(seen@).contains(a@)) by {
        if texts(seen@).contains(a@) {
            let k = choose|k: int| 0 <= k < texts(seen@).len() && texts(seen@)[k] == a@;
            assert(seen@[k]@ == a@);
        }
    }
    false
}

/// The output file's `comment` metadata crediting the music: `Music: ` and
/// the distinct credit lines joined by `; `; none when nothing needs
/// crediting.
pub fn build_credits_comment(clips: &Vec<AudioClipSource>) -> (r: Option<String>)
    ensures
        credits(clips@).len() == 0 ==> r is None,
        credits(clips@).len() > 0 ==> (r matches Some(s) && s@ == "Music: "@ + joined(
            credits(clips@),
            "; "@,
        )),
{
    let mut seen: Vec<String> = Vec::new();
    let mut i: usize = 0;
    while i < clips.len()
        invariant
            i <= clips.len(),
            texts(seen@) == credits(clips@.subrange(0, i as int)),
        decreases clips.len() - i,
    {
        assert(clips@.subrange(0, i + 1).drop_last() =~= clips@.subrange(0, i as int));
        assert(clips@.subrange(0, i + 1).last() == clips@[i as int]);
        match &clips[i] {
            AudioClipSource::Provider { attribution: Some(a), .. } => {
                if !seen_before(&seen, a.as_str()) {
                    let ghost before = seen@;
                    seen.push(a.clone());
                    assert(texts(seen@) =~= texts(before).push(a@));
                }
            },
            _ => {},
        }
        i = i + 1;
    }
    assert(clips@.subrange(0, clips@.len() as int) =~= clips@);
    if seen.len() == 0 {
        return None;
    }
    let mut out: Vec<char> = Vec::new();
    push_str(&mut out, "Music: ");
    push_joined(&mut out, &seen, "; ");
    Some(string_of(out.as_slice()))
}

/// The `comment=` metadata value for a credits line.
pub open spec fn credits_comment(clips: Seq<AudioClipSource>) -> Seq<char> {
    "comment="@ + "Music: "@ + joined(credits(clips), "; "@)
}

/// The output-side arguments of an export: `-t` with the output length in
/// seconds to three places when a cap is set, `-shortest` when the span is
/// untrimmed and generated inputs would otherwise run forever, and the music
/// credits as `comment` metadata for every format but GIF.
pub open spec fn output_tail_args(
    format: Seq<char>,
    cap_ms: nat,
    untrimmed: bool,
    has_generated_inputs: bool,
    clips: Seq<AudioClipSource>,
) -> Seq<Seq<char>> {
    (if cap_ms > 0 {
        seq!["-t"@, thousandths_text(cap_ms)]
    } else {
        Seq::empty()
    }) + (if untrimmed && has_generated_inputs {
        seq!["-shortest"@]
    } else {
        Seq::empty()
    }) + (if format != "gif"@ && credits(clips).len() > 0 {
        seq!["-metadata"@, credits_comment(clips)]
    } else {
        Seq::empty()
    })
}

/// Append the duration cap, `-shortest` and the credits metadata to `args`.
/// `cap_ms` is the real post-edit output length in milliseconds (0: no cap);
/// `untrimmed` says the export has no trimmed span. Returns the cap when one
/// was set: that is then the output's expected length.
pub fn append_output_tail(
    args: &mut Vec<String>,
    format: &str,
    cap_ms: u64,
    untrimmed: bool,
    has_generated_inputs: bool,
    clips: &Vec<AudioClipSource>,
) -> (expected_ms: Option<u64>)
    ensures
        texts(final(args)@) == texts(old(args)@) + output_tail_args(
            format@,
            cap_ms as nat,
            untrimmed,
            has_generated_inputs,
            clips@,
        ),
        expected_ms == (if cap_ms > 0 {
            Some(cap_ms)
        } else {
            None
        }),
{
    let ghost start = args@;
    let ghost t1: Seq<Seq<char>> = if cap_ms > 0 {
        seq!["-t"@, thousandths_text(cap_ms as nat)]
    } else {
        Seq::empty()
    };
    let ghost t2: Seq<Seq<char>> = if untrimmed && has_generated_inputs {
        seq!["-shortest"@]
    } else {
        Seq::empty()
    };
    if cap_ms > 0 {
        args.push("-t".to_owned());
        let mut v: Vec<char> = Vec::new();
        push_thousandths(&mut v, cap_ms);
        args.push(string_of(v.as_slice()));
    }
    assert(texts(args@) =~= texts(start) + t1);
    if untrimmed && has_generated_inputs {
        args.push("-shortest".to_owned());
    }
    assert(texts(args@) =~= texts(start) + t1 + t2);
    if !same_text(format, "gif") {
        match build_credits_comment(clips) {
            Some(comment) => {
                args.push("-metadata".to_owned());
                let mut v: Vec<char> = Vec::new();
                push_str(&mut v, "comment=");
                push_str(&mut v, comment.as_str());
                assert(v@ =~= credits_comment(clips@));
                args.push(string_of(v.as_slice()));
            },
            None => {},
        }
    }
    assert(texts(args@) =~= texts(start) + output_tail_args(
        format@,
        cap_ms as nat,
        untrimmed,
        has_generated_inputs,
        clips@,
    ));
    if cap_ms > 0 {
        Some(cap_ms)
    } else {
        None
    }
}

} // verus!
