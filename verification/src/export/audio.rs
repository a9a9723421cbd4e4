//! The audio side of an export's filter graph: each live input's filter
//! chain under its label, the mix of several, loudness normalization, and
//! the music clips mixed onto the finished source audio. The per-input
//! filters (trim, gain, fades, delay) are given; this lays out the graph.

use vstd::prelude::*;

use crate::ffmpeg::{joined, push_joined};
use crate::paths::has_suffix;
use crate::text::{
    dec_digits, has_substring, occurs_at, push_decimal, push_str, string_of, texts, trim, trimmed,
};

verus! {

/// The label of live input `i` among `n`: `aout` when it is the only one,
/// else `aud<i>`.
pub open spec fn mix_label(n: nat, i: int) -> Seq<char> {
    if n == 1 {
        "aout"@
    } else {
        "aud"@ + dec_digits(i as nat)
    }
}

/// One input's chain: `[<input>:a]`, its filters joined by `,`, and
/// `[<label>]`.
pub open spec fn chain_segment(input: nat, filters: Seq<Seq<char>>, label: Seq<char>) -> Seq<char> {
    "["@ + dec_digits(input) + ":a]"@ + joined(filters, ","@) + "["@ + label + "]"@
}

/// The chains of the live inputs, in order.
pub open spec fn mix_segments(chains: Seq<(usize, Vec<String>)>) -> Seq<Seq<char>> {
    Seq::new(
        chains.len(),
        |i: int| chain_segment(chains[i].0 as nat, texts(chains[i].1@), mix_label(chains.len(), i)),
    )
}

/// The bracketed labels of `n` live inputs.
pub open spec fn mix_labels(n: nat) -> Seq<Seq<char>> {
    Seq::new(n, |i: int| "["@ + mix_label(n, i) + "]"@)
}

/// The mix of several inputs into `[aout]`, without renormalizing.
pub open spec fn amix_segment(labels: Seq<Seq<char>>, out: Seq<char>) -> Seq<char> {
    joined(labels, ""@) + "amix=inputs="@ + dec_digits(labels.len()) + ":duration=longest:dropout_transition=0:normalize=0"@ + out
}

/// The audio graph of an export and its output label: nothing without a live
/// input; else the existing graph (when it holds more than white space),
/// each live input's chain, their mix when there are several, and a
/// single-pass loudness normalization to -14 LUFS when asked for.
pub open spec fn audio_graph_spec(existing: Option<Seq<char>>, chains: Seq<(usize, Vec<String>)>, normalize: bool) -> Option<
    (Seq<char>, Seq<char>),
> {
    if chains.len() == 0 {
        None
    } else {
        let head = match existing {
            Some(e) => if trim(e).len() > 0 {
                seq![e]
            } else {
                Seq::empty()
            },
            None => Seq::empty(),
        };
        let mix = if chains.len() > 1 {
            seq![amix_segment(mix_labels(chains.len()), "[aout]"@)]
        } else {
            Seq::empty()
        };
        let norm = if normalize {
            seq!["[aout]loudnorm=I=-14:TP=-1:LRA=11[aoutn]"@]
        } else {
            Seq::empty()
        };
        Some(
            (
                joined(head + mix_segments(chains) + mix + norm, ";"@),
                if normalize {
                    "[aoutn]"@
                } else {
                    "[aout]"@
                },
            ),
        )
    }
}

pub open spec fn pair_text(r: Option<(String, String)>) -> Option<(Seq<char>, Seq<char>)> {
    match r {
        Some((a, b)) => Some((a@, b@)),
        None => None,
    }
}

fn label_text(prefix: &str, i: usize) -> (s: String)
    ensures
        s@ == prefix@ + dec_digits(i as nat),
{
    let mut v: Vec<char> = Vec::new();
    push_str(&mut v, prefix);
    push_decimal(&mut v, i as u64);
    string_of(v.as_slice())
}

fn segment_text(input: usize, filters: &Vec<String>, label: &str) -> (s: String)
    ensures
        s@ == chain_segment(input as nat, texts(filters@), label@),
{
    let mut v: Vec<char> = Vec::new();
    push_str(&mut v, "[");
    push_decimal(&mut v, input as u64);
    push_str(&mut v, ":a]");
    push_joined(&mut v, filters, ",");
    push_str(&mut v, "[");
    push_str(&mut v, label);
    push_str(&mut v, "]");
    assert(v@ =~= chain_segment(input as nat, texts(filters@), label@));
    string_of(v.as_slice())
}

fn bracketed(label: &str) -> (s: String)
    ensures
        s@ == "["@ + label@ + "]"@,
{
    let mut v: Vec<char> = Vec::new();
    push_str(&mut v, "[");
    push_str(&mut v, label);
    push_str(&mut v, "]");
    string_of(v.as_slice())
}

fn push_text(v: &mut Vec<String>, s: String)
    ensures
        texts(final(v)@) == texts(old(v)@).push(s@),
{
    let ghost before = v@;
    v.push(s);
    assert(texts(v@) =~= texts(before).push(s@));
}

fn amix_text(labels: &Vec<String>, out: &str) -> (s: String)
    ensures
        s@ == amix_segment(texts(labels@), out@),
{
    let mut v: Vec<char> = Vec::new();
    push_joined(&mut v, labels, "");
    push_str(&mut v, "amix=inputs=");
    push_decimal(&mut v, labels.len() as u64);
    push_str(&mut v, ":duration=longest:dropout_transition=0:normalize=0");
    push_str(&mut v, out);
    assert(texts(labels@).len() == labels@.len());
    assert(v@ =~= amix_segment(texts(labels@), out@));
    string_of(v.as_slice())
}

fn join_segments(segments: &Vec<String>) -> (s: String)
    ensures
        s@ == joined(texts(segments@), ";"@),
{
    let mut v: Vec<char> = Vec::new();
    push_joined(&mut v, segments, ";");
    string_of(v.as_slice())
}

/// Lay out the audio graph over `existing`: `chains` holds each live input's
/// index and filters (inputs silenced by mute or zero gain left out).
/// Returns the graph and its output label; `None` without a live input.
pub fn append_audio_to_complex(
    existing: Option<&str>,
    chains: &Vec<(usize, Vec<String>)>,
    normalize_loudness: bool,
) -> (r: Option<(String, String)>)
    ensures
        pair_text(r) == audio_graph_spec(
            match existing {
                Some(e) => Some(e@),
                None => None,
            },
            chains@,
            normalize_loudness,
        ),
{
    let n: usize = chains.len();
    if n == 0 {
        return None;
    }
    let mut segments: Vec<String> = Vec::new();
    match existing {
        Some(e) => {
            let t = crate::text::chars_of(e);
            let tt = trimmed(t.as_slice());
            if tt.len() > 0 {
                push_text(&mut segments, e.to_owned());
            }
        },
        None => {},
    }
    let ghost head = texts(segments@);
    let mut labels: Vec<String> = Vec::new();
    let mut i: usize = 0;
    while i < n
        invariant
            i <= n,
            n == chains@.len(),
            texts(segments@) == head + mix_segments(chains@).take(i as int),
            texts(labels@) == mix_labels(n as nat).take(i as int),
        decreases n - i,
    {
        let label: String = if n == 1 {
            "aout".to_owned()
        } else {
            label_text("aud", i)
        };
        assert(label@ == mix_label(n as nat, i as int));
        let seg = segment_text(chains[i].0, &chains[i].1, label.as_str());
        push_text(&mut segments, seg);
        push_text(&mut labels, bracketed(label.as_str()));
        assert(mix_segments(chains@).take(i + 1) =~= mix_segments(chains@).take(i as int).push(
            mix_segments(chains@)[i as int],
        ));
        assert(mix_labels(n as nat).take(i + 1) =~= mix_labels(n as nat).take(i as int).push(
            mix_labels(n as nat)[i as int],
        ));
        i = i + 1;
    }
    assert(mix_segments(chains@).take(n as int) =~= mix_segments(chains@));
    assert(mix_labels(n as nat).take(n as int) =~= mix_labels(n as nat));
    let ghost body = texts(segments@);
    if n > 1 {
        push_text(&mut segments, amix_text(&labels, "[aout]"));
    }
    let ghost with_mix = texts(segments@);
    if normalize_loudness {
        push_text(&mut segments, "[aout]loudnorm=I=-14:TP=-1:LRA=11[aoutn]".to_owned());
    }
    let ghost spec_head: Seq<Seq<char>> = match existing {
        Some(e) => if trim(e@).len() > 0 {
            seq![e@]
        } else {
            Seq::empty()
        },
        None => Seq::empty(),
    };
    assert(head =~= spec_head);
    let ghost mix: Seq<Seq<char>> = if n > 1 {
        seq![amix_segment(mix_labels(n as nat), "[aout]"@)]
    } else {
        Seq::empty()
    };
    let ghost norm: Seq<Seq<char>> = if normalize_loudness {
        seq!["[aout]loudnorm=I=-14:TP=-1:LRA=11[aoutn]"@]
    } else {
        Seq::empty()
    };
    assert(texts(segments@) =~= spec_head + mix_segments(chains@) + mix + norm);
    let graph = join_segments(&segments);
    let map: String = if normalize_loudness {
        "[aoutn]".to_owned()
    } else {
        "[aout]".to_owned()
    };
    Some((graph, map))
}

/// The label of music clip `i`.
pub open spec fn music_label(i: int) -> Seq<char> {
    "mus"@ + dec_digits(i as nat)
}

/// The chains of the music clips, in order.
pub open spec fn music_segments(clips: Seq<(usize, Vec<String>)>) -> Seq<Seq<char>> {
    Seq::new(
        clips.len(),
        |i: int| chain_segment(clips[i].0 as nat, texts(clips[i].1@), music_label(i)),
    )
}

/// The bracketed labels of `n` music clips.
pub open spec fn music_labels(n: nat) -> Seq<Seq<char>> {
    Seq::new(n, |i: int| "["@ + music_label(i) + "]"@)
}

/// The music stage and its output label: without clips, the source audio as
/// it is (nothing when there is none); else each clip's chain, and (unless a
/// lone clip is all there is) the mix of the source audio and the clips into
/// `[afinal]`.
pub open spec fn music_stage_spec(source: Option<Seq<char>>, clips: Seq<(usize, Vec<String>)>) -> Option<
    (Seq<char>, Seq<char>),
> {
    if clips.len() == 0 {
        match source {
            Some(s) => Some((Seq::empty(), s)),
            None => None,
        }
    } else {
        let labels = (match source {
            Some(s) => seq![s],
            None => Seq::empty(),
        }) + music_labels(clips.len());
        if labels.len() == 1 {
            Some((joined(music_segments(clips), ";"@), labels[0]))
        } else {
            Some(
                (
                    joined(
                        music_segments(clips) + seq![amix_segment(labels, "[afinal]"@)],
                        ";"@,
                    ),
                    "[afinal]"@,
                ),
            )
        }
    }
}

/// Lay out the music stage over the finished source audio `source_audio`
/// (its label; `None` when muted): `clips` holds each clip's input index and
/// filters (trim, gain, fades, delay onto the output timeline).
pub fn build_music_stage(source_audio: Option<&str>, clips: &Vec<(usize, Vec<String>)>) -> (r: Option<
    (String, String),
>)
    ensures
        pair_text(r) == music_stage_spec(
            match source_audio {
                Some(s) => Some(s@),
                None => None,
            },
            clips@,
        ),
{
    let n: usize = clips.len();
    if n == 0 {
        return match source_audio {
            Some(s) => {
                let empty = String::new();
                assert(empty@ =~= Seq::<char>::empty());
                Some((empty, s.to_owned()))
            },
            None => None,
        };
    }
    let mut segments: Vec<String> = Vec::new();
    let mut labels: Vec<String> = Vec::new();
    match source_audio {
        Some(s) => push_text(&mut labels, s.to_owned()),
        None => {},
    }
    let ghost first = texts(labels@);
    let ghost spec_first: Seq<Seq<char>> = match source_audio {
        Some(s) => seq![s@],
        None => Seq::empty(),
    };
    assert(first =~= spec_first);
    let mut i: usize = 0;
    while i < n
        invariant
            i <= n,
            n == clips@.len(),
            texts(segments@) == music_segments(clips@).take(i as int),
            texts(labels@) == first + music_labels(n as nat).take(i as int),
        decreases n - i,
    {
        let label = label_text("mus", i);
        let seg = segment_text(clips[i].0, &clips[i].1, label.as_str());
        push_text(&mut segments, seg);
        push_text(&mut labels, bracketed(label.as_str()));
        assert(music_segments(clips@).take(i + 1) =~= music_segments(clips@).take(i as int).push(
            music_segments(clips@)[i as int],
        ));
        assert(music_labels(n as nat).take(i + 1) =~= music_labels(n as nat).take(i as int).push(
            music_labels(n as nat)[i as int],
        ));
        i = i + 1;
    }
    assert(music_segments(clips@).take(n as int) =~= music_segments(clips@));
    assert(music_labels(n as nat).take(n as int) =~= music_labels(n as nat));
    if labels.len() == 1 {
        let graph = join_segments(&segments);
        return Some((graph, labels[0].clone()));
    }
    let ghost before = texts(segments@);
    push_text(&mut segments, amix_text(&labels, "[afinal]"));
    assert(texts(segments@) =~= music_segments(clips@) + seq![
        amix_segment(spec_first + music_labels(n as nat), "[afinal]"@),
    ]);
    let graph = join_segments(&segments);
    Some((graph, "[afinal]".to_owned()))
}

/// With at least one live input, normalizing is never skipped: the graph
/// ends with the loudness pass reading the mix `[aout]` and the map is its
/// output `[aoutn]`, whatever the number of inputs; without normalizing the
/// map is the mix `[aout]` itself.
pub proof fn law_normalize_ends_every_graph_in_loudnorm(
    existing: Option<Seq<char>>,
    chains: Seq<(usize, Vec<String>)>,
    normalize: bool,
)
    requires
        chains.len() > 0,
    ensures
        audio_graph_spec(existing, chains, normalize) matches Some((graph, map)) && (normalize
            ==> has_suffix(graph, ";"@ + "[aout]loudnorm=I=-14:TP=-1:LRA=11[aoutn]"@) && map
            == "[aoutn]"@) && (!normalize ==> map == "[aout]"@),
{
    if normalize {
        let head: Seq<Seq<char>> = match existing {
            Some(e) => if trim(e).len() > 0 {
                seq![e]
            } else {
                Seq::empty()
            },
            None => Seq::empty(),
        };
        let mix: Seq<Seq<char>> = if chains.len() > 1 {
            seq![amix_segment(mix_labels(chains.len()), "[aout]"@)]
        } else {
            Seq::empty()
        };
        let n = "[aout]loudnorm=I=-14:TP=-1:LRA=11[aoutn]"@;
        let front = head + mix_segments(chains) + mix;
        let pieces = front + seq![n];
        assert(pieces.len() >= 2);
        assert(pieces.drop_last() =~= front);
        assert(pieces.last() == n);
        let g = joined(pieces, ";"@);
        assert(g == joined(front, ";"@) + ";"@ + n);
        let t = ";"@ + n;
        assert(g.subrange(g.len() - t.len(), g.len() as int) =~= t);
    }
}

proof fn lemma_substring_in_middle(a: Seq<char>, m: Seq<char>, b: Seq<char>)
    ensures
        has_substring(a + m + b, m),
{
    assert((a + m + b).subrange(a.len() as int, (a.len() + m.len()) as int) =~= m);
    assert(occurs_at(a + m + b, m, a.len() as int));
}

/// With several live inputs the graph always mixes them all: it holds an
/// `amix` over exactly that many inputs, normalized or not.
pub proof fn law_several_inputs_are_all_mixed(
    existing: Option<Seq<char>>,
    chains: Seq<(usize, Vec<String>)>,
    normalize: bool,
)
    requires
        chains.len() > 1,
    ensures
        audio_graph_spec(existing, chains, normalize) matches Some((graph, _)) && has_substring(
            graph,
            "amix=inputs="@ + dec_digits(chains.len()) + ":duration=longest"@,
        ),
{
    let head: Seq<Seq<char>> = match existing {
        Some(e) => if trim(e).len() > 0 {
            seq![e]
        } else {
            Seq::empty()
        },
        None => Seq::empty(),
    };
    let labels = mix_labels(chains.len());
    assert(labels.len() == chains.len());
    let mixseg = amix_segment(labels, "[aout]"@);
    let front = head + mix_segments(chains);
    let pat = "amix=inputs="@ + dec_digits(chains.len()) + ":duration=longest"@;
    let rest = ":dropout_transition=0:normalize=0"@ + "[aout]"@;
    reveal_strlit(":duration=longest:dropout_transition=0:normalize=0");
    reveal_strlit(":duration=longest");
    reveal_strlit(":dropout_transition=0:normalize=0");
    assert(":duration=longest:dropout_transition=0:normalize=0"@ =~= ":duration=longest"@
        + ":dropout_transition=0:normalize=0"@);
    assert(mixseg =~= joined(labels, ""@) + pat + rest);
    let fm = front + seq![mixseg];
    assert(fm.len() >= 2);
    assert(fm.drop_last() =~= front);
    let gm = joined(fm, ";"@);
    assert(gm == joined(front, ";"@) + ";"@ + mixseg);
    let a = joined(front, ";"@) + ";"@ + joined(labels, ""@);
    assert(gm =~= a + pat + rest);
    lemma_substring_in_middle(a, pat, rest);
    if normalize {
        let n = "[aout]loudnorm=I=-14:TP=-1:LRA=11[aoutn]"@;
        let pieces = fm + seq![n];
        assert(pieces.drop_last() =~= fm);
        let g = joined(pieces, ";"@);
        assert(g == gm + ";"@ + n);
        assert(g =~= a + pat + (rest + ";"@ + n));
        lemma_substring_in_middle(a, pat, rest + ";"@ + n);
        assert(head + mix_segments(chains) + seq![mixseg] + seq![n] =~= pieces);
    } else {
        assert(head + mix_segments(chains) + seq![mixseg] + Seq::<Seq<char>>::empty() =~= fm);
    }
}

} // verus!
