//! Filter fragments that shift a companion capture track (loopback,
//! microphone, webcam) onto the screen video's timeline, from how many
//! milliseconds that track's first sample lags video frame 0.

use vstd::prelude::*;

use crate::types::opt_view;
use crate::text::{int_text, push_decimal, push_str, push_thousandths, string_of, thousandths_text};

verus! {

/// Below this the correction is imperceptible and not worth a resample.
pub const MIN_CORRECTION_MS: i64 = 5;

/// Above this the measurement is not believable and is ignored.
pub const MAX_CORRECTION_MS: i64 = 30_000;

/// The offset, when it is a correction worth applying.
pub open spec fn usable_spec(offset_ms: Option<i64>) -> Option<i64> {
    match offset_ms {
        Some(ms) if (MIN_CORRECTION_MS <= ms <= MAX_CORRECTION_MS) || (-MAX_CORRECTION_MS <= ms
            <= -MIN_CORRECTION_MS) => Some(ms),
        _ => None,
    }
}

/// The audio filter that aligns a track starting `offset_ms` after frame 0.
pub open spec fn audio_align_spec(offset_ms: Option<i64>) -> Option<Seq<char>> {
    match usable_spec(offset_ms) {
        None => None,
        Some(ms) => if ms > 0 {
            Some("adelay="@ + int_text(ms as int) + ":all=1"@)
        } else {
            Some("atrim=start="@ + thousandths_text((-ms) as nat) + ",asetpts=PTS-STARTPTS"@)
        },
    }
}

/// The video filter that aligns a camera track starting `offset_ms` after frame 0.
pub open spec fn video_align_spec(offset_ms: Option<i64>) -> Option<Seq<char>> {
    match usable_spec(offset_ms) {
        None => None,
        Some(ms) => if ms > 0 {
            Some("setpts=PTS+"@ + thousandths_text(ms as nat) + "/TB"@)
        } else {
            Some("trim=start="@ + thousandths_text((-ms) as nat) + ",setpts=PTS-STARTPTS"@)
        },
    }
}

/// `Some(offset)` reduced to a correction worth applying: at least
/// [`MIN_CORRECTION_MS`] and at most [`MAX_CORRECTION_MS`] either way.
pub fn usable(offset_ms: Option<i64>) -> (r: Option<i64>)
    ensures
        r == usable_spec(offset_ms),
{
    match offset_ms {
        Some(ms) => {
            if (MIN_CORRECTION_MS <= ms && ms <= MAX_CORRECTION_MS) || (-MAX_CORRECTION_MS <= ms
                && ms <= -MIN_CORRECTION_MS) {
                Some(ms)
            } else {
                None
            }
        },
        None => None,
    }
}

/// Audio filter placing a track that starts `offset_ms` after video frame 0
/// back onto the video's timeline: a late track gets its head padded with
/// silence, an early one has the head it captured before the video dropped.
pub fn audio_align_filter(offset_ms: Option<i64>) -> (r: Option<String>)
    ensures
        opt_view(r) == audio_align_spec(offset_ms),
{
    match usable(offset_ms) {
        None => None,
        Some(ms) => {
            let mut out: Vec<char> = Vec::new();
            if ms > 0 {
                push_str(&mut out, "adelay=");
                push_decimal(&mut out, ms as u64);
                push_str(&mut out, ":all=1");
            } else {
                push_str(&mut out, "atrim=start=");
                push_thousandths(&mut out, (-ms) as u64);
                push_str(&mut out, ",asetpts=PTS-STARTPTS");
            }
            Some(string_of(out.as_slice()))
        },
    }
}

/// Video equivalent for the camera overlay: a late camera has its
/// timestamps pushed forward, an early one has its head trimmed.
pub fn video_align_filter(offset_ms: Option<i64>) -> (r: Option<String>)
    ensures
        opt_view(r) == video_align_spec(offset_ms),
{
    match usable(offset_ms) {
        None => None,
        Some(ms) => {
            let mut out: Vec<char> = Vec::new();
            if ms > 0 {
                push_str(&mut out, "setpts=PTS+");
                push_thousandths(&mut out, ms as u64);
                push_str(&mut out, "/TB");
            } else {
                push_str(&mut out, "trim=start=");
                push_thousandths(&mut out, (-ms) as u64);
                push_str(&mut out, ",setpts=PTS-STARTPTS");
            }
            Some(string_of(out.as_slice()))
        },
    }
}

/// No correction is ever applied for an offset too small to notice or too
/// large to believe, and every applied correction is exactly one of the two
/// directions the sign of the offset asks for.
pub proof fn law_only_plausible_offsets_are_corrected(offset_ms: Option<i64>)
    ensures
        (audio_align_spec(offset_ms) is Some) <==> (usable_spec(offset_ms) is Some),
        (video_align_spec(offset_ms) is Some) <==> (usable_spec(offset_ms) is Some),
        offset_ms is None ==> audio_align_spec(offset_ms) is None,
{
}

/// Which capture an export audio input came from: a single file's embedded
/// track, or one of a project's separate system-audio and microphone
/// captures.
#[derive(Debug, Clone, Copy, PartialEq, Eq, Structural)]
pub enum AudioKind {
    Source,
    System,
    Mic,
}

/// Each track's measured lag behind video frame 0, in ms; `None` where it
/// was never measured.
#[derive(Debug, Clone, Copy, PartialEq, Eq, Structural, Default)]
pub struct TrackOffsets {
    pub audio_ms: Option<i64>,
    pub microphone_ms: Option<i64>,
    pub camera_ms: Option<i64>,
}

/// A track's measured lag, or `None` when it was never measured or is
/// already muxed into the source video.
pub fn offset_for(kind: AudioKind, offsets: TrackOffsets) -> (r: Option<i64>)
    ensures
        kind == AudioKind::Source ==> r is None,
        kind == AudioKind::System ==> r == offsets.audio_ms,
        kind == AudioKind::Mic ==> r == offsets.microphone_ms,
{
    match kind {
        AudioKind::Source => None,
        AudioKind::System => offsets.audio_ms,
        AudioKind::Mic => offsets.microphone_ms,
    }
}

/// The audio captures an export mixes, in input order: the source's own
/// track (when it has one), then the project's system audio and microphone
/// captures (when they hold samples). GIF has no audio, and a project whose
/// audio was detached into voice clips contributes none of these.
pub open spec fn audio_kinds(
    is_gif: bool,
    source_has_audio: bool,
    audio_detached: bool,
    has_project: bool,
    system_has_samples: bool,
    mic_has_samples: bool,
) -> Seq<AudioKind> {
    let on = !is_gif && !audio_detached;
    (if on && source_has_audio {
        seq![AudioKind::Source]
    } else {
        Seq::empty()
    }) + (if on && has_project && system_has_samples {
        seq![AudioKind::System]
    } else {
        Seq::empty()
    }) + (if on && has_project && mic_has_samples {
        seq![AudioKind::Mic]
    } else {
        Seq::empty()
    })
}

/// The audio inputs of an export with their FFmpeg input indices, numbered
/// from `first`, and the next free index.
pub fn plan_audio_inputs(
    is_gif: bool,
    source_has_audio: bool,
    audio_detached: bool,
    has_project: bool,
    system_has_samples: bool,
    mic_has_samples: bool,
    first: usize,
) -> (r: (Vec<(usize, AudioKind)>, usize))
    requires
        first + 3 <= usize::MAX,
    ensures
        ({
            let kinds = audio_kinds(
                is_gif,
                source_has_audio,
                audio_detached,
                has_project,
                system_has_samples,
                mic_has_samples,
            );
            &&& r.0@.len() == kinds.len()
            &&& forall|i: int| 0 <= i < kinds.len() ==> #[trigger] r.0@[i] == (
                (first + i) as usize,
                kinds[i],
            )
            &&& r.1 == first + kinds.len()
        }),
{
    let ghost kinds = audio_kinds(
        is_gif,
        source_has_audio,
        audio_detached,
        has_project,
        system_has_samples,
        mic_has_samples,
    );
    let on = !is_gif && !audio_detached;
    let mut inputs: Vec<(usize, AudioKind)> = Vec::new();
    let mut next: usize = first;
    if on && source_has_audio {
        inputs.push((next, AudioKind::Source));
        next = next + 1;
    }
    if on && has_project && system_has_samples {
        inputs.push((next, AudioKind::System));
        next = next + 1;
    }
    if on && has_project && mic_has_samples {
        inputs.push((next, AudioKind::Mic));
        next = next + 1;
    }
    proof {
        let a: Seq<AudioKind> = if on && source_has_audio {
            seq![AudioKind::Source]
        } else {
            Seq::empty()
        };
        let b: Seq<AudioKind> = if on && has_project && system_has_samples {
            seq![AudioKind::System]
        } else {
            Seq::empty()
        };
        let c: Seq<AudioKind> = if on && has_project && mic_has_samples {
            seq![AudioKind::Mic]
        } else {
            Seq::empty()
        };
        assert(kinds =~= a + b + c);
        assert forall|i: int| 0 <= i < kinds.len() implies #[trigger] inputs@[i] == (
            (first + i) as usize,
            kinds[i],
        ) by {
            if i < a.len() {
            } else if i < a.len() + b.len() {
            } else {
            }
        }
    }
    (inputs, next)
}

} // verus!
