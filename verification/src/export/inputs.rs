//! FFmpeg input numbering for the encode path: the source video is input 0,
//! then the looped still images, the cursor overlay, the camera with its mask
//! and shadow, and the separate audio captures, each present or not.

use vstd::prelude::*;

use crate::export::align::AudioKind;

verus! {

/// The input indices of the optional encode inputs, and the first index
/// after them.
#[derive(Debug, Clone, Copy, PartialEq, Eq, Structural)]
pub struct EncodeInputs {
    pub cursor: Option<usize>,
    pub camera: Option<usize>,
    pub camera_mask: Option<usize>,
    pub camera_shadow: Option<usize>,
    pub next: usize,
}

/// `1` for a present input, `0` for an absent one.
pub open spec fn count(b: bool) -> int {
    if b {
        1
    } else {
        0
    }
}

/// The layout: inputs are numbered in the order they are added, the source
/// video first, then `extra` looped images, and each optional input only
/// when present.
pub open spec fn layout_spec(
    extra: int,
    cursor: bool,
    camera: bool,
    mask: bool,
    shadow: bool,
) -> (Option<int>, Option<int>, Option<int>, Option<int>, int) {
    let c = 1 + extra;
    let cam = c + count(cursor);
    let m = cam + count(camera);
    let s = m + count(mask);
    (
        if cursor {
            Some(c)
        } else {
            None
        },
        if camera {
            Some(cam)
        } else {
            None
        },
        if mask {
            Some(m)
        } else {
            None
        },
        if shadow {
            Some(s)
        } else {
            None
        },
        s + count(shadow),
    )
}

pub open spec fn opt_int(o: Option<usize>) -> Option<int> {
    match o {
        Some(n) => Some(n as int),
        None => None,
    }
}

/// Number the optional inputs of an encode after the source video and its
/// `extra` looped images.
pub fn encode_input_layout(extra: usize, cursor: bool, camera: bool, mask: bool, shadow: bool) -> (r: EncodeInputs)
    requires
        extra + 5 <= usize::MAX,
    ensures
        (opt_int(r.cursor), opt_int(r.camera), opt_int(r.camera_mask), opt_int(r.camera_shadow), r.next as int)
            == layout_spec(extra as int, cursor, camera, mask, shadow),
{
    let mut next: usize = 1 + extra;
    let c: Option<usize> = if cursor {
        next = next + 1;
        Some(next - 1)
    } else {
        None
    };
    let cam: Option<usize> = if camera {
        next = next + 1;
        Some(next - 1)
    } else {
        None
    };
    let m: Option<usize> = if mask {
        next = next + 1;
        Some(next - 1)
    } else {
        None
    };
    let s: Option<usize> = if shadow {
        next = next + 1;
        Some(next - 1)
    } else {
        None
    };
    EncodeInputs { cursor: c, camera: cam, camera_mask: m, camera_shadow: s, next }
}

/// The audio inputs of an encode: the source video's own track rides on
/// input 0; the project's system and microphone captures (those that hold
/// samples) are numbered from `first`. GIF has no audio, and a project whose
/// audio was detached into voice clips contributes none of these.
pub open spec fn encode_audio_spec(
    is_gif: bool,
    source_has_audio: bool,
    audio_detached: bool,
    has_project: bool,
    system_has_samples: bool,
    mic_has_samples: bool,
    first: int,
) -> Seq<(int, AudioKind)> {
    let on = !is_gif && !audio_detached;
    let sys = on && has_project && system_has_samples;
    let mic = on && has_project && mic_has_samples;
    (if on && source_has_audio {
        seq![(0int, AudioKind::Source)]
    } else {
        Seq::empty()
    }) + (if sys {
        seq![(first, AudioKind::System)]
    } else {
        Seq::empty()
    }) + (if mic {
        seq![(first + count(sys), AudioKind::Mic)]
    } else {
        Seq::empty()
    })
}

pub open spec fn pair_int(p: (usize, AudioKind)) -> (int, AudioKind) {
    (p.0 as int, p.1)
}

/// The audio inputs of an encode with their input indices, and the next free
/// index for the music clips.
pub fn plan_encode_audio_inputs(
    is_gif: bool,
    source_has_audio: bool,
    audio_detached: bool,
    has_project: bool,
    system_has_samples: bool,
    mic_has_samples: bool,
    first: usize,
) -> (r: (Vec<(usize, AudioKind)>, usize))
    requires
        first + 2 <= usize::MAX,
    ensures
        r.0@.map_values(|p: (usize, AudioKind)| pair_int(p)) == encode_audio_spec(
            is_gif,
            source_has_audio,
            audio_detached,
            has_project,
            system_has_samples,
            mic_has_samples,
            first as int,
        ),
        r.1 == first + count(!is_gif && !audio_detached && has_project && system_has_samples)
            + count(!is_gif && !audio_detached && has_project && mic_has_samples),
{
    let on = !is_gif && !audio_detached;
    let mut inputs: Vec<(usize, AudioKind)> = Vec::new();
    if on && source_has_audio {
        inputs.push((0, AudioKind::Source));
    }
    let mut next: usize = first;
    if on && has_project && system_has_samples {
        inputs.push((next, AudioKind::System));
        next = next + 1;
    }
    if on && has_project && mic_has_samples {
        inputs.push((next, AudioKind::Mic));
        next = next + 1;
    }
    assert(inputs@.map_values(|p: (usize, AudioKind)| pair_int(p)) =~= encode_audio_spec(
        is_gif,
        source_has_audio,
        audio_detached,
        has_project,
        system_has_samples,
        mic_has_samples,
        first as int,
    ));
    (inputs, next)
}

/// No two encode inputs share an index, and every optional one comes after
/// the source video and its looped images.
pub proof fn law_encode_inputs_are_distinct(
    extra: int,
    cursor: bool,
    camera: bool,
    mask: bool,
    shadow: bool,
)
    requires
        extra >= 0,
    ensures
        ({
            let l = layout_spec(extra, cursor, camera, mask, shadow);
            let idx = seq![l.0, l.1, l.2, l.3];
            &&& forall|i: int, j: int|
                0 <= i < j < 4 && idx[i] is Some && idx[j] is Some ==> idx[i]->0 < idx[j]->0
            &&& forall|i: int| 0 <= i < 4 && idx[i] is Some ==> 1 + extra <= idx[i]->0 < l.4
        }),
{
}

} // verus!
