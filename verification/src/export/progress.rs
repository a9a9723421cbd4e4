//! Recognising FFmpeg `-progress` metric lines, so a successful export's
//! progress stream does not push the real error out of the retained log.

use vstd::prelude::*;

use crate::text::{chars_of, has_prefix, starts_with, trim_start, trimmed_start};

verus! {

/// The `key=` prefixes FFmpeg's progress report writes.
pub open spec fn progress_keys() -> Seq<Seq<char>> {
    seq![
        "frame="@,
        "fps="@,
        "bitrate="@,
        "total_size="@,
        "out_time_ms="@,
        "out_time="@,
        "dup_frames="@,
        "drop_frames="@,
        "speed="@,
        "progress="@,
    ]
}

/// A progress metric line: after leading white space it starts with
/// `stream_` or with one of [`progress_keys`].
pub open spec fn is_progress_key_line_spec(line: Seq<char>) -> bool {
    let t = trim_start(line);
    has_prefix(t, "stream_"@) || exists|k: int| 0 <= k < progress_keys().len() && has_prefix(
        t,
        #[trigger] progress_keys()[k],
    )
}

fn key_at(k: usize) -> (r: &'static str)
    requires
        k < 10,
    ensures
        r@ == progress_keys()[k as int],
{
    match k {
        0 => "frame=",
        1 => "fps=",
        2 => "bitrate=",
        3 => "total_size=",
        4 => "out_time_ms=",
        5 => "out_time=",
        6 => "dup_frames=",
        7 => "drop_frames=",
        8 => "speed=",
        _ => "progress=",
    }
}

/// True for an FFmpeg `-progress` metric line (`frame=…`, `out_time=…`,
/// `stream_0_0_q=…`, …), leading white space ignored.
pub fn is_ffmpeg_progress_key_line(line: &str) -> (b: bool)
    ensures
        b == is_progress_key_line_spec(line@),
{
    let all = chars_of(line);
    let t = trimmed_start(all.as_slice());
    let stream = chars_of("stream_");
    if starts_with(t.as_slice(), stream.as_slice()) {
        return true;
    }
    let mut k: usize = 0;
    while k < 10
        invariant
            k <= 10,
            t@ == trim_start(line@),
            progress_keys().len() == 10,
            forall|j: int| 0 <= j < k ==> !has_prefix(t@, #[trigger] progress_keys()[j]),
        decreases 10 - k,
    {
        let key = chars_of(key_at(k));
        if starts_with(t.as_slice(), key.as_slice()) {
            return true;
        }
        k = k + 1;
    }
    false
}

} // verus!
