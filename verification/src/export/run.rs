//! Reading how an FFmpeg encode ended: crash exit codes and the exit code
//! carried in an encode error message.

use vstd::prelude::*;

use crate::ffmpeg::{joined, last_n, split_lines};
use crate::text::{
    chars_of, dec_digits, digit_char, find, find_spec, has_substring, int_text, occurs_at, push_int, push_str, slice_to_vec, string_of,
    trim, trimmed,
};

verus! {

/// True for an abnormal-termination exit code (a crash or signal) rather
/// than a normal FFmpeg error exit (`0..=255`).
pub fn is_ffmpeg_crash_code(code: i32) -> (b: bool)
    ensures
        b == !(0 <= code <= 255),
{
    !(0 <= code && code <= 255)
}

/// An ASCII decimal digit.
pub open spec fn is_digit(c: char) -> bool {
    '0' <= c && c <= '9'
}

/// Length of the run of digits and `-` that `s` starts with.
pub open spec fn code_token_len(s: Seq<char>) -> nat
    decreases s.len(),
{
    if s.len() > 0 && (is_digit(s[0]) || s[0] == '-') {
        1 + code_token_len(s.drop_first())
    } else {
        0
    }
}

/// Value of a run of decimal digits.
pub open spec fn digits_value(s: Seq<char>) -> nat
    decreases s.len(),
{
    if s.len() == 0 {
        0
    } else {
        digits_value(s.drop_last()) * 10 + ((s.last() as int) - 48) as nat
    }
}

/// Every character of `s` is a decimal digit.
pub open spec fn all_digits(s: Seq<char>) -> bool {
    forall|i: int| 0 <= i < s.len() ==> is_digit(#[trigger] s[i])
}

/// `i32::from_str`: an optional sign, then one or more digits, in range.
pub open spec fn parse_i32_spec(s: Seq<char>) -> Option<i32> {
    let neg = s.len() > 0 && s[0] == '-';
    let signed = s.len() > 0 && (s[0] == '-' || s[0] == '+');
    let body = if signed {
        s.drop_first()
    } else {
        s
    };
    if body.len() == 0 || !all_digits(body) {
        None
    } else if neg {
        if digits_value(body) <= 0x8000_0000 {
            Some((-(digits_value(body) as int)) as i32)
        } else {
            None
        }
    } else if digits_value(body) <= 0x7fff_ffff {
        Some(digits_value(body) as i32)
    } else {
        None
    }
}

/// The exit code named after the first `ffmpeg exit ` in `err`.
pub open spec fn exit_code_spec(err: Seq<char>) -> Option<i32> {
    match find_spec(err, "ffmpeg exit "@) {
        None => None,
        Some(i) => {
            let rest = err.skip(i + "ffmpeg exit "@.len());
            parse_i32_spec(rest.take(code_token_len(rest) as int))
        },
    }
}

proof fn lemma_digits_value_grows(s: Seq<char>, i: int)
    requires
        0 <= i <= s.len(),
    ensures
        digits_value(s.take(i)) <= digits_value(s),
    decreases s.len() - i,
{
    if i < s.len() {
        lemma_digits_value_grows(s, i + 1);
        assert(s.take(i + 1).drop_last() =~= s.take(i));
    } else {
        assert(s.take(i) =~= s);
    }
}

/// `i32::from_str` on a sequence of characters.
pub fn parse_i32(s: &[char]) -> (r: Option<i32>)
    ensures
        r == parse_i32_spec(s@),
{
    let mut i: usize = 0;
    let mut neg = false;
    if s.len() > 0 && (s[0] == '-' || s[0] == '+') {
        neg = s[0] == '-';
        i = 1;
    }
    let ghost body = if i == 1 {
        s@.drop_first()
    } else {
        s@
    };
    assert(body =~= s@.skip(i as int));
    if i >= s.len() {
        return None;
    }
    let mut acc: u64 = 0;
    while i < s.len()
        invariant
            body =~= s@.skip(if s.len() > 0 && (s@[0] == '-' || s@[0] == '+') { 1int } else { 0int }),
            body == (if s@[0] == '-' || s@[0] == '+' { s@.drop_first() } else { s@ }),
            1 <= s.len(),
            (s@[0] == '-' || s@[0] == '+') ==> 1 <= i,
            !(s@[0] == '-' || s@[0] == '+') ==> 0 <= i,
            i <= s.len(),
            neg == (s@[0] == '-'),
            ({
                let off = if s@[0] == '-' || s@[0] == '+' { 1int } else { 0int };
                &&& off <= i
                &&& all_digits(body.take(i - off))
                &&& acc == digits_value(body.take(i - off))
            }),
            acc <= 0x8000_0000,
        decreases s.len() - i,
    {
        let c = s[i];
        let ghost off: int = if s@[0] == '-' || s@[0] == '+' { 1 } else { 0 };
        if !('0' <= c && c <= '9') {
            assert(!is_digit(body[i - off]));
            return None;
        }
        let d: u64 = (c as u32 - 48) as u64;
        let ghost prev = body.take(i - off);
        acc = acc * 10 + d;
        assert(body.take(i + 1 - off).drop_last() =~= prev);
        assert(body.take(i + 1 - off).last() == c);
        assert(acc == digits_value(body.take(i + 1 - off)));
        i = i + 1;
        assert(all_digits(body.take(i - off)));
        if acc > 0x8000_0000 {
            proof {
                lemma_digits_value_grows(body, i - off);
                assert(digits_value(body) > 0x8000_0000);
                assert(body.len() > 0);
                assert(parse_i32_spec(s@) is None);
            }
            return None;
        }
    }
    proof {
        let off: int = if s@[0] == '-' || s@[0] == '+' { 1 } else { 0 };
        assert(body.take(i - off) =~= body);
    }
    if neg {
        Some((-(acc as i64)) as i32)
    } else if acc <= 0x7fff_ffff {
        Some(acc as i32)
    } else {
        None
    }
}

/// Length of the digits-and-`-` run at `s[from..]`.
fn code_token_end(s: &[char], from: usize) -> (n: usize)
    requires
        from <= s.len(),
    ensures
        n == code_token_len(s@.skip(from as int)),
        from + n <= s.len(),
{
    let mut i: usize = from;
    while i < s.len() && (('0' <= s[i] && s[i] <= '9') || s[i] == '-')
        invariant
            from <= i <= s.len(),
            code_token_len(s@.skip(from as int)) == (i - from) + code_token_len(s@.skip(i as int)),
        decreases s.len() - i,
    {
        assert(s@.skip(i as int).drop_first() =~= s@.skip(i + 1));
        i = i + 1;
    }
    i - from
}

/// The FFmpeg exit code carried in an encode error message
/// (`export failed (ffmpeg exit <code>): …`); `None` when it carries none.
pub fn parse_ffmpeg_exit_code(err: &str) -> (r: Option<i32>)
    ensures
        r == exit_code_spec(err@),
{
    let s = chars_of(err);
    let pat = chars_of("ffmpeg exit ");
    match find(s.as_slice(), pat.as_slice()) {
        None => None,
        Some(i) => {
            let plen = pat.len();
            let slen = s.len();
            assert(occurs_at(s@, pat@, i as int));
            assert(i + plen <= slen);
            let start = i + plen;
            let n = code_token_end(s.as_slice(), start);
            let tok = slice_to_vec(s.as_slice(), start, start + n);
            assert(tok@ =~= s@.skip(start as int).take(n as int));
            parse_i32(tok.as_slice())
        },
    }
}

/// How many bytes of FFmpeg's log output are retained.
pub const STDERR_RING_BYTES: usize = 8192;

/// At most the last `n` items of `s`.
pub open spec fn keep_last(s: Seq<u8>, n: nat) -> Seq<u8> {
    if s.len() > n {
        s.subrange(s.len() - n, s.len() as int)
    } else {
        s
    }
}

/// Append one log line and its line feed to the retained log, dropping the
/// oldest bytes beyond [`STDERR_RING_BYTES`].
pub fn push_stderr_line(buf: &mut Vec<u8>, line: &[u8])
    requires
        old(buf)@.len() <= STDERR_RING_BYTES,
    ensures
        final(buf)@ == keep_last(old(buf)@ + line@ + seq![10u8], STDERR_RING_BYTES as nat),
        final(buf)@.len() <= STDERR_RING_BYTES,
{
    let ghost all = old(buf)@ + line@ + seq![10u8];
    let keep: usize = STDERR_RING_BYTES;
    let n: usize = buf.len();
    let m: usize = line.len();
    if m >= keep {
        // The line alone fills the ring: keep its newest bytes and the feed.
        let mut out: Vec<u8> = Vec::new();
        let from: usize = m - (keep - 1);
        let mut k: usize = from;
        while k < m
            invariant
                from <= k <= m,
                m == line@.len(),
                out@ == line@.subrange(from as int, k as int),
            decreases m - k,
        {
            out.push(line[k]);
            k = k + 1;
            assert(out@ =~= line@.subrange(from as int, k as int));
        }
        out.push(10u8);
        assert(out@ =~= all.subrange(all.len() - keep, all.len() as int));
        *buf = out;
        return;
    }
    let total: usize = n + m + 1;
    if total <= keep {
        let mut i: usize = 0;
        let ghost start = buf@;
        while i < m
            invariant
                i <= m,
                m == line@.len(),
                buf@ == start + line@.subrange(0, i as int),
            decreases m - i,
        {
            buf.push(line[i]);
            i = i + 1;
            assert(buf@ =~= start + line@.subrange(0, i as int));
        }
        buf.push(10u8);
        assert(buf@ =~= all);
        return;
    }
    // Keep only the newest bytes of buffer, line and line feed.
    let mut out: Vec<u8> = Vec::new();
    let from: usize = total - keep;
    let mut k: usize = from;
    while k < total
        invariant
            from <= k <= total,
            total == n + m + 1,
            n == old(buf)@.len(),
            n == buf@.len(),
            buf@ == old(buf)@,
            m == line@.len(),
            all == old(buf)@ + line@ + seq![10u8],
            all.len() == total,
            out@ == all.subrange(from as int, k as int),
        decreases total - k,
    {
        let b: u8 = if k < n {
            buf[k]
        } else if k < n + m {
            line[k - n]
        } else {
            10u8
        };
        assert(b == all[k as int]);
        out.push(b);
        k = k + 1;
        assert(out@ =~= all.subrange(from as int, k as int));
    }
    *buf = out;
}

/// A line that ends FFmpeg's progress report.
pub open spec fn is_progress_end_spec(line: Seq<char>) -> bool {
    trim(line) == "progress=end"@
}

/// Whether a log line is `progress=end`, white space aside.
pub fn is_progress_end(line: &str) -> (b: bool)
    ensures
        b == is_progress_end_spec(line@),
{
    let c = chars_of(line);
    let t = trimmed(c.as_slice());
    let p = chars_of("progress=end");
    crate::text::same_chars(t.as_slice(), p.as_slice())
}

/// How long the watchdog lets FFmpeg go without a sign of life, in ms: a
/// minute while finalizing, twenty seconds near the end of the encode, two
/// minutes before the first progress report, a minute otherwise.
pub open spec fn idle_budget_spec(in_finalizing: bool, near_end: bool, first_seen: bool) -> u64 {
    if in_finalizing {
        60_000
    } else if near_end {
        20_000
    } else if !first_seen {
        120_000
    } else {
        60_000
    }
}

/// The watchdog's idle allowance for the encode's current stage.
pub fn idle_budget_ms(in_finalizing: bool, near_end: bool, first_seen: bool) -> (ms: u64)
    ensures
        ms == idle_budget_spec(in_finalizing, near_end, first_seen),
{
    if in_finalizing {
        60_000
    } else if near_end {
        20_000
    } else if !first_seen {
        120_000
    } else {
        60_000
    }
}

/// Whether the watchdog kills FFmpeg after `idle_ms` without a sign of life.
pub fn watchdog_should_kill(idle_ms: u64, in_finalizing: bool, near_end: bool, first_seen: bool) -> (b:
    bool)
    ensures
        b == (idle_ms > idle_budget_spec(in_finalizing, near_end, first_seen)),
{
    idle_ms > idle_budget_ms(in_finalizing, near_end, first_seen)
}

/// A piece of text split at line feeds, without the carriage return that
/// ends a CRLF line (`str::lines`).
pub open spec fn strip_cr(l: Seq<char>) -> Seq<char> {
    if l.len() > 0 && l.last() == '\r' {
        l.drop_last()
    } else {
        l
    }
}

/// The lines of the pieces that are not blank, untrimmed, in order.
pub open spec fn nonblank_lines(pieces: Seq<Seq<char>>) -> Seq<Seq<char>>
    decreases pieces.len(),
{
    if pieces.len() == 0 {
        Seq::empty()
    } else {
        let rest = nonblank_lines(pieces.drop_last());
        let l = strip_cr(pieces.last());
        if trim(l).len() > 0 {
            rest.push(l)
        } else {
            rest
        }
    }
}

/// The last two non-blank lines of the retained log, joined by ` | `.
pub open spec fn stderr_tail_spec(text: Seq<char>) -> Seq<char> {
    joined(last_n(nonblank_lines(split_lines(text)), 2), " | "@)
}

/// The last two non-blank lines of the retained log, joined by ` | `.
pub fn stderr_tail(text: &str) -> (r: String)
    ensures
        r@ == stderr_tail_spec(text@),
{
    let chars = chars_of(text);
    let ghost s = chars@;
    let mut kept: Vec<Vec<char>> = Vec::new();
    let mut cur: Vec<char> = Vec::new();
    let mut i: usize = 0;
    while i < chars.len()
        invariant
            i <= chars.len(),
            s == chars@,
            split_lines(s.subrange(0, i as int)).len() >= 1,
            cur@ == split_lines(s.subrange(0, i as int)).last(),
            kept@.map_values(|l: Vec<char>| l@) == nonblank_lines(
                split_lines(s.subrange(0, i as int)).drop_last(),
            ),
        decreases chars.len() - i,
    {
        let ghost pre = s.subrange(0, i as int);
        let ghost pieces = split_lines(pre);
        let c = chars[i];
        assert(s.subrange(0, i + 1).drop_last() =~= pre);
        assert(s.subrange(0, i + 1).last() == c);
        if c == '\n' {
            let mut line = cur;
            if line.len() > 0 && line[line.len() - 1] == '\r' {
                line.pop();
            }
            assert(line@ == strip_cr(pieces.last()));
            let t = trimmed(line.as_slice());
            let ghost before = kept@;
            if t.len() > 0 {
                kept.push(line);
                assert(kept@.map_values(|l: Vec<char>| l@) =~= before.map_values(
                    |l: Vec<char>| l@,
                ).push(strip_cr(pieces.last())));
            }
            assert(pieces.drop_last().push(pieces.last()) =~= pieces);
            assert(split_lines(s.subrange(0, i + 1)) == pieces.push(Seq::empty()));
            assert(pieces.push(Seq::<char>::empty()).drop_last() =~= pieces);
            cur = Vec::new();
        } else {
            cur.push(c);
            assert(split_lines(s.subrange(0, i + 1)) == pieces.update(
                pieces.len() - 1,
                pieces.last().push(c),
            ));
            assert(pieces.update(pieces.len() - 1, pieces.last().push(c)).drop_last()
                =~= pieces.drop_last());
        }
        proof {
            crate::ffmpeg::lemma_split_lines_nonempty(s.subrange(0, i + 1));
        }
        i = i + 1;
    }
    assert(s.subrange(0, chars@.len() as int) =~= s);
    let ghost pieces = split_lines(s);
    assert(pieces.drop_last().push(pieces.last()) =~= pieces);
    let mut line = cur;
    if line.len() > 0 && line[line.len() - 1] == '\r' {
        line.pop();
    }
    assert(line@ == strip_cr(pieces.last()));
    let t = trimmed(line.as_slice());
    if t.len() > 0 {
        let ghost before = kept@;
        kept.push(line);
        assert(kept@.map_values(|l: Vec<char>| l@) =~= before.map_values(|l: Vec<char>| l@).push(
            strip_cr(pieces.last()),
        ));
    }
    let ghost all = kept@.map_values(|l: Vec<char>| l@);
    let start: usize = if kept.len() > 2 {
        kept.len() - 2
    } else {
        0
    };
    let ghost tail = last_n(all, 2);
    assert(tail =~= all.subrange(start as int, all.len() as int));
    let mut out: Vec<char> = Vec::new();
    let mut j: usize = start;
    while j < kept.len()
        invariant
            start <= j <= kept.len(),
            all == kept@.map_values(|l: Vec<char>| l@),
            tail == all.subrange(start as int, all.len() as int),
            out@ == joined(tail.subrange(0, j - start), " | "@),
        decreases kept.len() - j,
    {
        assert(tail.subrange(0, j + 1 - start).drop_last() =~= tail.subrange(0, j - start));
        assert(tail.subrange(0, j + 1 - start).last() == kept@[j as int]@);
        let ghost before = out@;
        if j > start {
            push_str(&mut out, " | ");
        }
        let ghost mid = out@;
        let line = &kept[j];
        let mut k: usize = 0;
        while k < line.len()
            invariant
                k <= line.len(),
                out@ == mid + line@.subrange(0, k as int),
            decreases line.len() - k,
        {
            out.push(line[k]);
            k = k + 1;
            assert(out@ =~= mid + line@.subrange(0, k as int));
        }
        assert(line@.subrange(0, line@.len() as int) =~= line@);
        j = j + 1;
        assert(out@ =~= joined(tail.subrange(0, j - start), " | "@));
    }
    assert(tail.subrange(0, kept.len() - start) =~= tail);
    string_of(out.as_slice())
}

/// How an encode ended, as the runner observed it.
#[derive(Debug, Clone)]
pub struct EncodeEnd {
    /// The user cancelled and the runner killed FFmpeg.
    pub killed_by_user: bool,
    /// The watchdog killed a stalled FFmpeg.
    pub killed_by_timeout: bool,
    /// FFmpeg did not exit after closing its pipes and was killed.
    pub forced_exit: bool,
    /// FFmpeg reported `progress=end`: the encode itself finished.
    pub progress_end_seen: bool,
    /// The encode was within a quarter second of its end.
    pub near_end_seen: bool,
    /// The output probed as a complete video when the pipes closed (only
    /// probed when no kill happened and `progress=end` was seen).
    pub usable_at_close: bool,
    /// The output probed as a complete video after a kill (only probed
    /// when `progress=end` was seen).
    pub usable_after_kill: bool,
    /// FFmpeg exited with status zero.
    pub exit_success: bool,
    /// FFmpeg's exit code; `None` when a signal ended it.
    pub exit_code: Option<i32>,
    /// The last lines of the retained log ([`stderr_tail`]).
    pub stderr_tail: String,
    /// The summary of FFmpeg's diagnostics for a failed exit.
    pub failure_summary: String,
}

/// What the runner reports for an encode.
#[derive(Debug, Clone)]
pub enum EncodeVerdict {
    /// The output is good.
    Success,
    /// The user cancelled: the partial output is removed.
    Cancelled,
    /// The encode failed with this message: the output is removed.
    Failed(String),
}

/// The failure message of a watchdog kill.
pub open spec fn timeout_message(progress_end: bool, near_end: bool, tail: Seq<char>) -> Seq<char> {
    let base = if progress_end {
        "export failed: ffmpeg reached finalizing but the output file stopped growing for 60s"@
    } else if near_end {
        "export failed: ffmpeg stopped making progress near the end of the encode"@
    } else {
        "export timed out: ffmpeg produced no progress for 60s"@
    };
    if tail.len() == 0 {
        base
    } else {
        base + " — last stderr: "@ + tail
    }
}

/// The failure message of a non-zero exit.
pub open spec fn exit_message(code: Option<i32>, summary: Seq<char>) -> Seq<char> {
    "export failed (ffmpeg exit "@ + (match code {
        Some(c) => int_text(c as int),
        None => "terminated by signal"@,
    }) + "):\n"@ + summary
}

/// The verdict on an encode, in the order the runner decides it: an early
/// success when the finished output probed complete, then a forced exit, a
/// user cancel, a watchdog kill, a failed exit, and otherwise success.
pub open spec fn verdict_spec(e: EncodeEnd) -> Result<bool, Seq<char>> {
    if !e.killed_by_user && !e.killed_by_timeout && e.progress_end_seen && e.usable_at_close {
        Ok(true)
    } else if e.forced_exit {
        if e.progress_end_seen && e.usable_after_kill {
            Ok(true)
        } else {
            Err("export failed: ffmpeg did not exit within 30s of finishing the encode"@)
        }
    } else if e.killed_by_user {
        Ok(false)
    } else if e.killed_by_timeout {
        if e.progress_end_seen && e.usable_after_kill {
            Ok(true)
        } else {
            Err(timeout_message(e.progress_end_seen, e.near_end_seen, e.stderr_tail@))
        }
    } else if !e.exit_success {
        Err(exit_message(e.exit_code, e.failure_summary@))
    } else {
        Ok(true)
    }
}

/// An encode that finished (`progress=end`) and whose output probes
/// complete after a kill, forced on the reap or by the watchdog, is a
/// success unless the user cancelled; so a failure on a forced exit means
/// the file was not confirmed complete.
pub proof fn law_finished_usable_output_is_kept(e: EncodeEnd)
    ensures
        e.progress_end_seen && e.usable_after_kill && !e.killed_by_user && (e.forced_exit
            || e.killed_by_timeout) ==> verdict_spec(e) == Ok::<bool, Seq<char>>(true),
        e.forced_exit && verdict_spec(e) is Err ==> !(e.progress_end_seen && e.usable_after_kill),
        e.progress_end_seen && e.usable_at_close && !e.killed_by_user && !e.killed_by_timeout
            ==> verdict_spec(e) == Ok::<bool, Seq<char>>(true),
{
}

/// A user cancel that was not followed by a forced reap is reported as a
/// cancellation, never as a success or a failure; a stalled encode the
/// watchdog killed before `progress=end` is a failure.
pub proof fn law_cancel_and_stall_verdicts(e: EncodeEnd)
    ensures
        e.killed_by_user && !e.forced_exit ==> verdict_spec(e) == Ok::<bool, Seq<char>>(false),
        e.killed_by_timeout && !e.killed_by_user && !e.forced_exit && !e.progress_end_seen
            ==> verdict_spec(e) is Err,
        !e.killed_by_user && !e.killed_by_timeout && !e.forced_exit && !e.exit_success
            && !(e.progress_end_seen && e.usable_at_close) ==> verdict_spec(e) is Err,
{
}

/// Abstract reading of an encode outcome: finished, stopped on request,
/// or failed with a message.
pub open spec fn verdict_view(v: EncodeVerdict) -> Result<bool, Seq<char>> {
    match v {
        EncodeVerdict::Success => Ok(true),
        EncodeVerdict::Cancelled => Ok(false),
        EncodeVerdict::Failed(m) => Err(m@),
    }
}

fn owned(s: &str) -> (r: String)
    ensures
        r@ == s@,
{
    let mut out: Vec<char> = Vec::new();
    push_str(&mut out, s);
    string_of(out.as_slice())
}

/// Decide how an encode ended.
pub fn encode_verdict(e: &EncodeEnd) -> (v: EncodeVerdict)
    ensures
        verdict_view(v) == verdict_spec(*e),
{
    if !e.killed_by_user && !e.killed_by_timeout && e.progress_end_seen && e.usable_at_close {
        return EncodeVerdict::Success;
    }
    if e.forced_exit {
        if e.progress_end_seen && e.usable_after_kill {
            return EncodeVerdict::Success;
        }
        return EncodeVerdict::Failed(
            owned("export failed: ffmpeg did not exit within 30s of finishing the encode"),
        );
    }
    if e.killed_by_user {
        return EncodeVerdict::Cancelled;
    }
    if e.killed_by_timeout {
        if e.progress_end_seen && e.usable_after_kill {
            return EncodeVerdict::Success;
        }
        let mut out: Vec<char> = Vec::new();
        if e.progress_end_seen {
            push_str(
                &mut out,
                "export failed: ffmpeg reached finalizing but the output file stopped growing for 60s",
            );
        } else if e.near_end_seen {
            push_str(&mut out, "export failed: ffmpeg stopped making progress near the end of the encode");
        } else {
            push_str(&mut out, "export timed out: ffmpeg produced no progress for 60s");
        }
        if !e.stderr_tail.as_str().is_empty() {
            push_str(&mut out, " — last stderr: ");
            push_str(&mut out, e.stderr_tail.as_str());
        }
        return EncodeVerdict::Failed(string_of(out.as_slice()));
    }
    if !e.exit_success {
        let mut out: Vec<char> = Vec::new();
        push_str(&mut out, "export failed (ffmpeg exit ");
        match e.exit_code {
            Some(c) => push_int(&mut out, c as i128),
            None => push_str(&mut out, "terminated by signal"),
        }
        push_str(&mut out, "):\n");
        push_str(&mut out, e.failure_summary.as_str());
        return EncodeVerdict::Failed(string_of(out.as_slice()));
    }
    EncodeVerdict::Success
}

proof fn lemma_dec_digits_shape(n: nat)
    ensures
        dec_digits(n).len() >= 1,
        all_digits(dec_digits(n)),
        digits_value(dec_digits(n)) == n,
    decreases n,
{
    if n >= 10 {
        lemma_dec_digits_shape(n / 10);
        let s = dec_digits(n / 10);
        let c = digit_char((n % 10) as int);
        assert(dec_digits(n) == s.push(c));
        assert(s.push(c).drop_last() =~= s);
        assert((c as int) - 48 == n % 10);
        assert(s.push(c).last() == c);
        assert(digits_value(s.push(c)) == digits_value(s) * 10 + ((c as int) - 48) as nat);
        assert(n == (n / 10) * 10 + n % 10) by (nonlinear_arith);
        assert forall|i: int| 0 <= i < s.push(c).len() implies is_digit(#[trigger] s.push(c)[i]) by {
            if i < s.len() {
                assert(s.push(c)[i] == s[i]);
            }
        }
    } else {
        let d = seq![digit_char(n as int)];
        assert((digit_char(n as int) as int) - 48 == n);
        assert(d.drop_last() =~= Seq::<char>::empty());
        assert(d.last() == digit_char(n as int));
        assert(digits_value(d) == digits_value(d.drop_last()) * 10 + ((d.last() as int) - 48) as nat);
    }
}

proof fn lemma_token_len_stops(a: Seq<char>, b: Seq<char>)
    requires
        forall|i: int| 0 <= i < a.len() ==> is_digit(#[trigger] a[i]) || a[i] == '-',
        b.len() > 0,
        !is_digit(b[0]),
        b[0] != '-',
    ensures
        code_token_len(a + b) == a.len(),
    decreases a.len(),
{
    if a.len() == 0 {
        assert(a + b =~= b);
    } else {
        assert((a + b).drop_first() =~= a.drop_first() + b);
        lemma_token_len_stops(a.drop_first(), b);
    }
}

/// The message of a failed exit names its exit code where
/// [`parse_ffmpeg_exit_code`] reads it back: the crash-retry decision sees the
/// code the runner reported.
pub proof fn law_exit_message_parses_back(c: i32, summary: Seq<char>)
    ensures
        exit_code_spec(exit_message(Some(c), summary)) == Some(c),
{
    reveal(find_spec);
    reveal_strlit("export failed (ffmpeg exit ");
    reveal_strlit("ffmpeg exit ");
    reveal_strlit("):\n");
    let head = "export failed (ffmpeg exit "@;
    let num = int_text(c as int);
    let m = exit_message(Some(c), summary);
    let pat = "ffmpeg exit "@;
    assert(m == head + num + "):\n"@ + summary);
    let mag: nat = if c < 0 {
        (-(c as int)) as nat
    } else {
        c as nat
    };
    lemma_dec_digits_shape(mag);
    assert(num.len() >= 1);
    // The marker occurs at 15 and nowhere before.
    assert(m.subrange(15, 27) =~= pat);
    assert(occurs_at(m, pat, 15));
    assert forall|j: int| 0 <= j < 15 implies !occurs_at(m, pat, j) by {
        if occurs_at(m, pat, j) {
            assert(m.subrange(j, j + 12)[0] == pat[0]);
            assert(m[j] == 'f');
            assert(j == 7);
            assert(m.subrange(j, j + 12)[1] == pat[1]);
            assert(m[8] == 'f');
        }
    }
    assert(has_substring(m, pat));
    let w = choose|i: int| occurs_at(m, pat, i) && forall|j: int| 0 <= j < i ==> !occurs_at(m, pat, j);
    if w < 15 {
        assert(!occurs_at(m, pat, w));
    } else if w > 15 {
        assert(!occurs_at(m, pat, 15));
    }
    assert(find_spec(m, pat) == Some(15int));
    let rest = m.skip(27);
    assert(rest =~= num + ("):\n"@ + summary));
    assert forall|i: int| 0 <= i < num.len() implies is_digit(#[trigger] num[i]) || num[i] == '-' by {
        if c < 0 {
            if i > 0 {
                assert(num[i] == dec_digits(mag)[i - 1]);
            }
        } else {
            assert(num == dec_digits(mag));
        }
    }
    lemma_token_len_stops(num, "):\n"@ + summary);
    assert(rest.take(num.len() as int) =~= num);
    if c < 0 {
        assert(num == seq!['-'] + dec_digits(mag));
        assert(num.drop_first() =~= dec_digits(mag));
    } else {
        assert(num == dec_digits(mag));
    }
}

} // verus!
