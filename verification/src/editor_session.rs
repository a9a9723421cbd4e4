//! Per-project editor write-lock. The GUI user and a CLI agent both go
//! through the same acquire call so one of them holds the project at a time;
//! the other is told who holds it. A holder idle for longer than
//! [`EditorSession::TTL_MS`] loses the lock to the next acquirer, so a crashed
//! holder never strands a project.

use vstd::prelude::*;

use crate::text::{dec_digits, int_text, push_decimal, push_int, push_str, same_text, string_of};
use crate::types::{idle_session, EditorSession, EditorWriterKind, SessionView};

verus! {

/// The holder has been inactive for longer than the TTL at time `now`.
pub open spec fn is_stale(s: SessionView, now: int) -> bool {
    s.writer is Some && now - s.last_activity_at_ms > EditorSession::TTL_MS
}

/// A live holder refuses an acquire at time `now`.
pub open spec fn blocks(s: SessionView, now: int) -> bool {
    s.writer is Some && !is_stale(s, now)
}

/// The state after `id` (of side `kind`) takes project `path` at time `now`.
pub open spec fn held_by(path: Seq<char>, kind: EditorWriterKind, id: Seq<char>, now: i64) -> SessionView {
    SessionView {
        project_path: Some(path),
        writer: Some(kind),
        writer_id: id,
        acquired_at_ms: now,
        last_activity_at_ms: now,
    }
}

/// The refusal an acquirer receives while `s` is held.
pub open spec fn locked_message(s: SessionView, now: int) -> Seq<char> {
    let path = match s.project_path {
        Some(p) => p,
        None => Seq::empty(),
    };
    "editor_locked: project '"@ + path + "' held by '"@ + s.writer_id + "' (acquired "@ + int_text(
        now - s.acquired_at_ms,
    ) + " ms ago); use `recast project unlock --force` to reclaim or wait "@ + dec_digits(
        (EditorSession::TTL_MS / 1000) as nat,
    ) + "s for TTL."@
}

/// Release by `id`: the new state and whether anything was released.
pub open spec fn released(s: SessionView, id: Seq<char>) -> (SessionView, bool) {
    if s.writer_id == id {
        (idle_session(), true)
    } else {
        (s, false)
    }
}

/// The state after activity at time `now`.
pub open spec fn touched(s: SessionView, now: i64) -> SessionView {
    if s.writer is Some {
        SessionView { last_activity_at_ms: now, ..s }
    } else {
        s
    }
}

/// What the lock file on disk records of a held session.
pub struct PersistedEditorSession {
    pub project_path: String,
    pub writer: EditorWriterKind,
    pub writer_id: String,
    pub acquired_at_ms: i64,
    pub last_activity_at_ms: i64,
    /// Process id of the app that held the lock when it was written.
    pub holder_pid: u32,
}

/// What persisting the session asks of the disk.
pub enum PersistPlan {
    /// Nobody holds the lock: remove any lock file.
    Remove,
    /// Held without a project path: leave the disk alone.
    Keep,
    /// Write this record.
    Write(PersistedEditorSession),
}

/// The mathematical content of a lock-file record.
pub struct RecordView {
    pub project_path: Seq<char>,
    pub writer: EditorWriterKind,
    pub writer_id: Seq<char>,
    pub acquired_at_ms: i64,
    pub last_activity_at_ms: i64,
    pub holder_pid: u32,
}

impl View for PersistedEditorSession {
    type V = RecordView;

    open spec fn view(&self) -> RecordView {
        RecordView {
            project_path: self.project_path@,
            writer: self.writer,
            writer_id: self.writer_id@,
            acquired_at_ms: self.acquired_at_ms,
            last_activity_at_ms: self.last_activity_at_ms,
            holder_pid: self.holder_pid,
        }
    }
}

/// The abstract content of a persist plan.
pub enum PlanView {
    Remove,
    Keep,
    Write(RecordView),
}

pub open spec fn plan_view(p: PersistPlan) -> PlanView {
    match p {
        PersistPlan::Remove => PlanView::Remove,
        PersistPlan::Keep => PlanView::Keep,
        PersistPlan::Write(r) => PlanView::Write(r@),
    }
}

/// What persisting `s` (held by process `pid`) asks of the disk: remove the
/// file when nobody holds the lock, leave it alone when the holder has no
/// project, else write the holder, its project and its times.
pub open spec fn persist_spec(s: SessionView, pid: u32) -> PlanView {
    match s.writer {
        None => PlanView::Remove,
        Some(w) => match s.project_path {
            None => PlanView::Keep,
            Some(p) => PlanView::Write(
                RecordView {
                    project_path: p,
                    writer: w,
                    writer_id: s.writer_id,
                    acquired_at_ms: s.acquired_at_ms,
                    last_activity_at_ms: s.last_activity_at_ms,
                    holder_pid: pid,
                },
            ),
        },
    }
}

/// The session a lock-file record revives.
pub open spec fn restored(r: RecordView) -> SessionView {
    SessionView {
        project_path: Some(r.project_path),
        writer: Some(r.writer),
        writer_id: r.writer_id,
        acquired_at_ms: r.acquired_at_ms,
        last_activity_at_ms: r.last_activity_at_ms,
    }
}

impl EditorSession {
    /// Take the write-lock for `writer_id` at time `now` (Unix ms). Refused,
    /// with the holder named, while another holder is live; a holder idle for
    /// more than [`EditorSession::TTL_MS`] is reclaimed.
    pub fn try_acquire_write(
        &mut self,
        project_path: String,
        kind: EditorWriterKind,
        writer_id: String,
        now: i64,
    ) -> (r: Result<(), String>)
        ensures
            blocks(old(self)@, now as int) ==> {
                &&& r matches Err(e)
                &&& e@ == locked_message(old(self)@, now as int)
                &&& final(self)@ == old(self)@
            },
            !blocks(old(self)@, now as int) ==> {
                &&& r is Ok
                &&& final(self)@ == held_by(project_path@, kind, writer_id@, now)
            },
    {
        let stale = self.writer.is_some() && (now as i128 - self.last_activity_at_ms as i128)
            > EditorSession::TTL_MS as i128;
        if self.writer.is_some() && !stale {
            let mut m: Vec<char> = Vec::new();
            push_str(&mut m, "editor_locked: project '");
            match &self.project_path {
                Some(p) => push_str(&mut m, p.as_str()),
                None => {},
            }
            push_str(&mut m, "' held by '");
            push_str(&mut m, self.writer_id.as_str());
            push_str(&mut m, "' (acquired ");
            push_int(&mut m, now as i128 - self.acquired_at_ms as i128);
            push_str(&mut m, " ms ago); use `recast project unlock --force` to reclaim or wait ");
            push_decimal(&mut m, (EditorSession::TTL_MS / 1000) as u64);
            push_str(&mut m, "s for TTL.");
            return Err(string_of(m.as_slice()));
        }
        self.project_path = Some(project_path);
        self.writer = Some(kind);
        self.writer_id = writer_id;
        self.acquired_at_ms = now;
        self.last_activity_at_ms = now;
        Ok(())
    }

    /// Release the lock if `writer_id` names its holder; `true` when released.
    pub fn release_if_owner(&mut self, writer_id: &str) -> (r: bool)
        ensures
            (final(self)@, r) == released(old(self)@, writer_id@),
    {
        if same_text(self.writer_id.as_str(), writer_id) {
            self.clear();
            return true;
        }
        false
    }

    /// Release the lock whoever holds it; returns the side that held it.
    pub fn force_release(&mut self) -> (r: Option<EditorWriterKind>)
        ensures
            r == old(self)@.writer,
            final(self)@ == idle_session(),
    {
        let prior = self.writer;
        self.clear();
        prior
    }

    /// Stamp activity at time `now` under a held lock; no effect when idle.
    pub fn record_activity(&mut self, now: i64)
        ensures
            final(self)@ == touched(old(self)@, now),
    {
        if self.writer.is_some() {
            self.last_activity_at_ms = now;
        }
    }

    fn clear(&mut self)
        ensures
            final(self)@ == idle_session(),
    {
        self.writer = None;
        self.project_path = None;
        self.writer_id = String::new();
        self.last_activity_at_ms = 0;
        self.acquired_at_ms = 0;
    }

    /// What to write to disk for this session, held by process `pid`.
    pub fn persist_plan(&self, pid: u32) -> (p: PersistPlan)
        ensures
            plan_view(p) == persist_spec(self@, pid),
    {
        match self.writer {
            None => PersistPlan::Remove,
            Some(writer) => match &self.project_path {
                None => PersistPlan::Keep,
                Some(path) => PersistPlan::Write(
                    PersistedEditorSession {
                        project_path: path.clone(),
                        writer,
                        writer_id: self.writer_id.clone(),
                        acquired_at_ms: self.acquired_at_ms,
                        last_activity_at_ms: self.last_activity_at_ms,
                        holder_pid: pid,
                    },
                ),
            },
        }
    }

    /// Revive a lock read back from disk at startup. A record whose holder
    /// process is gone is stale: the session is left alone and `false`
    /// returned, so the caller removes the file.
    pub fn restore(&mut self, rec: PersistedEditorSession, holder_alive: bool) -> (r: bool)
        ensures
            r == holder_alive,
            !holder_alive ==> final(self)@ == old(self)@,
            holder_alive ==> final(self)@ == restored(rec@),
    {
        if !holder_alive {
            return false;
        }
        self.project_path = Some(rec.project_path);
        self.writer = Some(rec.writer);
        self.writer_id = rec.writer_id;
        self.acquired_at_ms = rec.acquired_at_ms;
        self.last_activity_at_ms = rec.last_activity_at_ms;
        true
    }
}

/// Whoever takes an unheld lock can hand it straight back: an acquire followed
/// by a release under the same id leaves the lock idle and reports a release.
pub proof fn law_acquire_then_release_round_trips(
    s: SessionView,
    path: Seq<char>,
    kind: EditorWriterKind,
    id: Seq<char>,
    now: i64,
)
    requires
        !blocks(s, now as int),
    ensures
        released(held_by(path, kind, id, now), id) == (idle_session(), true),
{
}

/// A holder that has just acquired, or just recorded activity, shuts out every
/// other acquirer at that instant.
pub proof fn law_fresh_holder_blocks(
    path: Seq<char>,
    kind: EditorWriterKind,
    id: Seq<char>,
    now: i64,
    s: SessionView,
)
    requires
        s.writer is Some,
    ensures
        blocks(held_by(path, kind, id, now), now as int),
        blocks(touched(s, now), now as int),
{
}

/// A holder idle for longer than the TTL never blocks: the next acquire wins.
pub proof fn law_stale_holder_is_reclaimable(s: SessionView, now: int)
    requires
        s.writer is Some,
        now - s.last_activity_at_ms > EditorSession::TTL_MS,
    ensures
        !blocks(s, now),
{
}

/// Releasing under an id that does not hold the lock changes nothing.
pub proof fn law_foreign_release_is_no_op(s: SessionView, id: Seq<char>)
    requires
        s.writer_id != id,
    ensures
        released(s, id) == (s, false),
{
}

/// An idle lock never blocks.
pub proof fn law_idle_never_blocks(now: int)
    ensures
        !blocks(idle_session(), now),
{
}

/// The lock file round-trips a held session: what persisting writes, a
/// restart revives unchanged while its holder still runs.
pub proof fn law_persisted_session_restores(s: SessionView, pid: u32)
    requires
        s.writer is Some,
        s.project_path is Some,
    ensures
        persist_spec(s, pid) matches PlanView::Write(r) && restored(r) == s,
{
}

} // verus!
