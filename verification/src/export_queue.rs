//! The export queue's lifecycle rules: the single source of truth for every
//! export, drained by one serial worker. The table of jobs is held here as a
//! list of rows; each operation is the state change one store statement
//! makes, so the persisted table and this model move in step.

use vstd::prelude::*;

use crate::paths::{after_last_slash, file_name_of, names_plain_file, path_piece};
use crate::text::{ascii_lower, has_substring, is_ascii_text, push_str, same_text, string_of};
use crate::types::opt_view;

verus! {

/// Terminal jobs older than this are swept at startup (a week, in ms).
pub const TERMINAL_JOB_TTL_MS: i64 = 604_800_000;

/// Where a job is in its life.
#[derive(Debug, Clone, Copy, PartialEq, Eq, Structural)]
pub enum JobStatus {
    Queued,
    Running,
    Success,
    Error,
    Cancelled,
    Interrupted,
}

/// What a queued or running job is doing.
#[derive(Debug, Clone, Copy, PartialEq, Eq, Structural)]
pub enum JobPhase {
    Preparing,
    Encoding,
    Finalizing,
    Cancelling,
}

/// One row of the queue.
#[derive(Debug, Clone)]
pub struct ExportJob {
    pub id: String,
    /// The source project's file name.
    pub filename: String,
    /// The source project.
    pub source_path: String,
    pub status: JobStatus,
    pub phase: JobPhase,
    /// Percent done.
    pub progress: u32,
    /// Where the heavy request payload is kept.
    pub payload_path: String,
    /// The output, on success.
    pub output_path: Option<String>,
    pub error: Option<String>,
    pub created_at: i64,
    pub started_at: Option<i64>,
    pub finished_at: Option<i64>,
}

/// The mathematical content of an [`ExportJob`].
pub struct JobView {
    pub id: Seq<char>,
    pub filename: Seq<char>,
    pub source_path: Seq<char>,
    pub status: JobStatus,
    pub phase: JobPhase,
    pub progress: u32,
    pub payload_path: Seq<char>,
    pub output_path: Option<Seq<char>>,
    pub error: Option<Seq<char>>,
    pub created_at: i64,
    pub started_at: Option<i64>,
    pub finished_at: Option<i64>,
}

impl View for ExportJob {
    type V = JobView;

    open spec fn view(&self) -> JobView {
        JobView {
            id: self.id@,
            filename: self.filename@,
            source_path: self.source_path@,
            status: self.status,
            phase: self.phase,
            progress: self.progress,
            payload_path: self.payload_path@,
            output_path: opt_view(self.output_path),
            error: opt_view(self.error),
            created_at: self.created_at,
            started_at: self.started_at,
            finished_at: self.finished_at,
        }
    }
}

/// The jobs, oldest row first.
#[derive(Debug, Clone)]
pub struct ExportQueue {
    pub jobs: Vec<ExportJob>,
}

/// The views of a list of jobs.
pub open spec fn jobs_view(jobs: Seq<ExportJob>) -> Seq<JobView> {
    jobs.map_values(|j: ExportJob| j@)
}

impl View for ExportQueue {
    type V = Seq<JobView>;

    open spec fn view(&self) -> Seq<JobView> {
        jobs_view(self.jobs@)
    }
}

/// No two jobs share an id.
pub open spec fn ids_unique(q: Seq<JobView>) -> bool {
    forall|i: int, j: int| 0 <= i < q.len() && 0 <= j < q.len() && i != j ==> q[i].id != q[j].id
}

/// A job that has finished one way or another.
pub open spec fn is_terminal(s: JobStatus) -> bool {
    s == JobStatus::Success || s == JobStatus::Error || s == JobStatus::Cancelled || s
        == JobStatus::Interrupted
}

/// Some job has this id.
pub open spec fn has_job(q: Seq<JobView>, id: Seq<char>) -> bool {
    exists|i: int| 0 <= i < q.len() && q[i].id == id
}

/// The position of the job with this id (meaningful when [`has_job`]).
pub open spec fn job_at(q: Seq<JobView>, id: Seq<char>) -> int {
    choose|i: int| 0 <= i < q.len() && q[i].id == id
}

/// A new job: queued, preparing, nothing done yet.
pub open spec fn new_job(
    id: Seq<char>,
    filename: Seq<char>,
    source_path: Seq<char>,
    payload_path: Seq<char>,
    created_at: i64,
) -> JobView {
    JobView {
        id,
        filename,
        source_path,
        status: JobStatus::Queued,
        phase: JobPhase::Preparing,
        progress: 0,
        payload_path,
        output_path: None,
        error: None,
        created_at,
        started_at: None,
        finished_at: None,
    }
}

/// The queued job the worker claims next: the oldest by creation time, the
/// earliest row among equals.
pub open spec fn is_next_queued(q: Seq<JobView>, i: int) -> bool {
    &&& 0 <= i < q.len()
    &&& q[i].status == JobStatus::Queued
    &&& forall|j: int|
        0 <= j < q.len() && q[j].status == JobStatus::Queued ==> q[i].created_at <= q[j].created_at
    &&& forall|j: int|
        0 <= j < i && q[j].status == JobStatus::Queued ==> q[j].created_at > q[i].created_at
}

/// A claimed job: running, preparing, from zero, started now.
pub open spec fn claimed(j: JobView, started: i64) -> JobView {
    JobView {
        status: JobStatus::Running,
        phase: JobPhase::Preparing,
        progress: 0,
        started_at: Some(started),
        ..j
    }
}

/// A job that finished well.
pub open spec fn succeeded(j: JobView, output: Seq<char>, now: i64) -> JobView {
    JobView {
        status: JobStatus::Success,
        phase: JobPhase::Finalizing,
        progress: 100,
        output_path: Some(output),
        finished_at: Some(now),
        ..j
    }
}

/// A job that was cancelled.
pub open spec fn cancelled(j: JobView, now: i64) -> JobView {
    JobView { status: JobStatus::Cancelled, phase: JobPhase::Cancelling, finished_at: Some(now), ..j }
}

/// A job that failed with a message.
pub open spec fn failed(j: JobView, message: Seq<char>, now: i64) -> JobView {
    JobView { status: JobStatus::Error, error: Some(message), finished_at: Some(now), ..j }
}

/// A job the restart found running: its encoder died with the old process.
pub open spec fn reconciled(j: JobView, now: i64) -> JobView {
    if j.status == JobStatus::Running {
        JobView {
            status: JobStatus::Interrupted,
            error: Some("Interrupted by app restart"@),
            finished_at: Some(now),
            ..j
        }
    } else {
        j
    }
}

/// A job reset for another attempt.
pub open spec fn requeued(j: JobView) -> JobView {
    JobView {
        status: JobStatus::Queued,
        phase: JobPhase::Preparing,
        progress: 0,
        error: None,
        output_path: None,
        started_at: None,
        finished_at: None,
        ..j
    }
}

/// A job the startup sweep removes: finished, and finished (or, without a
/// finish time, created) before the cutoff.
pub open spec fn is_stale(j: JobView, cutoff: i64) -> bool {
    is_terminal(j.status) && (match j.finished_at {
        Some(f) => f,
        None => j.created_at,
    }) < cutoff
}

/// The predicate [`is_stale`] as a function.
pub open spec fn stale_at(cutoff: i64) -> spec_fn(JobView) -> bool {
    |j: JobView| is_stale(j, cutoff)
}

/// The predicate "not [`is_stale`]" as a function.
pub open spec fn kept_at(cutoff: i64) -> spec_fn(JobView) -> bool {
    |j: JobView| !is_stale(j, cutoff)
}

/// The queue after recording a success for the job with this id.
pub open spec fn finish_success_spec(q: Seq<JobView>, id: Seq<char>, output: Seq<char>, now: i64) -> Seq<
    JobView,
> {
    if has_job(q, id) {
        q.update(job_at(q, id), succeeded(q[job_at(q, id)], output, now))
    } else {
        q
    }
}

/// The queue after recording a cancellation for the job with this id.
pub open spec fn finish_cancelled_spec(q: Seq<JobView>, id: Seq<char>, now: i64) -> Seq<JobView> {
    if has_job(q, id) {
        q.update(job_at(q, id), cancelled(q[job_at(q, id)], now))
    } else {
        q
    }
}

/// The queue after recording a failure for the job with this id.
pub open spec fn finish_error_spec(q: Seq<JobView>, id: Seq<char>, message: Seq<char>, now: i64) -> Seq<
    JobView,
> {
    if has_job(q, id) {
        q.update(job_at(q, id), failed(q[job_at(q, id)], message, now))
    } else {
        q
    }
}

/// The queue after a restart: every running job interrupted.
pub open spec fn reconcile_spec(q: Seq<JobView>, now: i64) -> Seq<JobView> {
    Seq::new(q.len(), |i: int| reconciled(q[i], now))
}

/// The jobs the startup sweep keeps, in order.
pub open spec fn sweep_kept(q: Seq<JobView>, cutoff: i64) -> Seq<JobView>
    decreases q.len(),
{
    if q.len() == 0 {
        q
    } else {
        let rest = sweep_kept(q.drop_last(), cutoff);
        if is_stale(q.last(), cutoff) {
            rest
        } else {
            rest.push(q.last())
        }
    }
}

/// The payload files of the jobs the startup sweep removes, in order.
pub open spec fn sweep_payloads(q: Seq<JobView>, cutoff: i64) -> Seq<Seq<char>>
    decreases q.len(),
{
    if q.len() == 0 {
        Seq::empty()
    } else {
        let rest = sweep_payloads(q.drop_last(), cutoff);
        if is_stale(q.last(), cutoff) {
            rest.push(q.last().payload_path)
        } else {
            rest
        }
    }
}

/// The queue after cancelling the job with this id: a queued job is
/// dropped, a running one is marked cancelling, any other is left alone.
pub open spec fn cancel_spec(q: Seq<JobView>, id: Seq<char>) -> Seq<JobView> {
    if has_job(q, id) {
        let i = job_at(q, id);
        if q[i].status == JobStatus::Queued {
            q.remove(i)
        } else if q[i].status == JobStatus::Running {
            q.update(i, JobView { phase: JobPhase::Cancelling, ..q[i] })
        } else {
            q
        }
    } else {
        q
    }
}

/// The queue after dismissing the job with this id: removed unless it is
/// running.
pub open spec fn dismiss_spec(q: Seq<JobView>, id: Seq<char>) -> Seq<JobView> {
    if has_job(q, id) && q[job_at(q, id)].status != JobStatus::Running {
        q.remove(job_at(q, id))
    } else {
        q
    }
}

/// A job that may be tried again: failed, cancelled or interrupted.
pub open spec fn is_retryable(s: JobStatus) -> bool {
    s == JobStatus::Error || s == JobStatus::Cancelled || s == JobStatus::Interrupted
}

/// The queue after retrying the job with this id.
pub open spec fn retry_spec(q: Seq<JobView>, id: Seq<char>) -> Seq<JobView> {
    if has_job(q, id) && is_retryable(q[job_at(q, id)].status) {
        q.update(job_at(q, id), requeued(q[job_at(q, id)]))
    } else {
        q
    }
}

/// What `str::to_lowercase` makes of a string.
pub uninterp spec fn lowercase_spec(s: Seq<char>) -> Seq<char>;

/// Lowercases with `str::to_lowercase` (full Unicode case mapping). Claimed:
/// the result is [`lowercase_spec`] of the argument, a function of it alone,
/// and on ASCII text it is the ASCII lowercase (the Unicode mapping of the
/// ASCII letters); for other text it is not stated.
#[verifier::external_body]
fn lowercase(s: &str) -> (r: String)
    ensures
        r@ == lowercase_spec(s@),
        is_ascii_text(s@) ==> r@ == ascii_lower(s@),
{
    s.to_lowercase()
}

/// A failed run whose message mentions cancelling, in any case, was a
/// cancellation.
pub open spec fn is_cancellation_spec(message: Seq<char>) -> bool {
    has_substring(lowercase_spec(message), "cancel"@)
}

/// Whether a failed run's message reports a cancellation.
pub fn is_cancellation(message: &str) -> (b: bool)
    ensures
        b == is_cancellation_spec(message@),
{
    let lower = lowercase(message);
    let l = crate::text::chars_of(lower.as_str());
    let pat = crate::text::chars_of("cancel");
    crate::text::contains(l.as_slice(), pat.as_slice())
}

/// The queue after a run of the job with this id ended: success records the
/// output, a cancellation message records a cancel, any other error records
/// the failure.
pub open spec fn outcome_spec(
    q: Seq<JobView>,
    id: Seq<char>,
    outcome: Result<Seq<char>, Seq<char>>,
    now: i64,
) -> Seq<JobView> {
    match outcome {
        Ok(path) => finish_success_spec(q, id, path, now),
        Err(m) => if is_cancellation_spec(m) {
            finish_cancelled_spec(q, id, now)
        } else {
            finish_error_spec(q, id, m, now)
        },
    }
}

/// The view of a run's outcome.
pub open spec fn outcome_view(o: Result<String, String>) -> Result<Seq<char>, Seq<char>> {
    match o {
        Ok(p) => Ok(p@),
        Err(m) => Err(m@),
    }
}

/// The displayed file name of a source path: the whole path when it names
/// no file, else a non-empty piece of it without `/` (which piece, the
/// platform's path rules decide).
pub fn base_name(path: &str) -> (r: String)
    ensures
        r@ == path@ || (r@.len() > 0 && path_piece(path@, r@)),
        names_plain_file(path@) ==> r@ == after_last_slash(path@),
{
    let f = file_name_of(path);
    match f {
        Some(n) => n,
        None => {
            let mut out: Vec<char> = Vec::new();
            push_str(&mut out, path);
            string_of(out.as_slice())
        },
    }
}

/// The startup sweep keeps every job that is not stale (queued and running
/// ones above all, whatever their age), and keeps nothing stale.
pub proof fn law_sweep_keeps_active_and_recent_jobs(q: Seq<JobView>, cutoff: i64)
    ensures
        forall|i: int|
            0 <= i < q.len() && !is_stale(q[i], cutoff) ==> #[trigger] sweep_kept(
                q,
                cutoff,
            ).contains(q[i]),
        forall|i: int|
            0 <= i < q.len() && (q[i].status == JobStatus::Queued || q[i].status
                == JobStatus::Running) ==> #[trigger] sweep_kept(q, cutoff).contains(q[i]),
        forall|k: int|
            0 <= k < sweep_kept(q, cutoff).len() ==> !is_stale(
                #[trigger] sweep_kept(q, cutoff)[k],
                cutoff,
            ),
    decreases q.len(),
{
    if q.len() > 0 {
        let p = q.drop_last();
        law_sweep_keeps_active_and_recent_jobs(p, cutoff);
        let r = sweep_kept(p, cutoff);
        assert forall|i: int| 0 <= i < q.len() && !is_stale(q[i], cutoff) implies #[trigger] sweep_kept(
            q,
            cutoff,
        ).contains(q[i]) by {
            if i < q.len() - 1 {
                assert(p[i] == q[i]);
                assert(r.contains(p[i]));
                let k = choose|k: int| 0 <= k < r.len() && r[k] == p[i];
                if !is_stale(q.last(), cutoff) {
                    assert(r.push(q.last())[k] == q[i]);
                }
            } else {
                assert(r.push(q.last())[r.len() as int] == q[i]);
            }
        }
        assert forall|i: int|
            0 <= i < q.len() && (q[i].status == JobStatus::Queued || q[i].status
                == JobStatus::Running) implies #[trigger] sweep_kept(q, cutoff).contains(q[i]) by {
            assert(!is_stale(q[i], cutoff));
        }
    }
}

/// With no job running, claiming the next queued job leaves exactly one
/// running: the worker runs one export at a time.
pub proof fn law_claim_keeps_single_runner(q: Seq<JobView>, i: int, started: i64)
    requires
        forall|j: int| 0 <= j < q.len() ==> q[j].status != JobStatus::Running,
        is_next_queued(q, i),
    ensures
        forall|a: int, b: int|
            0 <= a < q.len() && 0 <= b < q.len() && #[trigger] q.update(
                i,
                claimed(q[i], started),
            )[a].status == JobStatus::Running && #[trigger] q.update(i, claimed(q[i], started))[b].status
                == JobStatus::Running ==> a == b,
{
}

/// After a restart no job is left running.
pub proof fn law_reconcile_leaves_nothing_running(q: Seq<JobView>, now: i64)
    ensures
        forall|k: int|
            0 <= k < q.len() ==> (#[trigger] reconcile_spec(q, now)[k]).status != JobStatus::Running,
{
}

/// Dismissing a running job changes nothing.
pub proof fn law_dismiss_never_removes_running(q: Seq<JobView>, id: Seq<char>)
    requires
        has_job(q, id),
        q[job_at(q, id)].status == JobStatus::Running,
    ensures
        dismiss_spec(q, id) == q,
{
}

/// Only a failed, cancelled or interrupted job is ever requeued.
pub proof fn law_retry_requeues_only_finished_failures(q: Seq<JobView>, id: Seq<char>)
    requires
        retry_spec(q, id) != q,
    ensures
        has_job(q, id),
        is_retryable(q[job_at(q, id)].status),
        retry_spec(q, id)[job_at(q, id)].status == JobStatus::Queued,
{
}

/// A job that failed, was cancelled or was interrupted is requeued by a
/// retry: the call reports it, and the job is queued again with its run
/// forgotten (preparing, no progress, no error, output or times) and
/// everything else as it was; no other job changes.
pub proof fn law_retry_requeues_every_finished_failure(q: Seq<JobView>, id: Seq<char>)
    requires
        has_job(q, id),
        q[job_at(q, id)].status == JobStatus::Error || q[job_at(q, id)].status
            == JobStatus::Cancelled || q[job_at(q, id)].status == JobStatus::Interrupted,
    ensures
        is_retryable(q[job_at(q, id)].status),
        ({
            let k = job_at(q, id);
            let j = q[k];
            let r = retry_spec(q, id);
            &&& r.len() == q.len()
            &&& r[k].status == JobStatus::Queued
            &&& r[k].phase == JobPhase::Preparing
            &&& r[k].progress == 0
            &&& r[k].error is None
            &&& r[k].output_path is None
            &&& r[k].started_at is None
            &&& r[k].finished_at is None
            &&& r[k].id == j.id
            &&& r[k].filename == j.filename
            &&& r[k].source_path == j.source_path
            &&& r[k].payload_path == j.payload_path
            &&& r[k].created_at == j.created_at
            &&& forall|m: int| 0 <= m < q.len() && m != k ==> r[m] == q[m]
        }),
{
}

/// A retry leaves the queue alone, and reports nothing requeued, when there
/// is no such job or it is queued, running or done.
pub proof fn law_retry_ignores_live_and_done_jobs(q: Seq<JobView>, id: Seq<char>)
    requires
        !has_job(q, id) || q[job_at(q, id)].status == JobStatus::Queued || q[job_at(q, id)].status
            == JobStatus::Running || q[job_at(q, id)].status == JobStatus::Success,
    ensures
        retry_spec(q, id) == q,
        !(has_job(q, id) && is_retryable(q[job_at(q, id)].status)),
{
}

/// What cancelling a job did.
#[derive(Debug, Clone)]
pub enum CancelAction {
    /// A queued job was dropped; its payload file can go.
    RemovedQueued(String),
    /// A running job was marked cancelling; its encoder must be signalled.
    SignalRunning,
    /// Nothing to cancel.
    Nothing,
}

/// What the worker needs from a claimed job.
#[derive(Debug, Clone)]
pub struct ClaimedJob {
    pub id: String,
    pub payload_path: String,
}

fn job_is(j: &ExportJob, id: &str) -> (b: bool)
    ensures
        b == (j@.id == id@),
{
    same_text(j.id.as_str(), id)
}

fn copy_text(s: &String) -> (r: String)
    ensures
        r@ == s@,
{
    s.clone()
}

fn copy_opt(o: &Option<String>) -> (r: Option<String>)
    ensures
        opt_view(r) == opt_view(*o),
{
    match o {
        Some(s) => Some(s.clone()),
        None => None,
    }
}

fn copy_job(j: &ExportJob) -> (r: ExportJob)
    ensures
        r@ == j@,
{
    ExportJob {
        id: copy_text(&j.id),
        filename: copy_text(&j.filename),
        source_path: copy_text(&j.source_path),
        status: j.status,
        phase: j.phase,
        progress: j.progress,
        payload_path: copy_text(&j.payload_path),
        output_path: copy_opt(&j.output_path),
        error: copy_opt(&j.error),
        created_at: j.created_at,
        started_at: j.started_at,
        finished_at: j.finished_at,
    }
}

impl ExportQueue {
    /// An empty queue.
    pub fn new() -> (q: ExportQueue)
        ensures
            q@.len() == 0,
    {
        ExportQueue { jobs: Vec::new() }
    }

    /// The table invariant: ids are unique.
    pub open spec fn wf(&self) -> bool {
        ids_unique(self@)
    }

    /// The position of the job with this id.
    pub fn find(&self, id: &str) -> (r: Option<usize>)
        requires
            self.wf(),
        ensures
            r matches Some(i) ==> (i < self@.len() && self@[i as int].id == id@ && has_job(self@, id@)
                && job_at(self@, id@) == i),
            r is None ==> !has_job(self@, id@),
    {
        let mut i: usize = 0;
        while i < self.jobs.len()
            invariant
                i <= self.jobs.len(),
                ids_unique(self@),
                forall|k: int| 0 <= k < i ==> self@[k].id != id@,
            decreases self.jobs.len() - i,
        {
            if job_is(&self.jobs[i], id) {
                proof {
                    assert(self@[i as int] == self.jobs@[i as int]@);
                    assert(self@[i as int].id == id@);
                    assert(has_job(self@, id@));
                    let c = job_at(self@, id@);
                    if c != i {
                        assert(self@[c].id == id@);
                    }
                }
                return Some(i);
            }
            i = i + 1;
        }
        None
    }

    /// Queue a new job; refused (`false`) when the id is already taken.
    pub fn enqueue(
        &mut self,
        id: String,
        filename: String,
        source_path: String,
        payload_path: String,
        created_at: i64,
    ) -> (inserted: bool)
        requires
            old(self).wf(),
        ensures
            final(self).wf(),
            inserted == !has_job(old(self)@, id@),
            inserted ==> final(self)@ == old(self)@.push(
                new_job(id@, filename@, source_path@, payload_path@, created_at),
            ),
            !inserted ==> final(self)@ == old(self)@,
    {
        if self.find(id.as_str()).is_some() {
            return false;
        }
        let ghost before = self.jobs@;
        self.jobs.push(
            ExportJob {
                id,
                filename,
                source_path,
                status: JobStatus::Queued,
                phase: JobPhase::Preparing,
                progress: 0,
                payload_path,
                output_path: None,
                error: None,
                created_at,
                started_at: None,
                finished_at: None,
            },
        );
        assert(self@ =~= jobs_view(before).push(self@.last()));
        true
    }

    /// Pick the oldest queued job and mark it running.
    pub fn claim_next_queued(&mut self, started: i64) -> (r: Option<ClaimedJob>)
        requires
            old(self).wf(),
        ensures
            final(self).wf(),
            r is None ==> final(self)@ == old(self)@ && forall|j: int|
                0 <= j < old(self)@.len() ==> old(self)@[j].status != JobStatus::Queued,
            r matches Some(c) ==> exists|i: int|
                is_next_queued(old(self)@, i) && c.id@ == old(self)@[i].id && c.payload_path@
                    == old(self)@[i].payload_path && final(self)@ == old(self)@.update(
                    i,
                    claimed(old(self)@[i], started),
                ),
    {
        let mut best: Option<usize> = None;
        let mut k: usize = 0;
        while k < self.jobs.len()
            invariant
                k <= self.jobs.len(),
                best matches Some(b) ==> {
                    &&& b < k
                    &&& self@[b as int].status == JobStatus::Queued
                    &&& forall|j: int|
                        0 <= j < k && self@[j].status == JobStatus::Queued ==> self@[b as int].created_at
                            <= self@[j].created_at
                    &&& forall|j: int|
                        0 <= j < b && self@[j].status == JobStatus::Queued ==> self@[j].created_at
                            > self@[b as int].created_at
                },
                best is None ==> forall|j: int|
                    0 <= j < k ==> self@[j].status != JobStatus::Queued,
            decreases self.jobs.len() - k,
        {
            if self.jobs[k].status == JobStatus::Queued {
                match best {
                    None => {
                        best = Some(k);
                    },
                    Some(b) => {
                        if self.jobs[k].created_at < self.jobs[b].created_at {
                            best = Some(k);
                        }
                    },
                }
            }
            k = k + 1;
        }
        match best {
            None => None,
            Some(b) => {
                let ghost before = self@;
                let mut job = copy_job(&self.jobs[b]);
                job.status = JobStatus::Running;
                job.phase = JobPhase::Preparing;
                job.progress = 0;
                job.started_at = Some(started);
                let claimed_job = ClaimedJob {
                    id: copy_text(&job.id),
                    payload_path: copy_text(&job.payload_path),
                };
                self.jobs.set(b, job);
                assert(self@ =~= before.update(b as int, claimed(before[b as int], started)));
                assert(is_next_queued(before, b as int));
                Some(claimed_job)
            },
        }
    }

    fn set_job(&mut self, i: usize, j: ExportJob)
        requires
            i < old(self)@.len(),
        ensures
            final(self)@ == old(self)@.update(i as int, j@),
            final(self).jobs@.len() == old(self).jobs@.len(),
    {
        let ghost before = self.jobs@;
        self.jobs.set(i, j);
        assert(self@ =~= jobs_view(before).update(i as int, j@));
    }

    fn remove_job(&mut self, i: usize) -> (j: ExportJob)
        requires
            i < old(self)@.len(),
            old(self).wf(),
        ensures
            final(self)@ == old(self)@.remove(i as int),
            j@ == old(self)@[i as int],
            final(self).wf(),
    {
        let ghost before = self@;
        let ghost raw = self.jobs@;
        let j = self.jobs.remove(i);
        assert(self@ =~= jobs_view(raw).remove(i as int));
        assert forall|a: int, b: int|
            0 <= a < self@.len() && 0 <= b < self@.len() && a != b implies self@[a].id
            != self@[b].id by {
            let a0 = if a < i {
                a
            } else {
                a + 1
            };
            let b0 = if b < i {
                b
            } else {
                b + 1
            };
            assert(self@[a] == before[a0]);
            assert(self@[b] == before[b0]);
        }
        j
    }

    /// Record a successful run of the job with this id.
    pub fn finish_success(&mut self, id: &str, output_path: &str, now: i64)
        requires
            old(self).wf(),
        ensures
            final(self).wf(),
            final(self)@ == finish_success_spec(old(self)@, id@, output_path@, now),
    {
        match self.find(id) {
            Some(i) => {
                let mut job = copy_job(&self.jobs[i]);
                job.status = JobStatus::Success;
                job.phase = JobPhase::Finalizing;
                job.progress = 100;
                let mut out: Vec<char> = Vec::new();
                push_str(&mut out, output_path);
                job.output_path = Some(string_of(out.as_slice()));
                job.finished_at = Some(now);
                self.set_job(i, job);
            },
            None => {},
        }
    }

    /// Record that the job with this id was cancelled.
    pub fn finish_cancelled(&mut self, id: &str, now: i64)
        requires
            old(self).wf(),
        ensures
            final(self).wf(),
            final(self)@ == finish_cancelled_spec(old(self)@, id@, now),
    {
        match self.find(id) {
            Some(i) => {
                let mut job = copy_job(&self.jobs[i]);
                job.status = JobStatus::Cancelled;
                job.phase = JobPhase::Cancelling;
                job.finished_at = Some(now);
                self.set_job(i, job);
            },
            None => {},
        }
    }

    /// Record that the job with this id failed with `message`.
    pub fn finish_error(&mut self, id: &str, message: String, now: i64)
        requires
            old(self).wf(),
        ensures
            final(self).wf(),
            final(self)@ == finish_error_spec(old(self)@, id@, message@, now),
    {
        match self.find(id) {
            Some(i) => {
                let mut job = copy_job(&self.jobs[i]);
                job.status = JobStatus::Error;
                job.error = Some(message);
                job.finished_at = Some(now);
                self.set_job(i, job);
            },
            None => {},
        }
    }

    /// Record how a run of the job with this id ended; `true` when it
    /// succeeded, so its payload is no longer needed.
    pub fn record_outcome(&mut self, id: &str, outcome: Result<String, String>, now: i64) -> (done:
        bool)
        requires
            old(self).wf(),
        ensures
            final(self).wf(),
            final(self)@ == outcome_spec(old(self)@, id@, outcome_view(outcome), now),
            done == outcome is Ok,
    {
        match outcome {
            Ok(path) => {
                self.finish_success(id, path.as_str(), now);
                true
            },
            Err(message) => {
                if is_cancellation(message.as_str()) {
                    self.finish_cancelled(id, now);
                } else {
                    self.finish_error(id, message, now);
                }
                false
            },
        }
    }

    /// Recover from an unclean shutdown: every job left running is
    /// interrupted (its encoder died with the old process).
    pub fn reconcile_on_load(&mut self, now: i64)
        requires
            old(self).wf(),
        ensures
            final(self).wf(),
            final(self)@ == reconcile_spec(old(self)@, now),
    {
        let ghost start = self@;
        let mut i: usize = 0;
        while i < self.jobs.len()
            invariant
                i <= self.jobs.len(),
                self.jobs@.len() == start.len(),
                self@.len() == start.len(),
                forall|k: int| 0 <= k < i ==> self@[k] == reconciled(start[k], now),
                forall|k: int| i <= k < start.len() ==> self@[k] == start[k],
            decreases self.jobs.len() - i,
        {
            if self.jobs[i].status == JobStatus::Running {
                let mut job = copy_job(&self.jobs[i]);
                job.status = JobStatus::Interrupted;
                let mut out: Vec<char> = Vec::new();
                push_str(&mut out, "Interrupted by app restart");
                job.error = Some(string_of(out.as_slice()));
                job.finished_at = Some(now);
                self.set_job(i, job);
            }
            i = i + 1;
        }
        assert(self@ =~= reconcile_spec(start, now));
        assert forall|a: int, b: int|
            0 <= a < self@.len() && 0 <= b < self@.len() && a != b implies self@[a].id
            != self@[b].id by {
            assert(start[a].id != start[b].id);
        }
    }

    /// Drop the finished jobs that finished before `cutoff`, handing back
    /// their payload files. Queued and running jobs are never touched.
    pub fn delete_terminal_before(&mut self, cutoff: i64) -> (payloads: Vec<String>)
        requires
            old(self).wf(),
        ensures
            final(self).wf(),
            final(self)@ == sweep_kept(old(self)@, cutoff),
            crate::text::texts(payloads@) == sweep_payloads(old(self)@, cutoff),
    {
        let ghost start = self@;
        let mut kept: Vec<ExportJob> = Vec::new();
        let mut payloads: Vec<String> = Vec::new();
        let mut i: usize = 0;
        while i < self.jobs.len()
            invariant
                i <= self.jobs.len(),
                self@ == start,
                ids_unique(start),
                jobs_view(kept@) == sweep_kept(start.subrange(0, i as int), cutoff),
                crate::text::texts(payloads@) == sweep_payloads(start.subrange(0, i as int), cutoff),
                ids_unique(jobs_view(kept@)),
                forall|k: int|
                    0 <= k < kept@.len() ==> exists|m: int|
                        0 <= m < i && #[trigger] jobs_view(kept@)[k].id == start[m].id,
            decreases self.jobs.len() - i,
        {
            let ghost pre = start.subrange(0, i as int);
            assert(start.subrange(0, i + 1).drop_last() =~= pre);
            assert(start.subrange(0, i + 1).last() == start[i as int]);
            let job = &self.jobs[i];
            assert(job@ == start[i as int]);
            let finished: i64 = match job.finished_at {
                Some(f) => f,
                None => job.created_at,
            };
            let stale = (job.status == JobStatus::Success || job.status == JobStatus::Error
                || job.status == JobStatus::Cancelled || job.status == JobStatus::Interrupted)
                && finished < cutoff;
            if stale {
                let ghost before = payloads@;
                payloads.push(copy_text(&job.payload_path));
                assert(crate::text::texts(payloads@) =~= crate::text::texts(before).push(
                    start[i as int].payload_path,
                ));
            } else {
                let ghost before = kept@;
                kept.push(copy_job(job));
                assert(jobs_view(kept@) =~= jobs_view(before).push(start[i as int]));
                assert forall|k: int| 0 <= k < kept@.len() implies exists|m: int|
                    0 <= m < i + 1 && #[trigger] jobs_view(kept@)[k].id == start[m].id by {
                    if k == kept@.len() - 1 {
                        assert(jobs_view(kept@)[k].id == start[i as int].id);
                    } else {
                        assert(jobs_view(kept@)[k] == jobs_view(before)[k]);
                    }
                }
                assert forall|a: int, b: int|
                    0 <= a < kept@.len() && 0 <= b < kept@.len() && a != b implies jobs_view(
                    kept@,
                )[a].id != jobs_view(kept@)[b].id by {
                    let last = kept@.len() - 1;
                    if a == last {
                        assert(jobs_view(kept@)[b] == jobs_view(before)[b]);
                        let m = choose|m: int|
                            0 <= m < i && #[trigger] jobs_view(before)[b].id == start[m].id;
                        assert(start[m].id != start[i as int].id);
                    } else if b == last {
                        assert(jobs_view(kept@)[a] == jobs_view(before)[a]);
                        let m = choose|m: int|
                            0 <= m < i && #[trigger] jobs_view(before)[a].id == start[m].id;
                        assert(start[m].id != start[i as int].id);
                    } else {
                        assert(jobs_view(kept@)[a] == jobs_view(before)[a]);
                        assert(jobs_view(kept@)[b] == jobs_view(before)[b]);
                    }
                }
            }
            i = i + 1;
        }
        assert(start.subrange(0, start.len() as int) =~= start);
        self.jobs = kept;
        payloads
    }

    /// Cancel the job with this id: a queued job is dropped from the queue,
    /// a running one is marked cancelling so its encoder can be stopped.
    pub fn cancel(&mut self, id: &str) -> (action: CancelAction)
        requires
            old(self).wf(),
        ensures
            final(self).wf(),
            final(self)@ == cancel_spec(old(self)@, id@),
            has_job(old(self)@, id@) && old(self)@[job_at(old(self)@, id@)].status
                == JobStatus::Queued ==> (action matches CancelAction::RemovedQueued(p) && p@ == old(
                self,
            )@[job_at(old(self)@, id@)].payload_path),
            has_job(old(self)@, id@) && old(self)@[job_at(old(self)@, id@)].status
                == JobStatus::Running ==> action is SignalRunning,
            !(has_job(old(self)@, id@) && (old(self)@[job_at(old(self)@, id@)].status
                == JobStatus::Queued || old(self)@[job_at(old(self)@, id@)].status
                == JobStatus::Running)) ==> action is Nothing,
    {
        match self.find(id) {
            Some(i) => {
                if self.jobs[i].status == JobStatus::Queued {
                    let job = self.remove_job(i);
                    CancelAction::RemovedQueued(job.payload_path)
                } else if self.jobs[i].status == JobStatus::Running {
                    let mut job = copy_job(&self.jobs[i]);
                    job.phase = JobPhase::Cancelling;
                    self.set_job(i, job);
                    CancelAction::SignalRunning
                } else {
                    CancelAction::Nothing
                }
            },
            None => CancelAction::Nothing,
        }
    }

    /// Remove a job that is not running from the list, handing back its
    /// payload file.
    pub fn dismiss(&mut self, id: &str) -> (payload: Option<String>)
        requires
            old(self).wf(),
        ensures
            final(self).wf(),
            final(self)@ == dismiss_spec(old(self)@, id@),
            has_job(old(self)@, id@) && old(self)@[job_at(old(self)@, id@)].status
                != JobStatus::Running ==> (payload matches Some(p) && p@ == old(self)@[job_at(
                old(self)@,
                id@,
            )].payload_path),
            !(has_job(old(self)@, id@) && old(self)@[job_at(old(self)@, id@)].status
                != JobStatus::Running) ==> payload is None,
    {
        match self.find(id) {
            Some(i) => {
                if self.jobs[i].status != JobStatus::Running {
                    let job = self.remove_job(i);
                    Some(job.payload_path)
                } else {
                    None
                }
            },
            None => None,
        }
    }

    /// Requeue a failed, cancelled or interrupted job; `true` when it was.
    pub fn retry(&mut self, id: &str) -> (requeued_it: bool)
        requires
            old(self).wf(),
        ensures
            final(self).wf(),
            final(self)@ == retry_spec(old(self)@, id@),
            requeued_it == (has_job(old(self)@, id@) && is_retryable(
                old(self)@[job_at(old(self)@, id@)].status,
            )),
    {
        match self.find(id) {
            Some(i) => {
                let st = self.jobs[i].status;
                if st == JobStatus::Error || st == JobStatus::Cancelled || st
                    == JobStatus::Interrupted {
                    let mut job = copy_job(&self.jobs[i]);
                    job.status = JobStatus::Queued;
                    job.phase = JobPhase::Preparing;
                    job.progress = 0;
                    job.error = None;
                    job.output_path = None;
                    job.started_at = None;
                    job.finished_at = None;
                    self.set_job(i, job);
                    true
                } else {
                    false
                }
            },
            None => false,
        }
    }
}

} // verus!
