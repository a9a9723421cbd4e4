use recast_core::export_queue::{
    base_name, is_cancellation, CancelAction, ExportQueue, JobPhase, JobStatus,
};

fn seed(q: &mut ExportQueue, id: &str, status: JobStatus, finished_at: Option<i64>, created_at: i64) {
    assert!(q.enqueue(id.into(), "f".into(), "s".into(), format!("/tmp/{id}.json"), created_at));
    let i = q.find(id).unwrap();
    q.jobs[i].status = status;
    q.jobs[i].phase = JobPhase::Finalizing;
    q.jobs[i].progress = 100;
    q.jobs[i].finished_at = finished_at;
}

fn ids(q: &ExportQueue) -> Vec<String> {
    let mut v: Vec<String> = q.jobs.iter().map(|j| j.id.clone()).collect();
    v.sort();
    v
}

#[test]
fn sweep_drops_old_terminal_keeps_recent_and_active() {
    let mut q = ExportQueue::new();
    seed(&mut q, "old_ok", JobStatus::Success, Some(1_000), 0);
    seed(&mut q, "old_err", JobStatus::Error, Some(2_000), 0);
    seed(&mut q, "recent_ok", JobStatus::Success, Some(10_000), 0);
    seed(&mut q, "run", JobStatus::Running, None, 100);
    q.jobs[3].progress = 50;
    seed(&mut q, "q", JobStatus::Queued, None, 100);

    let removed = q.delete_terminal_before(5_000);

    assert_eq!(removed.len(), 2);
    assert!(removed.contains(&"/tmp/old_ok.json".to_string()));
    assert!(removed.contains(&"/tmp/old_err.json".to_string()));
    assert_eq!(ids(&q), vec!["q", "recent_ok", "run"]);
}

#[test]
fn sweep_never_touches_queued_even_when_old() {
    let mut q = ExportQueue::new();
    seed(&mut q, "q", JobStatus::Queued, None, 0);

    let removed = q.delete_terminal_before(i64::MAX);

    assert!(removed.is_empty());
    assert_eq!(ids(&q), vec!["q"]);
}

#[test]
fn a_terminal_job_without_finish_time_ages_from_creation() {
    let mut q = ExportQueue::new();
    seed(&mut q, "i", JobStatus::Interrupted, None, 10);
    assert_eq!(q.delete_terminal_before(11), vec!["/tmp/i.json".to_string()]);
}

#[test]
fn the_worker_claims_the_oldest_queued_job() {
    let mut q = ExportQueue::new();
    assert!(q.enqueue("b".into(), "b.recast".into(), "/p/b.recast".into(), "/q/b.json".into(), 20));
    assert!(q.enqueue("a".into(), "a.recast".into(), "/p/a.recast".into(), "/q/a.json".into(), 10));
    assert!(!q.enqueue("a".into(), "x".into(), "x".into(), "x".into(), 5));
    let c = q.claim_next_queued(99).unwrap();
    assert_eq!(c.id, "a");
    assert_eq!(c.payload_path, "/q/a.json");
    let a = &q.jobs[q.find("a").unwrap()];
    assert_eq!(a.status, JobStatus::Running);
    assert_eq!(a.started_at, Some(99));
    let c = q.claim_next_queued(100).unwrap();
    assert_eq!(c.id, "b");
    assert!(q.claim_next_queued(101).is_none());
}

#[test]
fn a_run_ends_in_success_cancel_or_error() {
    let mut q = ExportQueue::new();
    for id in ["ok", "stop", "bad"] {
        assert!(q.enqueue(id.into(), "f".into(), "s".into(), "p".into(), 1));
        q.claim_next_queued(2).unwrap();
    }
    assert!(q.record_outcome("ok", Ok("/out/ok.mp4".into()), 3));
    assert!(!q.record_outcome("stop", Err("Export CANCELLED by user".into()), 3));
    assert!(!q.record_outcome("bad", Err("ffmpeg exit 1".into()), 3));
    let ok = &q.jobs[q.find("ok").unwrap()];
    assert_eq!((ok.status, ok.progress), (JobStatus::Success, 100));
    assert_eq!(ok.output_path.as_deref(), Some("/out/ok.mp4"));
    assert_eq!(q.jobs[q.find("stop").unwrap()].status, JobStatus::Cancelled);
    let bad = &q.jobs[q.find("bad").unwrap()];
    assert_eq!(bad.status, JobStatus::Error);
    assert_eq!(bad.error.as_deref(), Some("ffmpeg exit 1"));
    assert!(is_cancellation("cancelled"));
    assert!(!is_cancellation("encoder crashed"));
}

#[test]
fn cancel_dismiss_retry_and_restart() {
    let mut q = ExportQueue::new();
    assert!(q.enqueue("q".into(), "f".into(), "s".into(), "/q.json".into(), 1));
    assert!(q.enqueue("r".into(), "f".into(), "s".into(), "/r.json".into(), 2));
    q.claim_next_queued(3).unwrap();
    q.claim_next_queued(4).unwrap();
    assert!(q.enqueue("x".into(), "f".into(), "s".into(), "/x.json".into(), 5));
    match q.cancel("x") {
        CancelAction::RemovedQueued(p) => assert_eq!(p, "/x.json"),
        _ => panic!("a queued job is dropped"),
    }
    assert!(matches!(q.cancel("r"), CancelAction::SignalRunning));
    assert_eq!(q.jobs[q.find("r").unwrap()].phase, JobPhase::Cancelling);
    assert_eq!(q.dismiss("r"), None);
    q.reconcile_on_load(9);
    let r = &q.jobs[q.find("r").unwrap()];
    assert_eq!(r.status, JobStatus::Interrupted);
    assert_eq!(r.error.as_deref(), Some("Interrupted by app restart"));
    assert!(q.retry("r"));
    assert_eq!(q.jobs[q.find("r").unwrap()].status, JobStatus::Queued);
    assert!(!q.retry("r"));
    assert_eq!(q.dismiss("q"), Some("/q.json".to_string()));
    assert!(q.find("q").is_none());
    assert!(matches!(q.cancel("nope"), CancelAction::Nothing));
}

#[test]
fn the_displayed_name_is_the_file_name() {
    assert_eq!(base_name("/a/b/Demo.recast"), "Demo.recast");
    assert_eq!(base_name("Demo.recast"), "Demo.recast");
}
