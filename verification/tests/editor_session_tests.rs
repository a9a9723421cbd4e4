use recast_core::editor_session::{PersistPlan, PersistedEditorSession};
use recast_core::types::{EditorSession, EditorWriterKind};
use std::time::{SystemTime, UNIX_EPOCH};

fn now_ms() -> i64 {
    SystemTime::now()
        .duration_since(UNIX_EPOCH)
        .map(|d| d.as_millis() as i64)
        .unwrap_or(0)
}

fn fresh() -> EditorSession {
    EditorSession::default()
}

#[test]
fn acquire_release_round_trip() {
    let mut lock = fresh();
    lock.try_acquire_write(
        "/tmp/foo.recast".into(),
        EditorWriterKind::Agent,
        "agent:test".into(),
        now_ms(),
    )
    .unwrap();
    assert_eq!(lock.writer, Some(EditorWriterKind::Agent));
    assert_eq!(lock.writer_id, "agent:test");
    assert_eq!(lock.project_path.as_deref(), Some("/tmp/foo.recast"));

    assert!(lock.release_if_owner("agent:test"));
    assert_eq!(lock.writer, None);
    assert!(lock.project_path.is_none());
}

#[test]
fn second_writer_blocks_with_holder_name() {
    let mut lock = fresh();
    lock.try_acquire_write(
        "/tmp/foo.recast".into(),
        EditorWriterKind::Agent,
        "agent:a".into(),
        now_ms(),
    )
    .unwrap();
    let err = lock
        .try_acquire_write(
            "/tmp/foo.recast".into(),
            EditorWriterKind::Agent,
            "agent:b".into(),
            now_ms(),
        )
        .unwrap_err();
    assert!(err.contains("editor_locked"), "got: {err}");
    assert!(err.contains("agent:a"), "got: {err}");
}

#[test]
fn ttl_reclaims_stale_holder() {
    let mut lock = fresh();
    lock.try_acquire_write(
        "/tmp/foo.recast".into(),
        EditorWriterKind::Agent,
        "agent:a".into(),
        now_ms(),
    )
    .unwrap();
    lock.last_activity_at_ms = now_ms() - EditorSession::TTL_MS - 1000;
    lock.try_acquire_write(
        "/tmp/foo.recast".into(),
        EditorWriterKind::Ui,
        "ui:user".into(),
        now_ms(),
    )
    .unwrap();
    assert_eq!(lock.writer_id, "ui:user");
}

#[test]
fn force_release_clears_any_holder() {
    let mut lock = fresh();
    lock.try_acquire_write(
        "/tmp/foo.recast".into(),
        EditorWriterKind::Agent,
        "agent:a".into(),
        now_ms(),
    )
    .unwrap();
    let released = lock.force_release();
    assert_eq!(released, Some(EditorWriterKind::Agent));
    assert_eq!(lock.writer, None);
}

#[test]
fn release_with_wrong_owner_is_no_op() {
    let mut lock = fresh();
    lock.try_acquire_write(
        "/tmp/foo.recast".into(),
        EditorWriterKind::Agent,
        "agent:a".into(),
        now_ms(),
    )
    .unwrap();
    assert!(!lock.release_if_owner("agent:b"));
    assert_eq!(lock.writer, Some(EditorWriterKind::Agent));
}

#[test]
fn the_refusal_names_path_holder_age_and_ttl() {
    let mut lock = fresh();
    lock.try_acquire_write("/p.recast".into(), EditorWriterKind::Ui, "ui:me".into(), 1_000)
        .unwrap();
    let err = lock
        .try_acquire_write("/p.recast".into(), EditorWriterKind::Agent, "agent:x".into(), 1_250)
        .unwrap_err();
    assert_eq!(
        err,
        "editor_locked: project '/p.recast' held by 'ui:me' (acquired 250 ms ago); use `recast project unlock --force` to reclaim or wait 60s for TTL."
    );
    // Exactly at the TTL the holder is still live; one ms later it is not.
    lock.record_activity(2_000);
    assert!(lock
        .try_acquire_write("/p.recast".into(), EditorWriterKind::Agent, "agent:x".into(), 62_000)
        .is_err());
    assert!(lock
        .try_acquire_write("/p.recast".into(), EditorWriterKind::Agent, "agent:x".into(), 62_001)
        .is_ok());
}

#[test]
fn activity_is_only_stamped_under_a_held_lock() {
    let mut lock = fresh();
    lock.record_activity(5);
    assert_eq!(lock.last_activity_at_ms, 0);
    lock.try_acquire_write("/p".into(), EditorWriterKind::Ui, "ui".into(), 10).unwrap();
    lock.record_activity(20);
    assert_eq!(lock.last_activity_at_ms, 20);
    assert_eq!(lock.acquired_at_ms, 10);
}

#[test]
fn persisting_and_restoring_the_lock() {
    let mut lock = fresh();
    assert!(matches!(lock.persist_plan(7), PersistPlan::Remove));
    lock.try_acquire_write("/p".into(), EditorWriterKind::Agent, "agent:z".into(), 10).unwrap();
    match lock.persist_plan(7) {
        PersistPlan::Write(rec) => {
            assert_eq!(rec.project_path, "/p");
            assert_eq!(rec.holder_pid, 7);
            assert_eq!(rec.writer_id, "agent:z");
        }
        _ => panic!("a held lock is written"),
    }
    let rec = PersistedEditorSession {
        project_path: "/q".into(),
        writer: EditorWriterKind::Ui,
        writer_id: "ui:q".into(),
        acquired_at_ms: 1,
        last_activity_at_ms: 2,
        holder_pid: 3,
    };
    let mut restored = fresh();
    assert!(!restored.restore(rec, false));
    assert_eq!(restored.writer, None);
    let rec = PersistedEditorSession {
        project_path: "/q".into(),
        writer: EditorWriterKind::Ui,
        writer_id: "ui:q".into(),
        acquired_at_ms: 1,
        last_activity_at_ms: 2,
        holder_pid: 3,
    };
    assert!(restored.restore(rec, true));
    assert_eq!(restored.writer_id, "ui:q");
}
