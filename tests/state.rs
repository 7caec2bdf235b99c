use codex_tasks::liveness::{
    derive_active_state, derive_state_without_pid, interpret_probe, probe_needed, ProbeResult,
};
use codex_tasks::task::{TaskMetadata, TaskState};
use codex_tasks::time::Timestamp;

#[test]
fn derivation_table_rows() {
    assert_eq!(derive_active_state(&TaskState::Running, Some(42), true), TaskState::Running);
    assert_eq!(derive_active_state(&TaskState::Running, Some(42), false), TaskState::Died);
    assert_eq!(derive_active_state(&TaskState::Running, None, true), TaskState::Died);
    assert_eq!(derive_active_state(&TaskState::Stopped, Some(42), true), TaskState::Stopped);
    assert_eq!(derive_active_state(&TaskState::Stopped, Some(42), false), TaskState::Stopped);
    assert_eq!(derive_active_state(&TaskState::Stopped, None, false), TaskState::Stopped);
    assert_eq!(derive_active_state(&TaskState::Archived, Some(42), true), TaskState::Archived);
    assert_eq!(derive_active_state(&TaskState::Archived, None, false), TaskState::Archived);
    assert_eq!(derive_active_state(&TaskState::Died, Some(42), true), TaskState::Running);
    assert_eq!(derive_active_state(&TaskState::Died, None, false), TaskState::Died);
    assert_eq!(derive_active_state(&TaskState::Died, Some(42), false), TaskState::Died);
}

#[test]
fn non_positive_pids_are_never_alive() {
    assert_eq!(derive_active_state(&TaskState::Running, Some(0), true), TaskState::Died);
    assert_eq!(derive_active_state(&TaskState::Died, Some(-5), true), TaskState::Died);
    assert!(!probe_needed(0));
    assert!(!probe_needed(-1));
    assert!(probe_needed(1));
    assert_eq!(interpret_probe(0, ProbeResult::Delivered), Ok(false));
}

#[test]
fn probe_outcomes_map_to_liveness() {
    assert_eq!(interpret_probe(7, ProbeResult::Delivered), Ok(true));
    assert_eq!(interpret_probe(7, ProbeResult::PermissionDenied), Ok(true));
    assert_eq!(interpret_probe(7, ProbeResult::NoSuchProcess), Ok(false));
    let err = interpret_probe(7, ProbeResult::Failed(22)).unwrap_err();
    assert_eq!(err.pid, 7);
    assert_eq!(err.code, 22);
}

#[test]
fn state_without_pid() {
    assert_eq!(derive_state_without_pid(TaskState::Running), TaskState::Died);
    assert_eq!(derive_state_without_pid(TaskState::Stopped), TaskState::Stopped);
    assert_eq!(derive_state_without_pid(TaskState::Died), TaskState::Died);
    assert_eq!(derive_state_without_pid(TaskState::Archived), TaskState::Archived);
}

#[test]
fn state_names_round_trip() {
    for state in [TaskState::Running, TaskState::Stopped, TaskState::Archived, TaskState::Died] {
        assert_eq!(TaskState::parse(state.as_str()), Some(state));
    }
    assert_eq!(TaskState::Running.as_str(), "RUNNING");
    assert_eq!(TaskState::Died.as_str(), "DIED");
    assert_eq!(TaskState::parse("running"), None);
    assert_eq!(TaskState::parse("IDLE"), None);
    assert_eq!(TaskState::parse(""), None);
}

#[test]
fn new_metadata_and_state_changes() {
    let mut m = TaskMetadata::new("abc-123".to_string(), Some("Example".to_string()), TaskState::Stopped);
    assert_eq!(m.id, "abc-123");
    assert_eq!(m.title.as_deref(), Some("Example"));
    assert_eq!(m.created_at, m.updated_at);
    assert!(m.last_result.is_none() && m.initial_prompt.is_none() && m.last_prompt.is_none());
    let created = m.created_at;
    m.set_state(TaskState::Running);
    assert_eq!(m.state, TaskState::Running);
    assert_eq!(m.created_at, created);
    assert!(!m.updated_at.is_before(&created));
}

#[test]
fn touching_moves_only_the_update_time() {
    let mut m = TaskMetadata::new("t".to_string(), None, TaskState::Running);
    let created = m.created_at;
    m.touch_at(Timestamp { secs: created.secs + 5, nanos: 0 });
    assert_eq!(m.updated_at, Timestamp { secs: created.secs + 5, nanos: 0 });
    assert_eq!(m.created_at, created);
    assert_eq!(m.state, TaskState::Running);
    m.touch();
    assert_eq!(m.created_at, created);
}
