use codex_tasks::listing::{is_terminal, unique_targets, TaskListEntry, WaitMode};
use codex_tasks::report::{
    format_archive_outcome, format_list_text, format_log_text, format_status_text, format_status_text_at,
    format_stop_outcome_text,
    optional_path,
};
use codex_tasks::service::{ArchiveTaskOutcome, StopOutcome, TaskStatusSnapshot};
use codex_tasks::task::{TaskMetadata, TaskState};
use codex_tasks::time::Timestamp;

fn snapshot(id: &str, state: TaskState, pid: Option<i32>) -> TaskStatusSnapshot {
    TaskStatusSnapshot { metadata: TaskMetadata::new(id.to_string(), None, state), pid }
}

#[test]
fn wait_modes() {
    let records = vec![snapshot("a", TaskState::Running, Some(1)), snapshot("b", TaskState::Stopped, None)];
    assert!(WaitMode::Immediate.is_satisfied(&records));
    assert!(!WaitMode::All.is_satisfied(&records));
    assert!(WaitMode::Any.is_satisfied(&records));
    assert!(WaitMode::All.is_satisfied(&records[1..].to_vec()));
    assert!(!WaitMode::Any.is_satisfied(&records[..1].to_vec()));
    assert!(!is_terminal(&records[0]));
    assert!(is_terminal(&snapshot("c", TaskState::Died, None)));
    assert!(is_terminal(&snapshot("d", TaskState::Archived, None)));
}

#[test]
fn targets_without_repeats() {
    let ids = vec!["b".to_string(), "a".to_string(), "b".to_string(), "c".to_string(), "a".to_string()];
    assert_eq!(unique_targets(&ids), vec!["b".to_string(), "a".to_string(), "c".to_string()]);
    assert!(unique_targets(&vec![]).is_empty());
}

#[test]
fn list_text() {
    assert_eq!(format_list_text(&vec![]), "No tasks found.");
    let entries = vec![
        TaskListEntry { metadata: TaskMetadata::new("t1".to_string(), None, TaskState::Running) },
        TaskListEntry { metadata: TaskMetadata::new("t2".to_string(), None, TaskState::Died) },
    ];
    assert_eq!(format_list_text(&entries), "Found 2 task(s):\n- t1 (RUNNING)\n- t2 (DIED)");
}

#[test]
fn log_text() {
    let lines = vec!["A".to_string(), "B".to_string()];
    assert_eq!(
        format_log_text("T", "/s/T/task.log", &lines, Some(TaskState::Running)),
        "Task T log at /s/T/task.log\nState: RUNNING\n---\nA\nB"
    );
    assert_eq!(format_log_text("T", "/p", &vec![], None), "Task T log at /p\n<empty>");
}

#[test]
fn optional_paths() {
    assert_eq!(optional_path(None), None);
    assert_eq!(optional_path(Some("   ".to_string())), None);
    assert_eq!(optional_path(Some("  /tmp/x ".to_string())).as_deref(), Some("/tmp/x"));
}

#[test]
fn status_text() {
    let mut m = TaskMetadata::new("task-123".to_string(), Some("Example task".to_string()), TaskState::Running);
    m.created_at = Timestamp { secs: 1714566896, nanos: 0 };
    m.updated_at = Timestamp { secs: 1714566896, nanos: 0 };
    m.last_prompt = Some("  ".to_string());
    m.last_result = Some("done".to_string());
    let text = format_status_text(&TaskStatusSnapshot { metadata: m, pid: Some(42) });
    assert_eq!(
        text,
        "Task ID: task-123\nTitle: Example task\nState: RUNNING\nCreated At: 2024-05-01T12:34:56+00:00\nUpdated At: 2024-05-01T12:34:56+00:00\nWorking Dir: <none>\nPID: 42\nLast Prompt: <none>\nLast Result: done"
    );
}

#[test]
fn lifecycle_messages() {
    assert_eq!(format_stop_outcome_text("T", StopOutcome::Stopped), "Task T stopped.");
    let text = format_archive_outcome(&ArchiveTaskOutcome::Archived {
        id: "T".to_string(),
        destination: "/h/.codex/tasks/archive/2024/05/01/T".to_string(),
    });
    assert!(text.starts_with("Task T archived to "));
    assert!(text.ends_with('.'));
}

#[test]
fn status_text_with_given_times() {
    let m = TaskMetadata::new("t".to_string(), None, TaskState::Stopped);
    let text = format_status_text_at(&TaskStatusSnapshot { metadata: m, pid: None }, "C", "U");
    assert_eq!(
        text,
        "Task ID: t\nState: STOPPED\nCreated At: C\nUpdated At: U\nWorking Dir: <none>\nLast Prompt: <none>\nLast Result: <none>"
    );
}

#[test]
fn targets_keep_first_occurrence_order() {
    let ids = vec!["z".to_string(), "y".to_string(), "z".to_string(), "x".to_string(), "y".to_string()];
    assert_eq!(unique_targets(&ids), vec!["z".to_string(), "y".to_string(), "x".to_string()]);
}
