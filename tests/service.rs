use codex_tasks::errors::TaskError;
use codex_tasks::service::{
    active_snapshot, after_kill, archive_precheck, archived_snapshot, check_destination_free,
    pipe_write_result, plan_archive_move, plan_stop, prompt_line, send_target, shutdown_step,
    validate_prompt, ArchivePrecheck, PipeWrite, SendPromptParams, ShutdownStep, StopPlan, TaskLookup, TaskService,
    WaitObservation,
};
use codex_tasks::listing::{ListTasksOptions, TaskListEntry};
use codex_tasks::report::format_stop_outcome_text;
use codex_tasks::service::StopOutcome;
use codex_tasks::launcher::{validate_start, StartTaskParams};
use codex_tasks::store::{find_archived_index, TaskStore};
use codex_tasks::time::CivilDate;
use codex_tasks::task::{TaskMetadata, TaskState};
use codex_tasks::time::Timestamp;

fn meta(id: &str, state: TaskState) -> TaskMetadata {
    TaskMetadata::new(id.to_string(), None, state)
}

#[test]
fn prompts_must_not_be_blank() {
    assert!(matches!(validate_prompt(""), Err(TaskError::EmptyPrompt)));
    assert!(matches!(validate_prompt("  \n\t"), Err(TaskError::EmptyPrompt)));
    assert!(validate_prompt(" hi ").is_ok());
    assert_eq!(TaskError::EmptyPrompt.message(), "prompt must not be empty");
}

#[test]
fn send_refuses_died_and_archived_tasks() {
    let err = send_target("T", TaskLookup::Active(meta("T", TaskState::Died))).unwrap_err();
    assert!(err.message().contains("has DIED and cannot receive prompts"));
    assert_eq!(err.message(), "task T has DIED and cannot receive prompts");
    let err = send_target("T", TaskLookup::Active(meta("T", TaskState::Archived))).unwrap_err();
    assert_eq!(err.message(), "task T is ARCHIVED and cannot receive prompts");
    let err = send_target("archived-task", TaskLookup::Archived(meta("archived-task", TaskState::Stopped))).unwrap_err();
    assert_eq!(err.message(), "task archived-task is ARCHIVED and cannot receive prompts");
    let err = send_target("missing-task", TaskLookup::Missing).unwrap_err();
    assert_eq!(err.message(), "task missing-task was not found");
}

#[test]
fn send_accepts_running_and_stopped_tasks() {
    let m = send_target("T", TaskLookup::Active(meta("T", TaskState::Running))).expect("running");
    assert_eq!(m.id, "T");
    let m = send_target("T", TaskLookup::Active(meta("T", TaskState::Stopped))).expect("stopped");
    assert_eq!(m.state, TaskState::Stopped);
}

#[test]
fn pipe_failures_are_refusals() {
    assert!(pipe_write_result("T", PipeWrite::Written).is_ok());
    let err = pipe_write_result("T", PipeWrite::Missing).unwrap_err();
    assert_eq!(
        err.message(),
        "prompt pipe for task T is missing; the worker may have STOPPED, DIED, or been ARCHIVED"
    );
    let err = pipe_write_result("T", PipeWrite::NoReader).unwrap_err();
    assert!(matches!(err, TaskError::PipeNotReading { .. }));
    assert_eq!(
        err.message(),
        "task T is not accepting prompts; the worker may have STOPPED, DIED, or been ARCHIVED"
    );
    assert!(matches!(pipe_write_result("T", PipeWrite::BrokenPipe), Err(TaskError::PipeNotReading { .. })));
    assert_eq!(prompt_line("hello world"), "hello world\n");
}

#[test]
fn status_of_dead_running_task_is_died() {
    let m = meta("task-456", TaskState::Running);
    let snap = active_snapshot(m, Some(999_999), false, None);
    assert_eq!(snap.metadata.state, TaskState::Died);
    assert_eq!(snap.pid, Some(999_999));
    let snap = active_snapshot(meta("t", TaskState::Running), None, false, None);
    assert_eq!(snap.metadata.state, TaskState::Died);
}

#[test]
fn status_backfills_last_result() {
    let snap = active_snapshot(meta("t", TaskState::Running), Some(5), true, Some("from file".to_string()));
    assert_eq!(snap.metadata.state, TaskState::Running);
    assert_eq!(snap.metadata.last_result.as_deref(), Some("from file"));
    let mut m = meta("t", TaskState::Stopped);
    m.last_result = Some("recorded".to_string());
    let snap = active_snapshot(m, None, false, Some("from file".to_string()));
    assert_eq!(snap.metadata.last_result.as_deref(), Some("recorded"));
    let snap = archived_snapshot(meta("task-archived", TaskState::Stopped), Some("final outcome".to_string()));
    assert_eq!(snap.metadata.state, TaskState::Archived);
    assert_eq!(snap.pid, None);
    assert_eq!(snap.metadata.last_result.as_deref(), Some("final outcome"));
}

#[test]
fn stop_of_absent_or_dead_worker_is_already_stopped() {
    assert_eq!(plan_stop(None, false), StopPlan::AlreadyStopped { remove_stale_pid: false });
    assert_eq!(plan_stop(Some(4242), false), StopPlan::AlreadyStopped { remove_stale_pid: true });
    assert_eq!(plan_stop(Some(0), true), StopPlan::AlreadyStopped { remove_stale_pid: true });
    assert_eq!(plan_stop(Some(4242), true), StopPlan::Terminate { pid: 4242 });
}

#[test]
fn shutdown_wait_steps() {
    assert_eq!(shutdown_step(WaitObservation::Reaped, true, 0), ShutdownStep::Exited);
    assert_eq!(shutdown_step(WaitObservation::StillRunning, true, 500), ShutdownStep::KeepWaiting);
    assert_eq!(shutdown_step(WaitObservation::StillRunning, false, 500), ShutdownStep::Exited);
    assert_eq!(shutdown_step(WaitObservation::NotAChild, false, 20_000), ShutdownStep::Exited);
    assert_eq!(shutdown_step(WaitObservation::NotAChild, true, 500), ShutdownStep::KeepWaiting);
    assert_eq!(shutdown_step(WaitObservation::StillRunning, true, 10_000), ShutdownStep::Escalate);
    assert_eq!(shutdown_step(WaitObservation::Failed(4), true, 0), ShutdownStep::WaitFailed(4));
    assert!(after_kill(12, false).is_ok());
    assert_eq!(after_kill(12, true).unwrap_err().message(), "timed out waiting for worker 12 to stop");
}

#[test]
fn archive_refuses_running_task() {
    let r = archive_precheck("task-running", None, Some(meta("task-running", TaskState::Running)), Some(77), true);
    let err = r.unwrap_err();
    assert_eq!(err.message(), "task task-running is RUNNING; stop it before archiving");
    // a stopped record with a live worker is refused too
    let r = archive_precheck("t", None, Some(meta("t", TaskState::Stopped)), Some(77), true);
    assert!(matches!(r, Err(TaskError::RunningCannotArchive { .. })));
}

#[test]
fn archive_precheck_outcomes() {
    let r = archive_precheck("task-xyz", None, None, None, false);
    assert_eq!(r.unwrap_err().message(), "task task-xyz was not found");
    match archive_precheck("t", Some(meta("t", TaskState::Archived)), None, None, false) {
        Ok(ArchivePrecheck::AlreadyArchived { id }) => assert_eq!(id, "t"),
        _ => panic!("expected already archived"),
    }
    match archive_precheck("t", None, Some(meta("t", TaskState::Running)), Some(77), false) {
        Ok(ArchivePrecheck::Proceed { derived, persist_derived, .. }) => {
            assert_eq!(derived, TaskState::Died);
            assert!(persist_derived);
        }
        _ => panic!("expected to proceed"),
    }
    match archive_precheck("t", None, Some(meta("t", TaskState::Stopped)), None, false) {
        Ok(ArchivePrecheck::Proceed { derived, persist_derived, .. }) => {
            assert_eq!(derived, TaskState::Stopped);
            assert!(!persist_derived);
        }
        _ => panic!("expected to proceed"),
    }
}

#[test]
fn archive_move_targets_dated_bucket() {
    let store = TaskStore::new("/s".to_string());
    let now = Timestamp { secs: 1710428966, nanos: 12 };
    let mv = plan_archive_move(&store, meta("task-archive", TaskState::Stopped), now).expect("plan");
    assert_eq!(mv.bucket, "/s/archive/2024/03/14");
    assert_eq!(mv.destination, "/s/archive/2024/03/14/task-archive");
    assert_eq!(mv.record.state, TaskState::Archived);
    assert_eq!(mv.record.updated_at, now);
    assert_eq!(mv.record.id, "task-archive");
    assert!(check_destination_free("t", "/d/t", false).is_ok());
    let err = check_destination_free("t", "/d/t", true).unwrap_err();
    assert_eq!(err.message(), "archive destination /d/t already exists for task t");
}

#[test]
fn service_over_default_store() {
    let service = TaskService::with_default_store("/home/me", false);
    assert_eq!(service.store().root(), "/home/me/.codex/tasks");
    let service = TaskService::new(TaskStore::new("/x".to_string()), true);
    assert_eq!(service.store().archive_root(), "/x/archive");
}

#[test]
fn service_plans_prompt_delivery() {
    let service = TaskService::new(TaskStore::new("/s".to_string()), false);
    let params = SendPromptParams { task_id: "T".to_string(), prompt: "hello world".to_string() };
    let d = service.send_prompt(&params, TaskLookup::Active(meta("T", TaskState::Running))).expect("deliverable");
    assert_eq!(d.pipe_path, "/s/T/task.pipe");
    assert_eq!(d.line, "hello world\n");
    assert_eq!(d.task_id, "T");
    let err = service.send_prompt(&params, TaskLookup::Active(meta("T", TaskState::Died))).unwrap_err();
    assert_eq!(err.message(), "task T has DIED and cannot receive prompts");
    let blank = SendPromptParams { task_id: "T".to_string(), prompt: " ".to_string() };
    assert!(matches!(service.send_prompt(&blank, TaskLookup::Missing), Err(TaskError::EmptyPrompt)));
    let err = service.send_prompt(&params, TaskLookup::Missing).unwrap_err();
    assert_eq!(err.message(), "task T was not found");
}

#[test]
fn service_lists_with_options() {
    let service = TaskService::new(TaskStore::new("/s".to_string()), false);
    let mut a = meta("a", TaskState::Running);
    a.updated_at = Timestamp { secs: 1, nanos: 0 };
    let mut b = meta("b", TaskState::Stopped);
    b.updated_at = Timestamp { secs: 2, nanos: 0 };
    let entries = vec![TaskListEntry { metadata: a }, TaskListEntry { metadata: b }];
    let options = ListTasksOptions { include_archived: false, states: vec![] };
    let ids: Vec<String> = service.list_tasks(entries.clone(), &options).into_iter().map(|e| e.metadata.id).collect();
    assert_eq!(ids, vec!["b".to_string(), "a".to_string()]);
    let options = ListTasksOptions { include_archived: true, states: vec![TaskState::Running] };
    let ids: Vec<String> = service.list_tasks(entries, &options).into_iter().map(|e| e.metadata.id).collect();
    assert_eq!(ids, vec!["a".to_string()]);
}

fn running_delivery(service: &TaskService, id: &str) -> codex_tasks::service::PromptDelivery {
    let params = SendPromptParams { task_id: id.to_string(), prompt: "prompt".to_string() };
    service.send_prompt(&params, TaskLookup::Active(meta(id, TaskState::Running))).expect("deliverable")
}

#[test]
fn send_errors_when_pipe_has_no_reader() {
    let service = TaskService::new(TaskStore::new("/h/.codex/tasks".to_string()), false);
    let d = running_delivery(&service, "no-reader-task");
    assert_eq!(d.pipe_path, "/h/.codex/tasks/no-reader-task/task.pipe");
    let err = service.finish_send(&d, PipeWrite::NoReader).unwrap_err();
    assert!(err.message().contains(
        "task no-reader-task is not accepting prompts; the worker may have STOPPED, DIED, or been ARCHIVED"
    ));
    let err = service.finish_send(&d, PipeWrite::BrokenPipe).unwrap_err();
    assert_eq!(
        err.message(),
        "task no-reader-task is not accepting prompts; the worker may have STOPPED, DIED, or been ARCHIVED"
    );
    assert!(service.finish_send(&d, PipeWrite::Written).is_ok());
}

#[test]
fn send_errors_when_pipe_missing() {
    let service = TaskService::new(TaskStore::new("/h/.codex/tasks".to_string()), false);
    let d = running_delivery(&service, "missing-pipe-task");
    let err = service.finish_send(&d, PipeWrite::Missing).unwrap_err();
    assert_eq!(
        err.message(),
        "prompt pipe for task missing-pipe-task is missing; the worker may have STOPPED, DIED, or been ARCHIVED"
    );
}

#[test]
fn send_returns_error_for_missing_task() {
    let service = TaskService::new(TaskStore::new("/h/.codex/tasks".to_string()), false);
    let params = SendPromptParams { task_id: "missing-task".to_string(), prompt: "prompt".to_string() };
    let err = service.send_prompt(&params, TaskLookup::Missing).unwrap_err();
    assert!(err.message().contains("task missing-task was not found"));
}

#[test]
fn archive_reports_missing_task() {
    let err = archive_precheck("task-xyz", None, None, None, false).unwrap_err();
    assert!(err.message().contains("task task-xyz was not found"));
}

#[test]
fn start_requires_working_dir_when_repo_specified() {
    let params = StartTaskParams {
        title: None,
        prompt: "prompt".to_string(),
        config_file: None,
        working_dir: None,
        repo_url: Some("https://example.com/repo.git".to_string()),
        repo_ref: None,
    };
    let err = validate_start(&params).unwrap_err();
    assert!(err.message().contains("--working-dir"));
}

#[test]
fn stop_handles_missing_task_gracefully() {
    assert_eq!(plan_stop(None, false), StopPlan::AlreadyStopped { remove_stale_pid: false });
    assert_eq!(
        format_stop_outcome_text("task-xyz", StopOutcome::AlreadyStopped),
        "Task task-xyz is not running; nothing to stop."
    );
}

#[test]
fn stop_task_reports_already_stopped_when_pid_missing() {
    let outcome = match plan_stop(None, false) {
        StopPlan::AlreadyStopped { .. } => StopOutcome::AlreadyStopped,
        StopPlan::Terminate { .. } => StopOutcome::Stopped,
    };
    assert_eq!(outcome, StopOutcome::AlreadyStopped);
}

#[test]
fn find_archived_task_returns_metadata_and_paths() {
    let store = TaskStore::new("/tmp/root".to_string());
    let date = CivilDate { year: 2024, month: 5, day: 6 };
    let paths = store.archived_task(date, "task-find".to_string());
    let walked = vec![
        store.archive_root(),
        store.archive_bucket(date),
        paths.directory().to_string(),
    ];
    let i = find_archived_index(&walked, "task-find").expect("task present");
    assert_eq!(walked[i], paths.directory());
    let metadata = meta("task-find", TaskState::Stopped);
    let found = paths.check_metadata(metadata).expect("metadata belongs");
    assert_eq!(found.id, "task-find");
}

#[test]
fn store_ensure_archive_bucket_creates_hierarchy() {
    let store = TaskStore::new("/tmp/root".to_string());
    let date = CivilDate { year: 2024, month: 3, day: 14 };
    let bucket = store.archive_bucket(date);
    assert!(bucket.ends_with("14"));
    let dir = store.archived_task(date, "task-xyz".to_string());
    assert!(dir.directory().ends_with("task-xyz"));
    assert_eq!(dir.directory(), format!("{bucket}/task-xyz"));
}

#[test]
fn storage_ensure_archive_bucket_creates_hierarchy() {
    let store = TaskStore::new("/tmp/root/".to_string());
    let date = CivilDate { year: 2024, month: 3, day: 14 };
    assert_eq!(store.archive_bucket(date), "/tmp/root/archive/2024/03/14");
}

#[test]
fn archive_plan_always_succeeds_in_range() {
    let store = TaskStore::new("/s".to_string());
    for secs in [0i64, 253_402_300_799] {
        let mv = plan_archive_move(&store, meta("t", TaskState::Stopped), Timestamp { secs, nanos: 0 });
        assert!(mv.is_ok());
    }
    let last = plan_archive_move(&store, meta("t", TaskState::Stopped), Timestamp { secs: 253_402_300_799, nanos: 0 })
        .expect("plan");
    assert_eq!(last.bucket, "/s/archive/9999/12/31");
}
