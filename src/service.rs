use vstd::prelude::*;

use crate::errors::{error_message, TaskError};
use crate::listing::{is_selection, select_tasks, selection, ListTasksOptions, TaskListEntry};
use crate::liveness::{derived_state, pid_is_live, ProbeError};
use crate::store::{bucket_of, join_path, TaskStore};
use crate::task::{TaskMetadata, TaskState};
use crate::text::{trim_text, trimmed};
use crate::time::{civil_date_of, utc_date, CivilDate, Timestamp};

verus! {

/// Seconds the service waits for a signalled worker before escalating to SIGKILL.
pub const SHUTDOWN_TIMEOUT_SECS: u64 = 10;
/// Interval between two checks of a worker that is shutting down.
pub const SHUTDOWN_POLL_INTERVAL_MS: u64 = 100;
/// Seconds a log reader waits for an active task's log to appear.
pub const LOG_WAIT_TIMEOUT_SECS: u64 = 10;
/// Interval between two checks for an active task's log.
pub const LOG_WAIT_POLL_INTERVAL_MS: u64 = 100;

/// Stateless façade over a task store, shared by the command line and the
/// JSON-RPC surface.
#[derive(Clone, Debug)]
pub struct TaskService {
    store: TaskStore,
    _allow_unsafe: bool,
}

impl TaskService {
    /// A service backed by `store`.
    pub fn new(store: TaskStore, allow_unsafe: bool) -> (r: TaskService)
        ensures
            r.store_spec() == store,
    {
        TaskService { store, _allow_unsafe: allow_unsafe }
    }

    /// A service over the default store of the user whose home is `home`.
    pub fn with_default_store(home: &str, allow_unsafe: bool) -> (r: TaskService)
        ensures
            r.store_spec().root_view() == join_path(join_path(home@, ".codex"@), "tasks"@),
    {
        TaskService { store: TaskStore::under_home(home), _allow_unsafe: allow_unsafe }
    }

    pub closed spec fn store_spec(&self) -> TaskStore {
        self.store
    }

    /// The store the service works on.
    pub fn store(&self) -> (r: &TaskStore)
        ensures
            *r == self.store_spec(),
    {
        &self.store
    }
}

/// What delivering a prompt writes, and where.
#[derive(Clone, Debug)]
pub struct PromptDelivery {
    pub task_id: String,
    /// The task's FIFO.
    pub pipe_path: String,
    /// The prompt and its newline.
    pub line: String,
}

impl TaskService {
    /// Decides how a prompt reaches a task, given where the task's metadata
    /// was found: a blank prompt is refused, then the task must be found in
    /// the active tree with a stored state of RUNNING or STOPPED. The prompt
    /// line then goes to `<root>/<id>/task.pipe`.
    pub fn send_prompt(&self, params: &SendPromptParams, lookup: TaskLookup) -> (r: Result<PromptDelivery, TaskError>)
        ensures
            !prompt_accepted(params.prompt@) ==> (r matches Err(e) && e is EmptyPrompt),
            prompt_accepted(params.prompt@) ==> match lookup {
                TaskLookup::Active(m) => match m.state {
                    TaskState::Archived => r matches Err(TaskError::ArchivedCannotReceive { id }) && id == m.id,
                    TaskState::Died => r matches Err(TaskError::DiedCannotReceive { id }) && id == m.id,
                    _ => r matches Ok(d) && d.task_id == m.id && d.line@ == params.prompt@ + seq!['\n']
                        && d.pipe_path@ == join_path(join_path(self.store_spec().root_view(), m.id@), "task.pipe"@),
                },
                TaskLookup::Archived(m) => r matches Err(TaskError::ArchivedCannotReceive { id }) && id == m.id,
                TaskLookup::Missing => r matches Err(TaskError::NotFound { id }) && id@ == params.task_id@,
            },
    {
        match validate_prompt(params.prompt.as_str()) {
            Ok(()) => {},
            Err(e) => return Err(e),
        }
        let m = match send_target(params.task_id.as_str(), lookup) {
            Ok(m) => m,
            Err(e) => return Err(e),
        };
        let paths = self.store.task(String::from_str(m.id.as_str()));
        Ok(PromptDelivery { task_id: m.id, pipe_path: paths.pipe_path(), line: prompt_line(params.prompt.as_str()) })
    }

    /// The outcome of writing a planned prompt line onto the task's FIFO:
    /// success once written, and otherwise a refusal that names the task and
    /// says the worker may have stopped, died or been archived.
    pub fn finish_send(&self, delivery: &PromptDelivery, write: PipeWrite) -> (r: Result<(), TaskError>)
        ensures
            write == PipeWrite::Written <==> r is Ok,
            write == PipeWrite::Missing ==> (r matches Err(e) && e is PipeMissing && error_message(e)
                == "prompt pipe for task "@ + delivery.task_id@
                + " is missing; the worker may have STOPPED, DIED, or been ARCHIVED"@),
            (write == PipeWrite::NoReader || write == PipeWrite::BrokenPipe) ==> (r matches Err(e)
                && e is PipeNotReading && error_message(e) == "task "@ + delivery.task_id@
                + " is not accepting prompts; the worker may have STOPPED, DIED, or been ARCHIVED"@),
    {
        pipe_write_result(delivery.task_id.as_str(), write)
    }

    /// Selects and orders collected task entries as the listing options ask:
    /// newest first, entries updated at the same time in their given order,
    /// and only the requested states (all when none are).
    pub fn list_tasks(&self, entries: Vec<TaskListEntry>, options: &ListTasksOptions) -> (r: Vec<TaskListEntry>)
        ensures
            r@ == selection(entries@, options.states@),
            is_selection(entries@, options.states@, r@),
    {
        select_tasks(entries, &options.states)
    }
}

/// Parameters of a prompt sent to an existing task.
#[derive(Clone, Debug)]
pub struct SendPromptParams {
    pub task_id: String,
    pub prompt: String,
}

/// Where a task's metadata was found.
#[derive(Clone, Debug)]
pub enum TaskLookup {
    /// In the task's directory under the store root.
    Active(TaskMetadata),
    /// Only in a directory of the archive tree.
    Archived(TaskMetadata),
    /// Nowhere.
    Missing,
}

/// A prompt is accepted when it holds something besides whitespace.
pub open spec fn prompt_accepted(prompt: Seq<char>) -> bool {
    trimmed(prompt).len() > 0
}

/// Checks a prompt already stripped of surrounding whitespace.
pub fn check_trimmed_prompt(trimmed_prompt: &str) -> (r: Result<(), TaskError>)
    ensures
        r is Ok <==> trimmed_prompt@.len() > 0,
        r matches Err(e) ==> e is EmptyPrompt,
{
    if trimmed_prompt.unicode_len() == 0 {
        Err(TaskError::EmptyPrompt)
    } else {
        Ok(())
    }
}

/// Refuses an empty or whitespace-only prompt.
pub fn validate_prompt(prompt: &str) -> (r: Result<(), TaskError>)
    ensures
        r is Ok <==> prompt_accepted(prompt@),
        r matches Err(e) ==> e is EmptyPrompt,
{
    check_trimmed_prompt(trim_text(prompt))
}

/// Decides whether a prompt may be delivered to a task: only a task found in
/// the active tree whose stored state is RUNNING or STOPPED accepts prompts.
pub fn send_target(task_id: &str, lookup: TaskLookup) -> (r: Result<TaskMetadata, TaskError>)
    ensures
        match lookup {
            TaskLookup::Active(m) => match m.state {
                TaskState::Archived => r matches Err(TaskError::ArchivedCannotReceive { id }) && id == m.id,
                TaskState::Died => r matches Err(TaskError::DiedCannotReceive { id }) && id == m.id,
                _ => r matches Ok(t) && t == m,
            },
            TaskLookup::Archived(m) => r matches Err(TaskError::ArchivedCannotReceive { id }) && id == m.id,
            TaskLookup::Missing => r matches Err(TaskError::NotFound { id }) && id@ == task_id@,
        },
{
    match lookup {
        TaskLookup::Active(m) => match m.state {
            TaskState::Archived => Err(TaskError::ArchivedCannotReceive { id: m.id }),
            TaskState::Died => Err(TaskError::DiedCannotReceive { id: m.id }),
            _ => Ok(m),
        },
        TaskLookup::Archived(m) => Err(TaskError::ArchivedCannotReceive { id: m.id }),
        TaskLookup::Missing => Err(TaskError::NotFound { id: String::from_str(task_id) }),
    }
}

/// What happened when the prompt was written to the task's FIFO.
#[derive(Clone, Copy, Debug, PartialEq, Eq, Structural)]
pub enum PipeWrite {
    /// The line was written and flushed.
    Written,
    /// The FIFO does not exist.
    Missing,
    /// Opening for write found no reader (`ENXIO`).
    NoReader,
    /// The reader went away during the write (`EPIPE`).
    BrokenPipe,
}

/// Classifies the delivery of a prompt line onto a task's FIFO.
pub fn pipe_write_result(task_id: &str, write: PipeWrite) -> (r: Result<(), TaskError>)
    ensures
        write == PipeWrite::Written <==> r is Ok,
        write == PipeWrite::Missing ==> (r matches Err(TaskError::PipeMissing { id }) && id@ == task_id@),
        (write == PipeWrite::NoReader || write == PipeWrite::BrokenPipe) ==> (r matches Err(
            TaskError::PipeNotReading { id },
        ) && id@ == task_id@),
{
    match write {
        PipeWrite::Written => Ok(()),
        PipeWrite::Missing => Err(TaskError::PipeMissing { id: String::from_str(task_id) }),
        PipeWrite::NoReader => Err(TaskError::PipeNotReading { id: String::from_str(task_id) }),
        PipeWrite::BrokenPipe => Err(TaskError::PipeNotReading { id: String::from_str(task_id) }),
    }
}

/// The bytes written to the FIFO for one prompt: the prompt and a newline.
pub fn prompt_line(prompt: &str) -> (r: String)
    ensures
        r@ == prompt@ + seq!['\n'],
{
    let mut s = String::from_str(prompt);
    s.append("\n");
    proof {
        reveal_strlit("\n");
    }
    s
}

/// Metadata and runtime information of one task.
#[derive(Clone, Debug)]
pub struct TaskStatusSnapshot {
    pub metadata: TaskMetadata,
    pub pid: Option<i32>,
}

/// The last result that a status reports: the one in the metadata, else the
/// one in the result file.
pub open spec fn backfilled(recorded: Option<String>, from_file: Option<String>) -> Option<String> {
    if recorded is Some {
        recorded
    } else {
        from_file
    }
}

/// The status of an active task: its state reconciled with worker liveness,
/// and its last result taken from the result file where the metadata has none.
pub fn active_snapshot(
    metadata: TaskMetadata,
    pid: Option<i32>,
    probe_alive: bool,
    result_file: Option<String>,
) -> (r: TaskStatusSnapshot)
    ensures
        r.metadata == (TaskMetadata {
            state: derived_state(metadata.state, pid_is_live(pid, probe_alive)),
            last_result: backfilled(metadata.last_result, result_file),
            ..metadata
        }),
        r.pid == pid,
{
    let state = crate::liveness::derive_active_state(&metadata.state, pid, probe_alive);
    let mut metadata = metadata;
    metadata.state = state;
    if metadata.last_result.is_none() {
        metadata.last_result = result_file;
    }
    TaskStatusSnapshot { metadata, pid }
}

/// The status of a task found only in the archive: ARCHIVED, with no pid.
pub fn archived_snapshot(metadata: TaskMetadata, result_file: Option<String>) -> (r: TaskStatusSnapshot)
    ensures
        r.metadata == (TaskMetadata {
            state: TaskState::Archived,
            last_result: backfilled(metadata.last_result, result_file),
            ..metadata
        }),
        r.pid is None,
{
    let mut metadata = metadata;
    metadata.state = TaskState::Archived;
    if metadata.last_result.is_none() {
        metadata.last_result = result_file;
    }
    TaskStatusSnapshot { metadata, pid: None }
}

/// Outcome of stopping one task.
#[derive(Clone, Copy, Debug, PartialEq, Eq, Structural)]
pub enum StopOutcome {
    AlreadyStopped,
    Stopped,
}

/// What stopping a task starts with, once its pid file has been read and its
/// pid probed.
#[derive(Clone, Copy, Debug, PartialEq, Eq, Structural)]
pub enum StopPlan {
    /// Nothing runs: report `AlreadyStopped`, removing a stale pid file if one exists.
    /// Metadata is left as it is.
    AlreadyStopped { remove_stale_pid: bool },
    /// Send SIGTERM to the worker and wait for it to exit.
    Terminate { pid: i32 },
}

pub open spec fn stop_plan_spec(pid: Option<i32>, probe_alive: bool) -> StopPlan {
    match pid {
        None => StopPlan::AlreadyStopped { remove_stale_pid: false },
        Some(p) => if pid_is_live(pid, probe_alive) {
            StopPlan::Terminate { pid: p }
        } else {
            StopPlan::AlreadyStopped { remove_stale_pid: true }
        },
    }
}

/// Decides how to stop a task from its recorded pid and the probe of that pid.
pub fn plan_stop(pid: Option<i32>, probe_alive: bool) -> (r: StopPlan)
    ensures
        r == stop_plan_spec(pid, probe_alive),
{
    match pid {
        None => StopPlan::AlreadyStopped { remove_stale_pid: false },
        Some(p) => if p > 0 && probe_alive {
            StopPlan::Terminate { pid: p }
        } else {
            StopPlan::AlreadyStopped { remove_stale_pid: true }
        },
    }
}

/// Stopping a task with no pid file, or whose pid names no live process,
/// reports `AlreadyStopped` and leaves its metadata alone.
pub proof fn lemma_stop_idempotent(pid: Option<i32>, probe_alive: bool)
    requires
        pid is None || !pid_is_live(pid, probe_alive),
    ensures
        stop_plan_spec(pid, probe_alive) is AlreadyStopped,
{
}

/// What a non-blocking `waitpid` on the worker reported.
#[derive(Clone, Copy, Debug, PartialEq, Eq, Structural)]
pub enum WaitObservation {
    /// The worker was reaped.
    Reaped,
    /// The worker is a child that has not exited yet.
    StillRunning,
    /// The worker is not a child of this process (`ECHILD`).
    NotAChild,
    /// `waitpid` failed with another OS error code.
    Failed(i32),
}

/// The next step while waiting for a signalled worker to exit.
#[derive(Clone, Copy, Debug, PartialEq, Eq, Structural)]
pub enum ShutdownStep {
    /// The worker is gone.
    Exited,
    /// Sleep one poll interval and look again.
    KeepWaiting,
    /// The deadline passed: send SIGKILL, sleep one poll interval, then probe once more.
    Escalate,
    /// `waitpid` failed with this OS error code.
    WaitFailed(i32),
}

pub open spec fn shutdown_step_spec(wait: WaitObservation, alive_now: bool, elapsed_ms: u64) -> ShutdownStep {
    match wait {
        WaitObservation::Reaped => ShutdownStep::Exited,
        WaitObservation::Failed(code) => ShutdownStep::WaitFailed(code),
        WaitObservation::NotAChild if !alive_now => ShutdownStep::Exited,
        _ => if elapsed_ms >= SHUTDOWN_TIMEOUT_SECS * 1000 {
            ShutdownStep::Escalate
        } else if !alive_now {
            ShutdownStep::Exited
        } else {
            ShutdownStep::KeepWaiting
        },
    }
}

/// One round of waiting for a worker after SIGTERM, from what `waitpid`
/// reported, whether the worker still answers the null signal, and the time
/// elapsed since SIGTERM was sent.
pub fn shutdown_step(wait: WaitObservation, alive_now: bool, elapsed_ms: u64) -> (r: ShutdownStep)
    ensures
        r == shutdown_step_spec(wait, alive_now, elapsed_ms),
{
    match wait {
        WaitObservation::Reaped => return ShutdownStep::Exited,
        WaitObservation::Failed(code) => return ShutdownStep::WaitFailed(code),
        WaitObservation::NotAChild => {
            if !alive_now {
                return ShutdownStep::Exited;
            }
        },
        WaitObservation::StillRunning => {},
    }
    if elapsed_ms >= SHUTDOWN_TIMEOUT_SECS * 1000 {
        ShutdownStep::Escalate
    } else if !alive_now {
        ShutdownStep::Exited
    } else {
        ShutdownStep::KeepWaiting
    }
}

/// After SIGKILL: a worker that still answers the null signal fails the stop.
pub fn after_kill(pid: i32, alive_now: bool) -> (r: Result<(), TaskError>)
    ensures
        r is Ok <==> !alive_now,
        r matches Err(e) ==> e == (TaskError::StopTimedOut { pid }),
{
    if alive_now {
        Err(TaskError::StopTimedOut { pid })
    } else {
        Ok(())
    }
}

/// Waiting for a worker never outlasts the deadline: once it has passed,
/// each round either finds the worker gone, reports a failure, or escalates.
pub proof fn lemma_shutdown_bounded(wait: WaitObservation, alive_now: bool, elapsed_ms: u64)
    requires
        elapsed_ms >= SHUTDOWN_TIMEOUT_SECS * 1000,
    ensures
        shutdown_step_spec(wait, alive_now, elapsed_ms) != ShutdownStep::KeepWaiting,
{
}

/// A live worker is signalled, and once it stops answering the null signal
/// the wait ends: it is found gone, escalated, or reported as failed.
pub proof fn lemma_stop_of_live_worker(pid: i32)
    requires
        pid > 0,
    ensures
        stop_plan_spec(Some(pid), true) == (StopPlan::Terminate { pid }),
        forall|w: WaitObservation, e: u64|
            #[trigger] shutdown_step_spec(w, false, e) == ShutdownStep::Exited || shutdown_step_spec(w, false, e)
                == ShutdownStep::Escalate || (shutdown_step_spec(w, false, e) is WaitFailed),
{
}

/// Outcome of archiving one task.
#[derive(Clone, Debug)]
pub enum ArchiveTaskOutcome {
    Archived { id: String, destination: String },
    AlreadyArchived { id: String },
}

/// What archiving a task starts with.
#[derive(Clone, Debug)]
pub enum ArchivePrecheck {
    /// The archive tree already holds the task.
    AlreadyArchived { id: String },
    /// The task may be archived. When `persist_derived` holds, its stored
    /// state differs from `derived` and is rewritten first.
    Proceed { metadata: TaskMetadata, derived: TaskState, persist_derived: bool },
}

/// Decides whether a task may be archived: a task already in the archive is
/// reported as such, an unknown one is an error, and one whose worker is alive
/// is refused.
pub fn archive_precheck(
    task_id: &str,
    archived: Option<TaskMetadata>,
    active: Option<TaskMetadata>,
    pid: Option<i32>,
    probe_alive: bool,
) -> (r: Result<ArchivePrecheck, TaskError>)
    ensures
        archived matches Some(a) ==> (r matches Ok(ArchivePrecheck::AlreadyArchived { id }) && id == a.id),
        archived is None && active is None ==> (r matches Err(TaskError::NotFound { id }) && id@ == task_id@),
        archived is None && active is Some ==> {
            let m = active->Some_0;
            let d = derived_state(m.state, pid_is_live(pid, probe_alive));
            if d == TaskState::Running || pid_is_live(pid, probe_alive) {
                r matches Err(TaskError::RunningCannotArchive { id }) && id == m.id
            } else {
                r matches Ok(ArchivePrecheck::Proceed { metadata, derived, persist_derived })
                    && metadata == m && derived == d && persist_derived == (d != m.state)
            }
        },
{
    if let Some(a) = archived {
        return Ok(ArchivePrecheck::AlreadyArchived { id: a.id });
    }
    let m = match active {
        Some(m) => m,
        None => return Err(TaskError::NotFound { id: String::from_str(task_id) }),
    };
    let derived = crate::liveness::derive_active_state(&m.state, pid, probe_alive);
    let live = match pid {
        Some(p) => p > 0 && probe_alive,
        None => false,
    };
    if derived == TaskState::Running || live {
        return Err(TaskError::RunningCannotArchive { id: m.id });
    }
    let persist_derived = derived != m.state;
    Ok(ArchivePrecheck::Proceed { metadata: m, derived, persist_derived })
}

/// The record written just before a task directory moves into the archive.
pub open spec fn archived_record_spec(m: TaskMetadata, now: Timestamp) -> TaskMetadata {
    TaskMetadata { state: TaskState::Archived, updated_at: now, ..m }
}

/// Where, and with what record, a task is moved into the archive.
#[derive(Clone, Debug)]
pub struct ArchiveMove {
    pub record: TaskMetadata,
    pub bucket: String,
    pub destination: String,
}

/// `mv` moves the task of record `m` into the archive at `now`: the record
/// becomes ARCHIVED at `now`, and the destination is `<id>` inside the bucket
/// of the UTC day of `now`.
pub open spec fn is_archive_plan(root: Seq<char>, m: TaskMetadata, now: Timestamp, mv: ArchiveMove) -> bool {
    &&& mv.record == archived_record_spec(m, now)
    &&& exists|d: CivilDate|
        d.wf() && (d.year as int, d.month as int, d.day as int) == civil_date_of(now.secs as int)
            && mv.bucket@ == #[trigger] bucket_of(root, d)
    &&& mv.destination@ == join_path(mv.bucket@, m.id@)
}

/// Plans the move of a task into the archive at `now`: the record becomes
/// ARCHIVED with `updated_at = now`, and the task directory goes to
/// `<archive>/YYYY/MM/DD/<id>` for the UTC day of `now`.
pub fn plan_archive_move(store: &TaskStore, metadata: TaskMetadata, now: Timestamp) -> (r: Result<ArchiveMove, TaskError>)
    ensures
        r matches Ok(mv) ==> is_archive_plan(store.root_view(), metadata, now, mv),
        r matches Err(e) ==> e matches TaskError::TimestampOutOfRange { id } && id@ == metadata.id@,
        crate::time::in_calendar_range(now.secs as int) ==> r is Ok,
{
    let date = match utc_date(now) {
        Some(d) => d,
        None => return Err(TaskError::TimestampOutOfRange { id: String::from_str(metadata.id.as_str()) }),
    };
    let bucket = store.archive_bucket(date);
    let destination = crate::store::join(bucket.as_str(), metadata.id.as_str());
    let mut record = metadata;
    record.state = TaskState::Archived;
    record.updated_at = now;
    Ok(ArchiveMove { record, bucket, destination })
}

/// Refuses to move a task onto an existing archive destination.
pub fn check_destination_free(id: &str, destination: &str, exists: bool) -> (r: Result<(), TaskError>)
    ensures
        r is Ok <==> !exists,
        r matches Err(TaskError::ArchiveDestinationExists { id: i, destination: d }) ==> i@ == id@ && d@ == destination@,
        r matches Err(e) ==> e is ArchiveDestinationExists,
{
    if exists {
        Err(TaskError::ArchiveDestinationExists { id: String::from_str(id), destination: String::from_str(destination) })
    } else {
        Ok(())
    }
}

/// The archived copy of a task is consistent: its record is ARCHIVED, still
/// names the task, and belongs to the destination directory, whose final
/// component is the task id.
pub proof fn lemma_archive_destination_consistent(root: Seq<char>, m: TaskMetadata, now: Timestamp, mv: ArchiveMove)
    requires
        crate::store::is_component(m.id@),
        is_archive_plan(root, m, now, mv),
    ensures
        mv.record.state == TaskState::Archived,
        mv.record.id == m.id,
        crate::store::metadata_belongs(mv.destination@, m.id@, mv.record),
{
    crate::store::lemma_join_last_component(mv.bucket@, m.id@);
}

} // verus!
