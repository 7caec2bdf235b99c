use vstd::prelude::*;

use crate::task::TaskState;

verus! {

/// What the null signal reported when it was sent to a recorded process id.
#[derive(Clone, Copy, Debug, PartialEq, Eq, Structural)]
pub enum ProbeResult {
    /// The signal could be delivered: the process exists.
    Delivered,
    /// The kernel reported that no such process exists.
    NoSuchProcess,
    /// The process exists but belongs to another user.
    PermissionDenied,
    /// Any other failure, with its OS error code.
    Failed(i32),
}

/// A probe that could not be interpreted as alive or gone.
#[derive(Clone, Copy, Debug, PartialEq, Eq, Structural)]
pub struct ProbeError {
    pub pid: i32,
    pub code: i32,
}

/// The state that reconciling a stored state with worker liveness yields.
pub open spec fn derived_state(stored: TaskState, live: bool) -> TaskState {
    if live {
        match stored {
            TaskState::Died => TaskState::Running,
            other => other,
        }
    } else {
        match stored {
            TaskState::Running => TaskState::Died,
            other => other,
        }
    }
}

/// Whether a recorded pid counts as a live worker: a pid file exists, the pid
/// is positive and the probe found the process.
pub open spec fn pid_is_live(pid: Option<i32>, probe_alive: bool) -> bool {
    match pid {
        Some(p) => p > 0 && probe_alive,
        None => false,
    }
}

/// Only positive pids are probed; others are never alive.
pub fn probe_needed(pid: i32) -> (r: bool)
    ensures
        r == (pid > 0),
{
    pid > 0
}

/// Interprets the outcome of sending the null signal to `pid`.
pub fn interpret_probe(pid: i32, probe: ProbeResult) -> (r: Result<bool, ProbeError>)
    ensures
        pid <= 0 ==> r == Ok::<bool, ProbeError>(false),
        pid > 0 ==> match probe {
            ProbeResult::Delivered => r == Ok::<bool, ProbeError>(true),
            ProbeResult::PermissionDenied => r == Ok::<bool, ProbeError>(true),
            ProbeResult::NoSuchProcess => r == Ok::<bool, ProbeError>(false),
            ProbeResult::Failed(code) => r == Err::<bool, ProbeError>(ProbeError { pid, code }),
        },
{
    if pid <= 0 {
        return Ok(false);
    }
    match probe {
        ProbeResult::Delivered => Ok(true),
        ProbeResult::PermissionDenied => Ok(true),
        ProbeResult::NoSuchProcess => Ok(false),
        ProbeResult::Failed(code) => Err(ProbeError { pid, code }),
    }
}

/// Derives the effective task state from the stored state, the pid recorded
/// in the pid file (if any) and whether probing that pid found a process.
/// `probe_alive` is not consulted when there is no pid or the pid is not positive.
pub fn derive_active_state(metadata_state: &TaskState, pid: Option<i32>, probe_alive: bool) -> (r: TaskState)
    ensures
        r == derived_state(*metadata_state, pid_is_live(pid, probe_alive)),
{
    if let Some(p) = pid {
        if p > 0 && probe_alive {
            return match metadata_state {
                TaskState::Running => TaskState::Running,
                TaskState::Stopped => TaskState::Stopped,
                TaskState::Archived => TaskState::Archived,
                TaskState::Died => TaskState::Running,
            };
        }
    }
    derive_state_without_pid(*metadata_state)
}

/// The effective state of a task that has no live worker.
pub fn derive_state_without_pid(metadata_state: TaskState) -> (r: TaskState)
    ensures
        r == derived_state(metadata_state, false),
{
    match metadata_state {
        TaskState::Running => TaskState::Died,
        other => other,
    }
}

/// The reconciliation table: each row of stored state, presence of a pid file
/// and probe outcome, with the state it derives to.
pub proof fn lemma_derivation_table(pid: i32)
    requires
        pid > 0,
    ensures
        derived_state(TaskState::Running, pid_is_live(Some(pid), true)) == TaskState::Running,
        derived_state(TaskState::Running, pid_is_live(Some(pid), false)) == TaskState::Died,
        derived_state(TaskState::Running, pid_is_live(None, false)) == TaskState::Died,
        forall|present: Option<i32>, alive: bool|
            derived_state(TaskState::Stopped, #[trigger] pid_is_live(present, alive)) == TaskState::Stopped,
        forall|present: Option<i32>, alive: bool|
            derived_state(TaskState::Archived, #[trigger] pid_is_live(present, alive)) == TaskState::Archived,
        derived_state(TaskState::Died, pid_is_live(Some(pid), true)) == TaskState::Running,
        derived_state(TaskState::Died, pid_is_live(None, false)) == TaskState::Died,
        forall|alive: bool| #[trigger] pid_is_live(None, alive) == false,
        forall|p: i32, alive: bool| p <= 0 ==> !#[trigger] pid_is_live(Some(p), alive),
{
}

} // verus!
