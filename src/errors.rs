use vstd::prelude::*;

use crate::liveness::ProbeError;
use crate::store::StoreError;
use crate::text::{decimal, push_decimal};

verus! {

/// Why a task operation was refused or failed.
#[derive(Clone, Debug)]
pub enum TaskError {
    /// A prompt was empty or only whitespace.
    EmptyPrompt,
    /// The task is unknown in both the active and the archived trees.
    NotFound { id: String },
    /// The task is archived and cannot receive prompts.
    ArchivedCannotReceive { id: String },
    /// The task's worker died and the task cannot receive prompts.
    DiedCannotReceive { id: String },
    /// The task's prompt pipe does not exist.
    PipeMissing { id: String },
    /// Nobody reads the task's prompt pipe, or the reader went away mid-write.
    PipeNotReading { id: String },
    /// Archival was asked of a task whose worker is alive.
    RunningCannotArchive { id: String },
    /// The archive destination already exists.
    ArchiveDestinationExists { id: String, destination: String },
    /// The archival timestamp has no calendar day.
    TimestampOutOfRange { id: String },
    /// A repository was given without a working directory to clone it into.
    WorkingDirRequired,
    /// A custom config file was not named `config.toml`.
    ConfigFileName { name: String },
    /// A state name that is none of the four states.
    UnknownState { name: String },
    /// The worker did not shut down before the deadline, even after SIGKILL.
    StopTimedOut { pid: i32 },
    /// The worker's handshake line was empty.
    EmptyHandshake,
    /// A worker was launched without an initial prompt.
    PromptRequired,
    /// A config file path with no parent directory.
    ConfigWithoutParent { path: String },
    /// A metadata record that does not belong to its directory.
    Store(StoreError),
    /// A liveness probe that failed for another reason than the process's absence.
    Probe(ProbeError),
}

/// Decimal notation of a signed integer.
pub open spec fn signed_decimal(n: int) -> Seq<char> {
    if n < 0 {
        seq!['-'] + decimal((-n) as nat)
    } else {
        decimal(n as nat)
    }
}

/// The text that reports an error.
pub open spec fn error_message(e: TaskError) -> Seq<char> {
    match e {
        TaskError::EmptyPrompt => "prompt must not be empty"@,
        TaskError::NotFound { id } => "task "@ + id@ + " was not found"@,
        TaskError::ArchivedCannotReceive { id } => "task "@ + id@ + " is ARCHIVED and cannot receive prompts"@,
        TaskError::DiedCannotReceive { id } => "task "@ + id@ + " has DIED and cannot receive prompts"@,
        TaskError::PipeMissing { id } => "prompt pipe for task "@ + id@
            + " is missing; the worker may have STOPPED, DIED, or been ARCHIVED"@,
        TaskError::PipeNotReading { id } => "task "@ + id@
            + " is not accepting prompts; the worker may have STOPPED, DIED, or been ARCHIVED"@,
        TaskError::RunningCannotArchive { id } => "task "@ + id@ + " is RUNNING; stop it before archiving"@,
        TaskError::ArchiveDestinationExists { id, destination } => "archive destination "@ + destination@
            + " already exists for task "@ + id@,
        TaskError::TimestampOutOfRange { id } => "archival time of task "@ + id@ + " has no calendar day"@,
        TaskError::WorkingDirRequired => "`--working-dir` is required when `--repo` is provided"@,
        TaskError::ConfigFileName { name } => "custom config file must be named `config.toml` (got "@ + name@
            + ")"@,
        TaskError::UnknownState { name } => "unknown task state '"@ + name@ + "'"@,
        TaskError::StopTimedOut { pid } => "timed out waiting for worker "@ + signed_decimal(pid as int)
            + " to stop"@,
        TaskError::EmptyHandshake => "worker returned empty thread identifier"@,
        TaskError::PromptRequired => "initial prompt is required when launching a worker"@,
        TaskError::ConfigWithoutParent { path } => "config file "@ + path@ + " does not have a parent directory"@,
        TaskError::Store(StoreError::IdMismatch { expected, found }) => "metadata id "@ + found@
            + " does not match path "@ + expected@,
        TaskError::Probe(p) => "failed to query status of process "@ + signed_decimal(p.pid as int)
            + " (os error "@ + signed_decimal(p.code as int) + ")"@,
    }
}

/// Appends a signed integer in decimal.
pub fn push_signed_decimal(s: &mut String, n: i32)
    ensures
        final(s)@ == old(s)@ + signed_decimal(n as int),
{
    if n < 0 {
        s.append("-");
        proof {
            reveal_strlit("-");
        }
        let m: i64 = -(n as i64);
        push_decimal(s, m as u64);
        proof {
            assert(s@ =~= old(s)@ + signed_decimal(n as int));
        }
    } else {
        push_decimal(s, n as u64);
    }
}

/// `a + b + c` as one string.
fn concat3(a: &str, b: &str, c: &str) -> (r: String)
    ensures
        r@ == a@ + b@ + c@,
{
    let mut s = String::from_str(a);
    s.append(b);
    s.append(c);
    s
}

impl TaskError {
    /// The text that reports this error.
    pub fn message(&self) -> (r: String)
        ensures
            r@ == error_message(*self),
    {
        match self {
            TaskError::EmptyPrompt => String::from_str("prompt must not be empty"),
            TaskError::NotFound { id } => concat3("task ", id.as_str(), " was not found"),
            TaskError::ArchivedCannotReceive { id } => concat3(
                "task ",
                id.as_str(),
                " is ARCHIVED and cannot receive prompts",
            ),
            TaskError::DiedCannotReceive { id } => concat3(
                "task ",
                id.as_str(),
                " has DIED and cannot receive prompts",
            ),
            TaskError::PipeMissing { id } => concat3(
                "prompt pipe for task ",
                id.as_str(),
                " is missing; the worker may have STOPPED, DIED, or been ARCHIVED",
            ),
            TaskError::PipeNotReading { id } => concat3(
                "task ",
                id.as_str(),
                " is not accepting prompts; the worker may have STOPPED, DIED, or been ARCHIVED",
            ),
            TaskError::RunningCannotArchive { id } => concat3(
                "task ",
                id.as_str(),
                " is RUNNING; stop it before archiving",
            ),
            TaskError::ArchiveDestinationExists { id, destination } => {
                let mut s = concat3("archive destination ", destination.as_str(), " already exists for task ");
                s.append(id.as_str());
                s
            },
            TaskError::TimestampOutOfRange { id } => concat3(
                "archival time of task ",
                id.as_str(),
                " has no calendar day",
            ),
            TaskError::WorkingDirRequired => String::from_str(
                "`--working-dir` is required when `--repo` is provided",
            ),
            TaskError::ConfigFileName { name } => concat3(
                "custom config file must be named `config.toml` (got ",
                name.as_str(),
                ")",
            ),
            TaskError::UnknownState { name } => concat3("unknown task state '", name.as_str(), "'"),
            TaskError::StopTimedOut { pid } => {
                let mut s = String::from_str("timed out waiting for worker ");
                push_signed_decimal(&mut s, *pid);
                s.append(" to stop");
                s
            },
            TaskError::EmptyHandshake => String::from_str("worker returned empty thread identifier"),
            TaskError::PromptRequired => String::from_str("initial prompt is required when launching a worker"),
            TaskError::ConfigWithoutParent { path } => concat3(
                "config file ",
                path.as_str(),
                " does not have a parent directory",
            ),
            TaskError::Store(StoreError::IdMismatch { expected, found }) => {
                let mut s = concat3("metadata id ", found.as_str(), " does not match path ");
                s.append(expected.as_str());
                s
            },
            TaskError::Probe(p) => {
                let mut s = String::from_str("failed to query status of process ");
                push_signed_decimal(&mut s, p.pid);
                s.append(" (os error ");
                push_signed_decimal(&mut s, p.code);
                s.append(")");
                s
            },
        }
    }
}

} // verus!
