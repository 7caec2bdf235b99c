use vstd::prelude::*;

use crate::time::{current_time, Timestamp};

verus! {

/// Lifecycle states of a task.
#[derive(Clone, Copy, Debug, PartialEq, Eq, Structural)]
pub enum TaskState {
    Running,
    Stopped,
    Archived,
    Died,
}

/// The canonical uppercase name of a state.
pub open spec fn state_name(s: TaskState) -> Seq<char> {
    match s {
        TaskState::Running => "RUNNING"@,
        TaskState::Stopped => "STOPPED"@,
        TaskState::Archived => "ARCHIVED"@,
        TaskState::Died => "DIED"@,
    }
}

/// `n` is the name of some state.
pub open spec fn is_state_name(n: Seq<char>) -> bool {
    exists|s: TaskState| state_name(s) == n
}

impl TaskState {
    /// Returns the canonical uppercase representation for this state.
    pub fn as_str(&self) -> (r: &'static str)
        ensures
            r@ == state_name(*self),
    {
        match self {
            TaskState::Running => "RUNNING",
            TaskState::Stopped => "STOPPED",
            TaskState::Archived => "ARCHIVED",
            TaskState::Died => "DIED",
        }
    }

    /// Parses a canonical uppercase state name.
    pub fn parse(name: &str) -> (r: Option<TaskState>)
        ensures
            r matches Some(s) ==> state_name(s) == name@,
            r is None ==> forall|s: TaskState| state_name(s) != name@,
            r is Some <==> is_state_name(name@),
    {
        let candidates = [TaskState::Running, TaskState::Stopped, TaskState::Archived, TaskState::Died];
        let mut i: usize = 0;
        while i < 4
            invariant
                0 <= i <= 4,
                candidates@ == seq![TaskState::Running, TaskState::Stopped, TaskState::Archived, TaskState::Died],
                forall|j: int| 0 <= j < i ==> state_name(#[trigger] candidates@[j]) != name@,
            decreases 4 - i,
        {
            let c = candidates[i];
            if str_eq(c.as_str(), name) {
                return Some(c);
            }
            i = i + 1;
        }
        proof {
            assert forall|s: TaskState| state_name(s) != name@ by {
                match s {
                    TaskState::Running => assert(candidates@[0] == s),
                    TaskState::Stopped => assert(candidates@[1] == s),
                    TaskState::Archived => assert(candidates@[2] == s),
                    TaskState::Died => assert(candidates@[3] == s),
                }
            }
        }
        None
    }
}

/// Character-wise equality of two strings.
pub fn str_eq(a: &str, b: &str) -> (r: bool)
    ensures
        r == (a@ == b@),
{
    let n = a.unicode_len();
    if n != b.unicode_len() {
        return false;
    }
    let mut i: usize = 0;
    while i < n
        invariant
            n == a@.len(),
            n == b@.len(),
            0 <= i <= n,
            forall|j: int| 0 <= j < i ==> a@[j] == b@[j],
        decreases n - i,
    {
        if a.get_char(i) != b.get_char(i) {
            return false;
        }
        i = i + 1;
    }
    proof {
        assert(a@ =~= b@);
    }
    true
}

/// Metadata tracked for each task on disk.
#[derive(Clone, Debug)]
pub struct TaskMetadata {
    pub id: String,
    pub title: Option<String>,
    pub state: TaskState,
    pub created_at: Timestamp,
    pub updated_at: Timestamp,
    pub last_result: Option<String>,
    pub initial_prompt: Option<String>,
    pub last_prompt: Option<String>,
    pub config_path: Option<String>,
    pub working_dir: Option<String>,
}

impl TaskMetadata {
    /// A fresh record: both timestamps are the current time and every optional
    /// field but the title is absent.
    pub fn new(id: String, title: Option<String>, state: TaskState) -> (r: TaskMetadata)
        ensures
            r.id == id,
            r.title == title,
            r.state == state,
            r.created_at == r.updated_at,
            r.last_result is None,
            r.initial_prompt is None,
            r.last_prompt is None,
            r.config_path is None,
            r.working_dir is None,
    {
        let now = current_time();
        TaskMetadata {
            id,
            title,
            state,
            created_at: now,
            updated_at: now,
            last_result: None,
            initial_prompt: None,
            last_prompt: None,
            config_path: None,
            working_dir: None,
        }
    }

    /// Sets `updated_at` to `now`, leaving every other field as it was.
    pub fn touch_at(&mut self, now: Timestamp)
        ensures
            *final(self) == (TaskMetadata { updated_at: now, ..*old(self) }),
    {
        self.updated_at = now;
    }

    /// Sets `updated_at` to the current time, leaving every other field as it was.
    pub fn touch(&mut self)
        ensures
            *final(self) == (TaskMetadata { updated_at: final(self).updated_at, ..*old(self) }),
    {
        let now = current_time();
        self.touch_at(now);
    }

    /// Sets the state and refreshes `updated_at` to the current time.
    pub fn set_state(&mut self, state: TaskState)
        ensures
            *final(self) == (TaskMetadata { state, updated_at: final(self).updated_at, ..*old(self) }),
    {
        self.state = state;
        self.touch();
    }
}

} // verus!
