use vstd::prelude::*;

use crate::store::TaskStore;
use crate::task::{state_name, TaskState};

verus! {

/// Lines of a log that the tool server returns when no count is asked for.
pub const DEFAULT_LOG_TAIL: usize = 200;

/// Number of newline characters in `s`.
pub open spec fn newlines(s: Seq<char>) -> nat
    decreases s.len(),
{
    if s.len() == 0 {
        0
    } else {
        (if s[0] == '\n' { 1nat } else { 0nat }) + newlines(s.drop_first())
    }
}

/// Number of lines in `s`: each newline ends one, and a last line may lack
/// its newline.
pub open spec fn line_count(s: Seq<char>) -> nat {
    newlines(s) + if s.len() > 0 && s.last() != '\n' { 1nat } else { 0nat }
}

/// `k` is where a line of `s` starts, or the end of `s`.
pub open spec fn at_line_start(s: Seq<char>, k: int) -> bool {
    0 <= k <= s.len() && (k == 0 || k == s.len() || s[k - 1] == '\n')
}

/// `r` is the tail of `s` made of its last `min(n, lines)` lines, with their
/// newlines as they stand in `s`.
pub open spec fn is_tail(s: Seq<char>, n: nat, r: Seq<char>) -> bool {
    exists|k: int|
        #![trigger s.subrange(k, s.len() as int)]
        at_line_start(s, k) && r == s.subrange(k, s.len() as int) && line_count(r) == if n < line_count(s) {
            n
        } else {
            line_count(s)
        }
}

proof fn lemma_newlines_step(s: Seq<char>, k: int)
    requires
        0 < k <= s.len(),
    ensures
        newlines(s.subrange(k - 1, s.len() as int)) == (if s[k - 1] == '\n' { 1nat } else { 0nat })
            + newlines(s.subrange(k, s.len() as int)),
{
    let t = s.subrange(k - 1, s.len() as int);
    assert(t.drop_first() =~= s.subrange(k, s.len() as int));
    assert(t[0] == s[k - 1]);
}

proof fn lemma_newlines_suffix_le(s: Seq<char>, k: int)
    requires
        0 <= k <= s.len(),
    ensures
        newlines(s.subrange(k, s.len() as int)) <= newlines(s),
    decreases k,
{
    if k == 0 {
        assert(s.subrange(0, s.len() as int) =~= s);
    } else {
        lemma_newlines_step(s, k);
        lemma_newlines_suffix_le(s, k - 1);
    }
}

proof fn lemma_line_count_suffix_le(s: Seq<char>, k: int)
    requires
        0 <= k <= s.len(),
    ensures
        line_count(s.subrange(k, s.len() as int)) <= line_count(s),
{
    lemma_newlines_suffix_le(s, k);
    let t = s.subrange(k, s.len() as int);
    if t.len() > 0 {
        assert(t.last() == s.last());
    }
}

/// The last `n` lines of `content` (all of it when it has fewer).
pub fn tail_lines(content: &str, n: usize) -> (r: String)
    ensures
        is_tail(content@, n as nat, r@),
{
    let ghost s = content@;
    let len = content.unicode_len();
    let mut k: usize = len;
    let mut taken: usize = 0;
    proof {
        assert(s.subrange(len as int, len as int) =~= Seq::<char>::empty());
    }
    while k > 0 && taken < n
        invariant
            len == s.len(),
            s == content@,
            at_line_start(s, k as int),
            taken <= n,
            line_count(s.subrange(k as int, len as int)) == taken,
            k == len ==> taken == 0,
        ensures
            at_line_start(s, k as int),
            line_count(s.subrange(k as int, len as int)) == taken,
            k == 0 || taken == n,
            taken <= n,
        decreases k,
    {
        let ghost k0 = k;
        proof {
            lemma_newlines_step(s, k as int);
        }
        k = k - 1;
        let ghost first_nl: nat = if s[k as int] == '\n' { 1nat } else { 0nat };
        while k > 0 && content.get_char(k - 1) != '\n'
            invariant
                len == s.len(),
                s == content@,
                k < k0 <= len,
                newlines(s.subrange(k as int, len as int)) == first_nl + newlines(s.subrange(k0 as int, len as int)),
            ensures
                k < k0,
                newlines(s.subrange(k as int, len as int)) == first_nl + newlines(s.subrange(k0 as int, len as int)),
                k == 0 || s[k - 1] == '\n',
            decreases k,
        {
            proof {
                lemma_newlines_step(s, k as int);
            }
            k = k - 1;
        }
        proof {
            let t = s.subrange(k as int, len as int);
            let t0 = s.subrange(k0 as int, len as int);
            assert(t.len() > 0);
            assert(t.last() == s.last());
            if k0 == len {
                assert(t0.len() == 0);
                assert(newlines(t0) == 0);
            } else {
                assert(s[k0 - 1] == '\n');
                assert(t0.last() == s.last());
            }
        }
        taken = taken + 1;
    }
    proof {
        let r = s.subrange(k as int, len as int);
        if k == 0 {
            assert(r =~= s);
        }
        lemma_line_count_suffix_le(s, k as int);
        assert(at_line_start(s, k as int) && r == s.subrange(k as int, s.len() as int));
    }
    String::from_str(content.substring_char(k, len))
}

/// What is printed of a log before any following: all of it, or its last
/// `limit` lines.
pub fn initial_log_output(content: &str, limit: Option<usize>) -> (r: String)
    ensures
        match limit {
            None => r@ == content@,
            Some(n) => is_tail(content@, n as nat, r@),
        },
{
    match limit {
        None => String::from_str(content),
        Some(n) => tail_lines(content, n),
    }
}

/// Where the state of a followed task comes from.
#[derive(Clone, Debug)]
pub enum FollowMetadata {
    /// The task is active: its state is read from the store on each check.
    Active { store: TaskStore },
    /// The task is archived in this state.
    Archived { state: TaskState },
    /// Nothing is known of the task.
    Missing,
}

/// A log to print, with what is needed to decide when following it ends.
#[derive(Clone, Debug)]
pub struct LogDescriptor {
    pub task_id: String,
    pub path: String,
    pub metadata: FollowMetadata,
}

/// What following a log met: a new line, or the end of the log together with
/// the task's state at that moment (`None` when it could not be read).
#[derive(Clone, Copy, Debug, PartialEq, Eq, Structural)]
pub enum FollowEvent {
    Line,
    EndOfLog(Option<TaskState>),
}

/// The next step of following a log.
#[derive(Clone, Copy, Debug, PartialEq, Eq, Structural)]
pub enum FollowAction {
    /// Print the line just read.
    Print,
    /// Sleep a quarter second and read again.
    Wait,
    /// Stop following: the task reached this state.
    StopAt(TaskState),
    /// Stop following: the task's state could not be read.
    StopUnavailable,
}

pub open spec fn follow_step_spec(idle_pending: bool, forever: bool, event: FollowEvent) -> (bool, FollowAction) {
    match event {
        FollowEvent::Line => (false, FollowAction::Print),
        FollowEvent::EndOfLog(state) => if forever {
            (idle_pending, FollowAction::Wait)
        } else {
            match state {
                Some(TaskState::Running) => (false, FollowAction::Wait),
                Some(TaskState::Stopped) => if idle_pending {
                    (true, FollowAction::StopAt(TaskState::Stopped))
                } else {
                    (true, FollowAction::Wait)
                },
                Some(st) => (idle_pending, FollowAction::StopAt(st)),
                None => (idle_pending, FollowAction::StopUnavailable),
            }
        },
    }
}

/// One step of following a log. A task found STOPPED at two ends of the log in
/// a row, with no line in between, ends the follow, as does a DIED or ARCHIVED
/// task or an unreadable state; with `forever` only an interrupt ends it.
/// Returns the new "stopped once already" flag and the action.
pub fn follow_step(idle_pending: bool, forever: bool, event: FollowEvent) -> (r: (bool, FollowAction))
    ensures
        r == follow_step_spec(idle_pending, forever, event),
{
    match event {
        FollowEvent::Line => (false, FollowAction::Print),
        FollowEvent::EndOfLog(state) => {
            if forever {
                return (idle_pending, FollowAction::Wait);
            }
            match state {
                Some(TaskState::Running) => (false, FollowAction::Wait),
                Some(TaskState::Stopped) => if idle_pending {
                    (true, FollowAction::StopAt(TaskState::Stopped))
                } else {
                    (true, FollowAction::Wait)
                },
                Some(st) => (idle_pending, FollowAction::StopAt(st)),
                None => (idle_pending, FollowAction::StopUnavailable),
            }
        },
    }
}

/// The notice printed when following stops.
pub fn follow_stop_message(task_id: &str, action: FollowAction) -> (r: Option<String>)
    ensures
        match action {
            FollowAction::StopAt(st) => r matches Some(m) && m@ == "Task "@ + task_id@ + " is "@ + state_name(st)
                + "; stopping log follow."@,
            FollowAction::StopUnavailable => r matches Some(m) && m@ == "Task "@ + task_id@
                + " state unavailable; stopping log follow."@,
            _ => r is None,
        },
{
    match action {
        FollowAction::StopAt(st) => {
            let mut m = String::from_str("Task ");
            m.append(task_id);
            m.append(" is ");
            m.append(st.as_str());
            m.append("; stopping log follow.");
            Some(m)
        },
        FollowAction::StopUnavailable => {
            let mut m = String::from_str("Task ");
            m.append(task_id);
            m.append(" state unavailable; stopping log follow.");
            Some(m)
        },
        _ => None,
    }
}

} // verus!
