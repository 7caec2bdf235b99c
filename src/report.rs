use vstd::prelude::*;

use crate::errors::TaskError;
use crate::listing::TaskListEntry;
use crate::errors::{push_signed_decimal, signed_decimal};
use crate::service::{ArchiveTaskOutcome, StopOutcome, TaskStatusSnapshot};
use crate::time::{in_calendar_range, rfc3339_of, rfc3339_text, Timestamp};
use crate::task::{is_state_name, state_name, TaskState};
use crate::text::{decimal, push_decimal, trim_text, trimmed, uppercase_text, uppercased};

verus! {

/// Lines joined with a newline between consecutive ones.
pub open spec fn join_lines(lines: Seq<Seq<char>>) -> Seq<char>
    decreases lines.len(),
{
    if lines.len() == 0 {
        Seq::empty()
    } else if lines.len() == 1 {
        lines[0]
    } else {
        join_lines(lines.drop_last()) + seq!['\n'] + lines.last()
    }
}

/// Appends one more line to text built by `join_lines`.
fn append_line(out: &mut String, first: bool, lines: Ghost<Seq<Seq<char>>>, line: &str)
    requires
        old(out)@ == join_lines(lines@),
        first == (lines@.len() == 0),
    ensures
        final(out)@ == join_lines(lines@.push(line@)),
{
    let ghost next = lines@.push(line@);
    proof {
        assert(next.drop_last() =~= lines@);
    }
    if !first {
        out.append("\n");
        proof {
            reveal_strlit("\n");
        }
    } else {
        proof {
            assert(lines@.len() == 0);
        }
    }
    out.append(line);
    proof {
        if lines@.len() == 0 {
            assert(join_lines(next) == line@);
            assert(out@ =~= line@);
        } else {
            assert(out@ =~= join_lines(lines@) + seq!['\n'] + line@);
        }
    }
}

/// Report of stopping one task among several.
#[derive(Clone, Debug)]
pub struct StopTaskReport {
    pub task_id: String,
    pub outcome: StopOutcome,
}

/// The machine-readable name of a stop outcome.
pub fn format_stop_outcome(outcome: &StopOutcome) -> (r: &'static str)
    ensures
        *outcome == StopOutcome::AlreadyStopped ==> r@ == "already_stopped"@,
        *outcome == StopOutcome::Stopped ==> r@ == "stopped"@,
{
    match outcome {
        StopOutcome::AlreadyStopped => "already_stopped",
        StopOutcome::Stopped => "stopped",
    }
}

pub open spec fn stop_text(id: Seq<char>, outcome: StopOutcome) -> Seq<char> {
    match outcome {
        StopOutcome::AlreadyStopped => "Task "@ + id + " is not running; nothing to stop."@,
        StopOutcome::Stopped => "Task "@ + id + " stopped."@,
    }
}

/// The line that reports stopping one task.
pub fn format_stop_outcome_text(task_id: &str, outcome: StopOutcome) -> (r: String)
    ensures
        r@ == stop_text(task_id@, outcome),
{
    let mut s = String::from_str("Task ");
    s.append(task_id);
    match outcome {
        StopOutcome::AlreadyStopped => s.append(" is not running; nothing to stop."),
        StopOutcome::Stopped => s.append(" stopped."),
    }
    s
}

/// How many reports carry `outcome`.
pub open spec fn count_outcome(reports: Seq<StopTaskReport>, outcome: StopOutcome) -> nat
    decreases reports.len(),
{
    if reports.len() == 0 {
        0
    } else {
        count_outcome(reports.drop_last(), outcome) + if reports.last().outcome == outcome { 1nat } else { 0nat }
    }
}

pub open spec fn stop_report_lines(reports: Seq<StopTaskReport>) -> Seq<Seq<char>> {
    Seq::new(reports.len(), |i: int| stop_text(reports[i].task_id@, reports[i].outcome))
}

pub open spec fn stop_summary_line(reports: Seq<StopTaskReport>) -> Seq<char> {
    "Stopped "@ + decimal(count_outcome(reports, StopOutcome::Stopped)) + " running task(s); "@
        + decimal(count_outcome(reports, StopOutcome::AlreadyStopped)) + " already stopped."@
}

/// The text that reports stopping every running task: one line per task and
/// a count of each outcome, or a notice that nothing ran.
pub fn format_stop_reports(reports: &Vec<StopTaskReport>) -> (r: String)
    ensures
        reports@.len() == 0 ==> r@ == "No running tasks to stop."@,
        reports@.len() > 0 ==> r@ == join_lines(stop_report_lines(reports@).push(stop_summary_line(reports@))),
{
    if reports.len() == 0 {
        return String::from_str("No running tasks to stop.");
    }
    let mut out = String::new();
    let mut stopped: u64 = 0;
    let mut already: u64 = 0;
    let mut i: usize = 0;
    while i < reports.len()
        invariant
            i <= reports@.len(),
            out@ == join_lines(stop_report_lines(reports@.take(i as int))),
            stopped == count_outcome(reports@.take(i as int), StopOutcome::Stopped),
            already == count_outcome(reports@.take(i as int), StopOutcome::AlreadyStopped),
            stopped + already == i,
        decreases reports@.len() - i,
    {
        let report = &reports[i];
        let line = format_stop_outcome_text(report.task_id.as_str(), report.outcome);
        let ghost prefix = stop_report_lines(reports@.take(i as int));
        append_line(&mut out, i == 0, Ghost(prefix), line.as_str());
        proof {
            assert(stop_report_lines(reports@.take(i + 1)) =~= prefix.push(line@));
            assert(reports@.take(i + 1).drop_last() =~= reports@.take(i as int));
        }
        match report.outcome {
            StopOutcome::Stopped => stopped = stopped + 1,
            StopOutcome::AlreadyStopped => already = already + 1,
        }
        i = i + 1;
    }
    proof {
        assert(reports@.take(i as int) =~= reports@);
    }
    let mut summary = String::from_str("Stopped ");
    push_decimal(&mut summary, stopped);
    summary.append(" running task(s); ");
    push_decimal(&mut summary, already);
    summary.append(" already stopped.");
    append_line(&mut out, false, Ghost(stop_report_lines(reports@)), summary.as_str());
    out
}

/// The line that reports archiving one task.
pub fn format_archive_outcome(outcome: &ArchiveTaskOutcome) -> (r: String)
    ensures
        match outcome {
            ArchiveTaskOutcome::Archived { id, destination } => r@ == "Task "@ + id@ + " archived to "@
                + destination@ + "."@,
            ArchiveTaskOutcome::AlreadyArchived { id } => r@ == "Task "@ + id@ + " is already archived."@,
        },
{
    let mut s = String::from_str("Task ");
    match outcome {
        ArchiveTaskOutcome::Archived { id, destination } => {
            s.append(id.as_str());
            s.append(" archived to ");
            s.append(destination.as_str());
            s.append(".");
        },
        ArchiveTaskOutcome::AlreadyArchived { id } => {
            s.append(id.as_str());
            s.append(" is already archived.");
        },
    }
    s
}

/// Summary of archiving every STOPPED or DIED task.
#[derive(Clone, Debug)]
pub struct ArchiveAllSummary {
    /// Tasks left alone because they run, with their state.
    pub skipped: Vec<(String, TaskState)>,
    /// Tasks moved into the archive, with their destination.
    pub archived: Vec<(String, String)>,
    /// Tasks that were already in the archive.
    pub already: Vec<String>,
    /// Tasks that could not be archived, with the reason.
    pub failures: Vec<(String, String)>,
}

impl ArchiveAllSummary {
    /// Files the result of archiving one candidate under archived, already
    /// archived, or failed (with the failure's text).
    pub fn record(&mut self, task_id: String, result: Result<ArchiveTaskOutcome, String>)
        ensures
            final(self).skipped == old(self).skipped,
            match result {
                Ok(ArchiveTaskOutcome::Archived { id, destination }) => final(self).archived@ == old(self).archived@.push(
                    (id, destination),
                ) && final(self).already == old(self).already && final(self).failures == old(self).failures,
                Ok(ArchiveTaskOutcome::AlreadyArchived { id }) => final(self).already@ == old(self).already@.push(id)
                    && final(self).archived == old(self).archived && final(self).failures == old(self).failures,
                Err(e) => final(self).failures@ == old(self).failures@.push((task_id, e)) && final(self).archived
                    == old(self).archived && final(self).already == old(self).already,
            },
    {
        match result {
            Ok(ArchiveTaskOutcome::Archived { id, destination }) => self.archived.push((id, destination)),
            Ok(ArchiveTaskOutcome::AlreadyArchived { id }) => self.already.push(id),
            Err(e) => self.failures.push((task_id, e)),
        }
    }
}

pub open spec fn skipped_lines(s: Seq<(String, TaskState)>) -> Seq<Seq<char>> {
    Seq::new(s.len(), |i: int| "Skipping task "@ + s[i].0@ + " ("@ + state_name(s[i].1) + ")."@)
}

pub open spec fn archived_lines(s: Seq<(String, String)>) -> Seq<Seq<char>> {
    Seq::new(s.len(), |i: int| "Task "@ + s[i].0@ + " archived to "@ + s[i].1@ + "."@)
}

pub open spec fn already_lines(s: Seq<String>) -> Seq<Seq<char>> {
    Seq::new(s.len(), |i: int| "Task "@ + s[i]@ + " is already archived."@)
}

pub open spec fn failure_lines(s: Seq<(String, String)>) -> Seq<Seq<char>> {
    Seq::new(s.len(), |i: int| "Failed to archive task "@ + s[i].0@ + ": "@ + s[i].1@)
}

/// The lines that report a bulk archive.
pub open spec fn summary_lines(sm: ArchiveAllSummary) -> Seq<Seq<char>> {
    if sm.skipped@.len() == 0 && sm.archived@.len() == 0 && sm.already@.len() == 0 && sm.failures@.len() == 0 {
        seq!["No STOPPED or DIED tasks were found to archive."@]
    } else {
        skipped_lines(sm.skipped@) + archived_lines(sm.archived@) + already_lines(sm.already@) + if sm.failures@.len()
            > 0 {
            failure_lines(sm.failures@)
        } else if sm.archived@.len() == 0 && sm.already@.len() == 0 {
            seq!["No STOPPED or DIED tasks were archived."@]
        } else {
            Seq::empty()
        }
    }
}

/// The text that reports a bulk archive, one line per task.
pub fn archive_summary_to_text(summary: &ArchiveAllSummary) -> (r: String)
    ensures
        r@ == join_lines(summary_lines(*summary)),
{
    if summary.skipped.len() == 0 && summary.archived.len() == 0 && summary.already.len() == 0
        && summary.failures.len() == 0 {
        return String::from_str("No STOPPED or DIED tasks were found to archive.");
    }
    let mut out = String::new();
    let ghost mut lines: Seq<Seq<char>> = Seq::empty();
    let mut first = true;
    let mut i: usize = 0;
    while i < summary.skipped.len()
        invariant
            i <= summary.skipped@.len(),
            lines == skipped_lines(summary.skipped@.take(i as int)),
            first == (lines.len() == 0),
            out@ == join_lines(lines),
        decreases summary.skipped@.len() - i,
    {
        let (id, st) = (&summary.skipped[i].0, summary.skipped[i].1);
        let mut line = String::from_str("Skipping task ");
        line.append(id.as_str());
        line.append(" (");
        line.append(st.as_str());
        line.append(").");
        append_line(&mut out, first, Ghost(lines), line.as_str());
        proof {
            lines = lines.push(line@);
            assert(lines =~= skipped_lines(summary.skipped@.take(i + 1)));
        }
        first = false;
        i = i + 1;
    }
    proof {
        assert(summary.skipped@.take(i as int) =~= summary.skipped@);
    }
    let ghost base1 = lines;
    let mut i: usize = 0;
    while i < summary.archived.len()
        invariant
            i <= summary.archived@.len(),
            lines == base1 + archived_lines(summary.archived@.take(i as int)),
            first == (lines.len() == 0),
            out@ == join_lines(lines),
        decreases summary.archived@.len() - i,
    {
        let mut line = String::from_str("Task ");
        line.append(summary.archived[i].0.as_str());
        line.append(" archived to ");
        line.append(summary.archived[i].1.as_str());
        line.append(".");
        append_line(&mut out, first, Ghost(lines), line.as_str());
        proof {
            lines = lines.push(line@);
            assert(lines =~= base1 + archived_lines(summary.archived@.take(i + 1)));
        }
        first = false;
        i = i + 1;
    }
    proof {
        assert(summary.archived@.take(i as int) =~= summary.archived@);
    }
    let ghost base2 = lines;
    let mut i: usize = 0;
    while i < summary.already.len()
        invariant
            i <= summary.already@.len(),
            lines == base2 + already_lines(summary.already@.take(i as int)),
            first == (lines.len() == 0),
            out@ == join_lines(lines),
        decreases summary.already@.len() - i,
    {
        let mut line = String::from_str("Task ");
        line.append(summary.already[i].as_str());
        line.append(" is already archived.");
        append_line(&mut out, first, Ghost(lines), line.as_str());
        proof {
            lines = lines.push(line@);
            assert(lines =~= base2 + already_lines(summary.already@.take(i + 1)));
        }
        first = false;
        i = i + 1;
    }
    proof {
        assert(summary.already@.take(i as int) =~= summary.already@);
    }
    let ghost base3 = lines;
    if summary.failures.len() > 0 {
        let mut i: usize = 0;
        while i < summary.failures.len()
            invariant
                i <= summary.failures@.len(),
                lines == base3 + failure_lines(summary.failures@.take(i as int)),
                first == (lines.len() == 0),
                out@ == join_lines(lines),
            decreases summary.failures@.len() - i,
        {
            let mut line = String::from_str("Failed to archive task ");
            line.append(summary.failures[i].0.as_str());
            line.append(": ");
            line.append(summary.failures[i].1.as_str());
            append_line(&mut out, first, Ghost(lines), line.as_str());
            proof {
                lines = lines.push(line@);
                assert(lines =~= base3 + failure_lines(summary.failures@.take(i + 1)));
            }
            first = false;
            i = i + 1;
        }
        proof {
            assert(summary.failures@.take(i as int) =~= summary.failures@);
            assert(lines =~= summary_lines(*summary));
        }
    } else if summary.archived.len() == 0 && summary.already.len() == 0 {
        append_line(&mut out, first, Ghost(lines), "No STOPPED or DIED tasks were archived.");
        proof {
            lines = lines.push("No STOPPED or DIED tasks were archived."@);
            assert(lines =~= summary_lines(*summary));
        }
    } else {
        proof {
            assert(lines =~= summary_lines(*summary));
        }
    }
    out
}

pub open spec fn list_lines(entries: Seq<TaskListEntry>) -> Seq<Seq<char>> {
    Seq::new(entries.len(), |i: int| "- "@ + entries[i].metadata.id@ + " ("@ + state_name(entries[i].metadata.state) + ")"@)
}

/// A listing as text: a count, then one line per task with its state.
pub fn format_list_text(entries: &Vec<TaskListEntry>) -> (r: String)
    ensures
        entries@.len() == 0 ==> r@ == "No tasks found."@,
        entries@.len() > 0 ==> r@ == join_lines(seq!["Found "@ + decimal(entries@.len()) + " task(s):"@] + list_lines(entries@)),
{
    if entries.len() == 0 {
        return String::from_str("No tasks found.");
    }
    let mut head = String::from_str("Found ");
    push_decimal(&mut head, entries.len() as u64);
    head.append(" task(s):");
    let mut out = String::new();
    append_line(&mut out, true, Ghost(Seq::empty()), head.as_str());
    let ghost first = seq![head@];
    proof {
        assert(Seq::<Seq<char>>::empty().push(head@) =~= first);
    }
    let mut i: usize = 0;
    while i < entries.len()
        invariant
            i <= entries@.len(),
            first == seq!["Found "@ + decimal(entries@.len()) + " task(s):"@],
            out@ == join_lines(first + list_lines(entries@.take(i as int))),
        decreases entries@.len() - i,
    {
        let m = &entries[i].metadata;
        let mut line = String::from_str("- ");
        line.append(m.id.as_str());
        line.append(" (");
        line.append(m.state.as_str());
        line.append(")");
        let ghost lines = first + list_lines(entries@.take(i as int));
        append_line(&mut out, false, Ghost(lines), line.as_str());
        proof {
            assert(lines.push(line@) =~= first + list_lines(entries@.take(i + 1)));
        }
        i = i + 1;
    }
    proof {
        assert(entries@.take(i as int) =~= entries@);
    }
    out
}

/// A log excerpt as text: where the log is, the task's state when known, then
/// the lines after a `---` separator, or `<empty>`.
pub fn format_log_text(task_id: &str, path: &str, lines: &Vec<String>, state: Option<TaskState>) -> (r: String)
    ensures
        r@ == "Task "@ + task_id@ + " log at "@ + path@ + "\n"@ + (match state {
            Some(s) => "State: "@ + state_name(s) + "\n"@,
            None => Seq::empty(),
        }) + if lines@.len() == 0 {
            "<empty>"@
        } else {
            "---\n"@ + join_lines(lines@.map_values(|l: String| l@))
        },
{
    let mut out = String::from_str("Task ");
    out.append(task_id);
    out.append(" log at ");
    out.append(path);
    out.append("\n");
    match state {
        Some(s) => {
            out.append("State: ");
            out.append(s.as_str());
            out.append("\n");
        },
        None => {},
    }
    if lines.len() == 0 {
        out.append("<empty>");
        return out;
    }
    out.append("---\n");
    let mut body = String::new();
    let mut i: usize = 0;
    while i < lines.len()
        invariant
            i <= lines@.len(),
            body@ == join_lines(lines@.take(i as int).map_values(|l: String| l@)),
        decreases lines@.len() - i,
    {
        let ghost done = lines@.take(i as int).map_values(|l: String| l@);
        append_line(&mut body, i == 0, Ghost(done), lines[i].as_str());
        proof {
            assert(done.push(lines@[i as int]@) =~= lines@.take(i + 1).map_values(|l: String| l@));
        }
        i = i + 1;
    }
    proof {
        assert(lines@.take(i as int) =~= lines@);
    }
    out.append(body.as_str());
    out
}

/// An optional path argument: blank or absent means none; otherwise the value
/// without surrounding whitespace.
pub fn optional_path(value: Option<String>) -> (r: Option<String>)
    ensures
        match value {
            Some(v) => if trimmed(v@).len() == 0 { r is None } else { r matches Some(p) && p@ == trimmed(v@) },
            None => r is None,
        },
{
    match value {
        Some(v) => {
            let t = trim_text(v.as_str());
            if t.unicode_len() == 0 {
                None
            } else {
                Some(String::from_str(t))
            }
        },
        None => None,
    }
}

/// A timestamp as RFC 3339 text, or `<invalid>` where it has none.
pub open spec fn time_text(ts: Timestamp, known: bool) -> Seq<char> {
    if known { rfc3339_of(ts.secs as int, ts.nanos as int) } else { "<invalid>"@ }
}

/// The text shown for an optional free-form field: the value unless it is
/// absent or blank.
pub open spec fn shown(value: Option<String>) -> Seq<char> {
    match value {
        Some(v) => if trimmed(v@).len() == 0 { "<none>"@ } else { v@ },
        None => "<none>"@,
    }
}

/// The status text of a task whose timestamps read `created` and `updated`.
pub open spec fn status_text(status: TaskStatusSnapshot, created: Seq<char>, updated: Seq<char>) -> Seq<char> {
    "Task ID: "@ + status.metadata.id@ + (match status.metadata.title {
        Some(t) => "\nTitle: "@ + t@,
        None => Seq::empty(),
    }) + "\nState: "@ + state_name(status.metadata.state) + "\nCreated At: "@ + created + "\nUpdated At: "@
        + updated + "\nWorking Dir: "@ + (match status.metadata.working_dir {
        Some(d) => d@,
        None => "<none>"@,
    }) + (match status.pid {
        Some(p) => "\nPID: "@ + signed_decimal(p as int),
        None => Seq::empty(),
    }) + "\nLast Prompt: "@ + shown(status.metadata.last_prompt) + "\nLast Result: "@ + shown(
        status.metadata.last_result,
    )
}

fn push_shown(out: &mut String, value: &Option<String>)
    ensures
        final(out)@ == old(out)@ + shown(*value),
{
    match value {
        Some(v) => {
            if trim_text(v.as_str()).unicode_len() == 0 {
                out.append("<none>");
            } else {
                out.append(v.as_str());
            }
        },
        None => out.append("<none>"),
    }
}

/// A task's status as text, one field per line, given the text of its two
/// timestamps; absent title and pid lines are left out, and blank prompts and
/// results show as `<none>`.
pub fn format_status_text_at(status: &TaskStatusSnapshot, created: &str, updated: &str) -> (r: String)
    ensures
        r@ == status_text(*status, created@, updated@),
{
    let m = &status.metadata;
    let mut out = String::from_str("Task ID: ");
    out.append(m.id.as_str());
    match &m.title {
        Some(t) => {
            out.append("\nTitle: ");
            out.append(t.as_str());
        },
        None => {},
    }
    out.append("\nState: ");
    out.append(m.state.as_str());
    out.append("\nCreated At: ");
    out.append(created);
    out.append("\nUpdated At: ");
    out.append(updated);
    out.append("\nWorking Dir: ");
    match &m.working_dir {
        Some(d) => out.append(d.as_str()),
        None => out.append("<none>"),
    }
    match status.pid {
        Some(p) => {
            out.append("\nPID: ");
            push_signed_decimal(&mut out, p);
        },
        None => {},
    }
    out.append("\nLast Prompt: ");
    push_shown(&mut out, &m.last_prompt);
    out.append("\nLast Result: ");
    push_shown(&mut out, &m.last_result);
    proof {
        assert(out@ =~= status_text(*status, created@, updated@));
    }
    out
}

fn timestamp_text(ts: Timestamp) -> (r: String)
    ensures
        exists|known: bool| r@ == time_text(ts, known),
        in_calendar_range(ts.secs as int) && ts.nanos < 1_000_000_000 ==> r@ == time_text(ts, true),
{
    match rfc3339_text(ts) {
        Some(t) => {
            proof {
                assert(t@ == time_text(ts, true));
            }
            t
        },
        None => {
            let r = String::from_str("<invalid>");
            proof {
                assert(r@ == time_text(ts, false));
            }
            r
        },
    }
}

/// A task's status as text, with its timestamps in RFC 3339.
pub fn format_status_text(status: &TaskStatusSnapshot) -> (r: String)
    ensures
        exists|c: bool, u: bool| r@ == status_text(
            *status,
            time_text(status.metadata.created_at, c),
            time_text(status.metadata.updated_at, u),
        ),
        in_calendar_range(status.metadata.created_at.secs as int) && status.metadata.created_at.nanos < 1_000_000_000
            && in_calendar_range(status.metadata.updated_at.secs as int) && status.metadata.updated_at.nanos
            < 1_000_000_000 ==> r@ == status_text(
            *status,
            time_text(status.metadata.created_at, true),
            time_text(status.metadata.updated_at, true),
        ),
{
    let created = timestamp_text(status.metadata.created_at);
    let updated = timestamp_text(status.metadata.updated_at);
    format_status_text_at(status, created.as_str(), updated.as_str())
}

/// Parses state names given in any letter case.
pub fn parse_task_states(values: &Vec<String>) -> (r: Result<Vec<TaskState>, TaskError>)
    ensures
        r matches Ok(states) ==> states@.len() == values@.len() && forall|i: int|
            0 <= i < values@.len() ==> state_name(#[trigger] states@[i]) == uppercased(values@[i]@),
        r matches Err(e) ==> (e matches TaskError::UnknownState { name } && exists|i: int|
            0 <= i < values@.len() && name@ == uppercased(#[trigger] values@[i]@) && !is_state_name(name@)
                && forall|j: int| 0 <= j < i ==> is_state_name(uppercased(#[trigger] values@[j]@))),
        r is Err <==> exists|i: int| 0 <= i < values@.len() && !is_state_name(uppercased(#[trigger] values@[i]@)),
{
    let mut states: Vec<TaskState> = Vec::new();
    let mut i: usize = 0;
    while i < values.len()
        invariant
            i <= values@.len(),
            states@.len() == i,
            forall|j: int| 0 <= j < i ==> state_name(#[trigger] states@[j]) == uppercased(values@[j]@),
        decreases values@.len() - i,
    {
        let upper = uppercase_text(values[i].as_str());
        match TaskState::parse(upper.as_str()) {
            Some(s) => states.push(s),
            None => {
                proof {
                    assert(!is_state_name(uppercased(values@[i as int]@)));
                    assert forall|j: int| 0 <= j < i implies is_state_name(uppercased(#[trigger] values@[j]@)) by {
                        assert(state_name(states@[j]) == uppercased(values@[j]@));
                    }
                }
                return Err(TaskError::UnknownState { name: upper });
            },
        }
        i = i + 1;
    }
    proof {
        assert forall|k: int| 0 <= k < values@.len() implies is_state_name(uppercased(#[trigger] values@[k]@)) by {
            assert(state_name(states@[k]) == uppercased(values@[k]@));
        }
    }
    Ok(states)
}

} // verus!
