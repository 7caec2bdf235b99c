use vstd::prelude::*;

use crate::service::TaskStatusSnapshot;
use crate::task::{TaskMetadata, TaskState};
use crate::time::{ts_le, ts_lt};

verus! {

broadcast use vstd::seq_lib::group_to_multiset_ensures;

/// A task entry returned by list operations.
#[derive(Clone, Debug)]
pub struct TaskListEntry {
    pub metadata: TaskMetadata,
}

/// Options that influence task listing.
#[derive(Clone, Debug)]
pub struct ListTasksOptions {
    pub include_archived: bool,
    pub states: Vec<TaskState>,
}

/// A state passes the filter when no states are requested or it is one of them.
pub open spec fn state_wanted(states: Seq<TaskState>, s: TaskState) -> bool {
    states.len() == 0 || states.contains(s)
}

/// Entries ordered by `updated_at`, most recent first.
pub open spec fn newest_first(s: Seq<TaskListEntry>) -> bool {
    forall|i: int, j: int| 0 <= i < j < s.len() ==> ts_le(s[j].metadata.updated_at, s[i].metadata.updated_at)
}

/// Where `e` goes in a newest-first sequence: before the first entry updated
/// strictly earlier, so after every entry updated at the same time.
pub open spec fn first_older(s: Seq<TaskListEntry>, e: TaskListEntry) -> nat
    decreases s.len(),
{
    if s.len() == 0 {
        0
    } else if ts_lt(s[0].metadata.updated_at, e.metadata.updated_at) {
        0
    } else {
        1 + first_older(s.drop_first(), e)
    }
}

/// Stable insertion sort, newest first: entries updated at the same time keep
/// the order they had in `s`.
pub open spec fn sort_newest(s: Seq<TaskListEntry>) -> Seq<TaskListEntry>
    decreases s.len(),
{
    if s.len() == 0 {
        s
    } else {
        let sorted = sort_newest(s.drop_last());
        sorted.insert(first_older(sorted, s.last()) as int, s.last())
    }
}

/// The filter that the requested states make.
pub open spec fn wanted_pred(states: Seq<TaskState>) -> spec_fn(TaskListEntry) -> bool {
    |e: TaskListEntry| state_wanted(states, e.metadata.state)
}

/// The listing of `entries` for the requested states: all entries sorted
/// newest first (ties in input order), then those of the wanted states.
pub open spec fn selection(entries: Seq<TaskListEntry>, states: Seq<TaskState>) -> Seq<TaskListEntry> {
    sort_newest(entries).filter(wanted_pred(states))
}

/// `r` holds exactly the entries of `entries` whose state is wanted, each as
/// often as there, newest first.
pub open spec fn is_selection(entries: Seq<TaskListEntry>, states: Seq<TaskState>, r: Seq<TaskListEntry>) -> bool {
    &&& newest_first(r)
    &&& forall|e: TaskListEntry| #[trigger] r.to_multiset().count(e) == if state_wanted(states, e.metadata.state) {
        entries.to_multiset().count(e)
    } else {
        0
    }
}

proof fn lemma_first_older(s: Seq<TaskListEntry>, e: TaskListEntry)
    ensures
        first_older(s, e) <= s.len(),
        forall|k: int| 0 <= k < first_older(s, e) ==> !ts_lt(#[trigger] s[k].metadata.updated_at, e.metadata.updated_at),
        first_older(s, e) < s.len() ==> ts_lt(s[first_older(s, e) as int].metadata.updated_at, e.metadata.updated_at),
    decreases s.len(),
{
    if s.len() > 0 && !ts_lt(s[0].metadata.updated_at, e.metadata.updated_at) {
        lemma_first_older(s.drop_first(), e);
        assert forall|k: int| 0 <= k < first_older(s, e) implies !ts_lt(#[trigger] s[k].metadata.updated_at, e.metadata.updated_at) by {
            if k > 0 {
                assert(s[k] == s.drop_first()[k - 1]);
            }
        }
    }
}

proof fn lemma_insert_keeps_order(s: Seq<TaskListEntry>, e: TaskListEntry)
    requires
        newest_first(s),
    ensures
        newest_first(s.insert(first_older(s, e) as int, e)),
{
    lemma_first_older(s, e);
    let j = first_older(s, e) as int;
    let t = s.insert(j, e);
    assert forall|a: int, b: int| 0 <= a < b < t.len() implies ts_le(t[b].metadata.updated_at, t[a].metadata.updated_at) by {
        if b < j {
        } else if b == j {
            assert(!ts_lt(s[a].metadata.updated_at, e.metadata.updated_at));
        } else if a == j {
            if b - 1 > j {
                assert(ts_le(s[b - 1].metadata.updated_at, s[j].metadata.updated_at));
            }
        } else if a < j {
            assert(ts_le(s[b - 1].metadata.updated_at, s[a].metadata.updated_at));
        } else {
            assert(ts_le(s[b - 1].metadata.updated_at, s[a - 1].metadata.updated_at));
        }
    }
}

proof fn lemma_sort_newest(s: Seq<TaskListEntry>)
    ensures
        newest_first(sort_newest(s)),
        sort_newest(s).to_multiset() == s.to_multiset(),
    decreases s.len(),
{
    if s.len() > 0 {
        let sorted = sort_newest(s.drop_last());
        lemma_sort_newest(s.drop_last());
        lemma_first_older(sorted, s.last());
        lemma_insert_keeps_order(sorted, s.last());
        vstd::seq_lib::to_multiset_insert(sorted, first_older(sorted, s.last()) as int, s.last());
        vstd::seq_lib::to_multiset_build(s.drop_last(), s.last());
        assert(s.drop_last().push(s.last()) =~= s);
    }
}

proof fn lemma_filter_keeps_order(s: Seq<TaskListEntry>, p: spec_fn(TaskListEntry) -> bool)
    requires
        newest_first(s),
    ensures
        newest_first(s.filter(p)),
    decreases s.len(),
{
    reveal(Seq::filter);
    if s.len() > 0 {
        let rest = s.drop_last();
        lemma_filter_keeps_order(rest, p);
        if p(s.last()) {
            let f = rest.filter(p);
            assert forall|a: int| 0 <= a < f.len() implies ts_le(s.last().metadata.updated_at, #[trigger] f[a].metadata.updated_at) by {
                assert(f.contains(f[a]));
                rest.lemma_filter_contains_rev(p, f[a]);
                assert(rest.contains(f[a]));
                let k = choose|k: int| 0 <= k < rest.len() && rest[k] == f[a];
                assert(ts_le(s[s.len() - 1].metadata.updated_at, s[k].metadata.updated_at));
            }
            assert(s.filter(p) == f.push(s.last()));
        }
    }
}

proof fn lemma_filter_counts(s: Seq<TaskListEntry>, p: spec_fn(TaskListEntry) -> bool, e: TaskListEntry)
    ensures
        s.filter(p).to_multiset().count(e) == if p(e) { s.to_multiset().count(e) } else { 0 },
    decreases s.len(),
{
    broadcast use vstd::multiset::group_multiset_axioms;
    reveal(Seq::filter);
    if s.len() == 0 {
        assert(s.to_multiset().count(e) == 0);
    } else {
        let rest = s.drop_last();
        lemma_filter_counts(rest, p, e);
        vstd::seq_lib::to_multiset_build(rest, s.last());
        assert(rest.push(s.last()) =~= s);
        if p(s.last()) {
            vstd::seq_lib::to_multiset_build(rest.filter(p), s.last());
        }
    }
}

proof fn lemma_filter_all(s: Seq<TaskListEntry>)
    ensures
        s.filter(wanted_pred(Seq::empty())) == s,
    decreases s.len(),
{
    reveal(Seq::filter);
    if s.len() > 0 {
        lemma_filter_all(s.drop_last());
        assert(state_wanted(Seq::<TaskState>::empty(), s.last().metadata.state));
        assert(s.drop_last().push(s.last()) =~= s);
    }
}

/// The selection is newest first and holds exactly the wanted entries.
pub proof fn lemma_selection_is_selection(entries: Seq<TaskListEntry>, states: Seq<TaskState>)
    ensures
        is_selection(entries, states, selection(entries, states)),
{
    lemma_sort_newest(entries);
    lemma_filter_keeps_order(sort_newest(entries), wanted_pred(states));
    assert forall|e: TaskListEntry| #[trigger] selection(entries, states).to_multiset().count(e) == if state_wanted(
        states,
        e.metadata.state,
    ) {
        entries.to_multiset().count(e)
    } else {
        0
    } by {
        lemma_filter_counts(sort_newest(entries), wanted_pred(states), e);
    }
}

fn wanted(states: &Vec<TaskState>, s: TaskState) -> (r: bool)
    ensures
        r == state_wanted(states@, s),
{
    if states.len() == 0 {
        return true;
    }
    let mut i: usize = 0;
    while i < states.len()
        invariant
            i <= states@.len(),
            forall|j: int| 0 <= j < i ==> states@[j] != s,
        decreases states@.len() - i,
    {
        if states[i] == s {
            proof {
                assert(states@.contains(s));
            }
            return true;
        }
        i = i + 1;
    }
    false
}

/// Inserts `e` before the first entry updated strictly earlier.
fn insert_newest_first(sorted: &mut Vec<TaskListEntry>, e: TaskListEntry)
    ensures
        final(sorted)@ == old(sorted)@.insert(first_older(old(sorted)@, e) as int, e),
{
    let mut j: usize = 0;
    while j < sorted.len()
        invariant
            j <= sorted@.len(),
            forall|i: int| 0 <= i < j ==> !ts_lt(#[trigger] sorted@[i].metadata.updated_at, e.metadata.updated_at),
        ensures
            j <= sorted@.len(),
            forall|i: int| 0 <= i < j ==> !ts_lt(#[trigger] sorted@[i].metadata.updated_at, e.metadata.updated_at),
            j == sorted@.len() || ts_lt(sorted@[j as int].metadata.updated_at, e.metadata.updated_at),
        decreases sorted@.len() - j,
    {
        if sorted[j].metadata.updated_at.is_before(&e.metadata.updated_at) {
            break;
        }
        j = j + 1;
    }
    proof {
        lemma_first_older(sorted@, e);
        let f = first_older(sorted@, e) as int;
        if f < j {
            assert(!ts_lt(sorted@[f].metadata.updated_at, e.metadata.updated_at));
        } else if f > j {
            assert(!ts_lt(sorted@[j as int].metadata.updated_at, e.metadata.updated_at));
        }
    }
    sorted.insert(j, e);
}

/// Orders the entries by `updated_at`, most recent first, with entries
/// updated at the same time in their given order, then keeps those whose
/// state is wanted (all of them when `states` is empty).
pub fn select_tasks(entries: Vec<TaskListEntry>, states: &Vec<TaskState>) -> (r: Vec<TaskListEntry>)
    ensures
        r@ == selection(entries@, states@),
        is_selection(entries@, states@, r@),
{
    let ghost orig = entries@;
    let n = entries.len();
    let mut rest = entries;
    let mut sorted: Vec<TaskListEntry> = Vec::new();
    let mut i: usize = 0;
    while rest.len() > 0
        invariant
            n == orig.len(),
            i + rest@.len() == orig.len(),
            rest@ == orig.skip(i as int),
            sorted@ == sort_newest(orig.take(i as int)),
        decreases rest@.len(),
    {
        let e = rest.remove(0);
        proof {
            assert(e == orig[i as int]);
            assert(orig.take(i + 1).drop_last() =~= orig.take(i as int));
            assert(orig.take(i + 1).last() == e);
            assert(rest@ =~= orig.skip(i + 1));
        }
        insert_newest_first(&mut sorted, e);
        i = i + 1;
    }
    proof {
        assert(orig.take(i as int) =~= orig);
    }
    let ghost all = sorted@;
    let m = sorted.len();
    let mut out: Vec<TaskListEntry> = Vec::new();
    let mut k: usize = 0;
    while sorted.len() > 0
        invariant
            m == all.len(),
            k + sorted@.len() == all.len(),
            sorted@ == all.skip(k as int),
            out@ == all.take(k as int).filter(wanted_pred(states@)),
        decreases sorted@.len(),
    {
        let e = sorted.remove(0);
        proof {
            assert(e == all[k as int]);
            assert(all.take(k + 1).drop_last() =~= all.take(k as int));
            assert(all.take(k + 1).last() == e);
            assert(sorted@ =~= all.skip(k + 1));
            all.take(k as int).lemma_filter_push(e, wanted_pred(states@));
            assert(all.take(k as int).push(e) =~= all.take(k + 1));
        }
        if wanted(states, e.metadata.state) {
            out.push(e);
        }
        k = k + 1;
    }
    proof {
        assert(all.take(k as int) =~= all);
        assert(all.take(0) =~= Seq::<TaskListEntry>::empty());
        reveal(Seq::filter);
        lemma_selection_is_selection(orig, states@);
    }
    out
}

/// States of the tasks that a bulk archive moves.
pub open spec fn archivable(s: TaskState) -> bool {
    s == TaskState::Stopped || s == TaskState::Died
}

/// Ids, in order, of the entries whose state is `wanted_state` (or, when
/// `archive` holds, whose state is archivable).
pub open spec fn ids_where(s: Seq<TaskListEntry>, archive: bool, wanted_state: TaskState) -> Seq<Seq<char>>
    decreases s.len(),
{
    if s.len() == 0 {
        Seq::empty()
    } else {
        let rest = ids_where(s.drop_last(), archive, wanted_state);
        let st = s.last().metadata.state;
        if (archive && archivable(st)) || (!archive && st == wanted_state) {
            rest.push(s.last().metadata.id@)
        } else {
            rest
        }
    }
}

/// The views of a sequence of strings.
pub open spec fn view_ids(v: Seq<String>) -> Seq<Seq<char>> {
    v.map_values(|x: String| x@)
}

/// Splits the active tasks of a bulk archive into the ids to archive
/// (STOPPED or DIED) and those skipped because they are RUNNING, in listing order.
pub fn archive_candidates(tasks: &Vec<TaskListEntry>) -> (r: (Vec<String>, Vec<(String, TaskState)>))
    ensures
        view_ids(r.0@) == ids_where(tasks@, true, TaskState::Running),
        r.1@.map_values(|p: (String, TaskState)| p.0@) == ids_where(tasks@, false, TaskState::Running),
        forall|i: int| 0 <= i < r.1@.len() ==> (#[trigger] r.1@[i]).1 == TaskState::Running,
{
    let mut candidates: Vec<String> = Vec::new();
    let mut skipped: Vec<(String, TaskState)> = Vec::new();
    let mut i: usize = 0;
    while i < tasks.len()
        invariant
            i <= tasks@.len(),
            view_ids(candidates@) == ids_where(tasks@.take(i as int), true, TaskState::Running),
            skipped@.map_values(|p: (String, TaskState)| p.0@) == ids_where(tasks@.take(i as int), false, TaskState::Running),
            forall|k: int| 0 <= k < skipped@.len() ==> (#[trigger] skipped@[k]).1 == TaskState::Running,
        decreases tasks@.len() - i,
    {
        let m = &tasks[i].metadata;
        proof {
            assert(tasks@.take(i + 1).drop_last() =~= tasks@.take(i as int));
        }
        match m.state {
            TaskState::Stopped | TaskState::Died => {
                candidates.push(String::from_str(m.id.as_str()));
                proof {
                    assert(view_ids(candidates@) =~= ids_where(tasks@.take(i as int), true, TaskState::Running).push(m.id@));
                }
            },
            TaskState::Running => {
                skipped.push((String::from_str(m.id.as_str()), TaskState::Running));
                proof {
                    assert(skipped@.map_values(|p: (String, TaskState)| p.0@) =~= ids_where(tasks@.take(i as int), false, TaskState::Running).push(m.id@));
                }
            },
            TaskState::Archived => {},
        }
        i = i + 1;
    }
    proof {
        assert(tasks@.take(i as int) =~= tasks@);
    }
    (candidates, skipped)
}

/// Ids, in listing order, of the tasks whose derived state is RUNNING: those
/// that stopping every running task signals.
pub fn running_task_ids(tasks: &Vec<TaskListEntry>) -> (r: Vec<String>)
    ensures
        view_ids(r@) == ids_where(tasks@, false, TaskState::Running),
{
    let mut ids: Vec<String> = Vec::new();
    let mut i: usize = 0;
    while i < tasks.len()
        invariant
            i <= tasks@.len(),
            view_ids(ids@) == ids_where(tasks@.take(i as int), false, TaskState::Running),
        decreases tasks@.len() - i,
    {
        let m = &tasks[i].metadata;
        proof {
            assert(tasks@.take(i + 1).drop_last() =~= tasks@.take(i as int));
        }
        if m.state == TaskState::Running {
            ids.push(String::from_str(m.id.as_str()));
            proof {
                assert(view_ids(ids@) =~= ids_where(tasks@.take(i as int), false, TaskState::Running).push(m.id@));
            }
        }
        i = i + 1;
    }
    proof {
        assert(tasks@.take(i as int) =~= tasks@);
    }
    ids
}

/// Output format of the status command.
#[derive(Clone, Copy, Debug, PartialEq, Eq, Structural)]
pub enum StatusFormat {
    Human,
    Json,
}

/// What the status command waits for before it reports.
#[derive(Clone, Copy, Debug, PartialEq, Eq, Structural)]
pub enum WaitMode {
    /// Report at once.
    Immediate,
    /// Wait until every selected task is terminal.
    All,
    /// Wait until some selected task is terminal.
    Any,
}

/// A task whose worker is no longer running: STOPPED, ARCHIVED or DIED.
pub open spec fn terminal(s: TaskState) -> bool {
    s != TaskState::Running
}

/// Whether a status shows a task that no longer runs.
pub fn is_terminal(record: &TaskStatusSnapshot) -> (r: bool)
    ensures
        r == terminal(record.metadata.state),
{
    record.metadata.state != TaskState::Running
}

impl WaitMode {
    /// Whether the statuses satisfy this wait.
    pub fn is_satisfied(self, records: &Vec<TaskStatusSnapshot>) -> (r: bool)
        ensures
            self == WaitMode::Immediate ==> r,
            self == WaitMode::All ==> (r <==> forall|i: int|
                0 <= i < records@.len() ==> terminal(#[trigger] records@[i].metadata.state)),
            self == WaitMode::Any ==> (r <==> exists|i: int|
                0 <= i < records@.len() && terminal(#[trigger] records@[i].metadata.state)),
    {
        match self {
            WaitMode::Immediate => true,
            WaitMode::All => {
                let mut i: usize = 0;
                while i < records.len()
                    invariant
                        self == WaitMode::All,
                        i <= records@.len(),
                        forall|j: int| 0 <= j < i ==> terminal(#[trigger] records@[j].metadata.state),
                    decreases records@.len() - i,
                {
                    if !is_terminal(&records[i]) {
                        return false;
                    }
                    i = i + 1;
                }
                true
            },
            WaitMode::Any => {
                let mut i: usize = 0;
                while i < records.len()
                    invariant
                        self == WaitMode::Any,
                        i <= records@.len(),
                        forall|j: int| 0 <= j < i ==> !terminal(#[trigger] records@[j].metadata.state),
                    decreases records@.len() - i,
                {
                    if is_terminal(&records[i]) {
                        return true;
                    }
                    i = i + 1;
                }
                false
            },
        }
    }
}

/// `s` is the view of some string of `v`.
pub open spec fn holds_text(v: Seq<String>, s: Seq<char>) -> bool {
    exists|j: int| 0 <= j < v.len() && v[j]@ == s
}

fn contains_text(v: &Vec<String>, s: &str) -> (r: bool)
    ensures
        r == holds_text(v@, s@),
{
    let mut i: usize = 0;
    while i < v.len()
        invariant
            i <= v@.len(),
            forall|j: int| 0 <= j < i ==> v@[j]@ != s@,
        decreases v@.len() - i,
    {
        if crate::task::str_eq(v[i].as_str(), s) {
            return true;
        }
        i = i + 1;
    }
    false
}

/// `ids` with every repeat dropped, each id kept where it first occurs.
pub open spec fn first_occurrences(ids: Seq<Seq<char>>) -> Seq<Seq<char>>
    decreases ids.len(),
{
    if ids.len() == 0 {
        ids
    } else {
        let kept = first_occurrences(ids.drop_last());
        if kept.contains(ids.last()) {
            kept
        } else {
            kept.push(ids.last())
        }
    }
}

/// The requested task ids with repeats removed, each kept at its first
/// occurrence, in the order given.
pub fn unique_targets(task_ids: &Vec<String>) -> (r: Vec<String>)
    ensures
        view_ids(r@) == first_occurrences(view_ids(task_ids@)),
{
    let mut out: Vec<String> = Vec::new();
    let mut k: usize = 0;
    while k < task_ids.len()
        invariant
            k <= task_ids@.len(),
            view_ids(out@) == first_occurrences(view_ids(task_ids@.take(k as int))),
        decreases task_ids@.len() - k,
    {
        let seen = contains_text(&out, task_ids[k].as_str());
        let ghost before = view_ids(out@);
        proof {
            let t = view_ids(task_ids@.take(k + 1));
            assert(t.drop_last() =~= view_ids(task_ids@.take(k as int)));
            assert(t.last() == task_ids@[k as int]@);
            if seen {
                let j0 = choose|j: int| 0 <= j < out@.len() && out@[j]@ == task_ids@[k as int]@;
                assert(before[j0] == task_ids@[k as int]@);
                assert(before.contains(task_ids@[k as int]@));
            } else {
                assert(!before.contains(task_ids@[k as int]@)) by {
                    if before.contains(task_ids@[k as int]@) {
                        let j0 = choose|j: int| 0 <= j < before.len() && before[j] == task_ids@[k as int]@;
                        assert(out@[j0]@ == task_ids@[k as int]@);
                    }
                }
            }
        }
        if !seen {
            out.push(String::from_str(task_ids[k].as_str()));
            proof {
                assert(view_ids(out@) =~= before.push(task_ids@[k as int]@));
            }
        }
        k = k + 1;
    }
    proof {
        assert(task_ids@.take(k as int) =~= task_ids@);
    }
    out
}

/// Filtering by states selects from the unfiltered listing of the same tasks:
/// the filtered listing is the unfiltered one with the unwanted entries left
/// out, in the same order; in particular every entry it holds is also there.
pub proof fn lemma_filtered_listing_is_subset(entries: Seq<TaskListEntry>, states: Seq<TaskState>)
    ensures
        selection(entries, states) == selection(entries, Seq::empty()).filter(wanted_pred(states)),
        selection(entries, states).to_multiset().subset_of(selection(entries, Seq::empty()).to_multiset()),
        forall|e: TaskListEntry| selection(entries, states).contains(e) ==> selection(entries, Seq::empty()).contains(e),
{
    lemma_filter_all(sort_newest(entries));
    let all = selection(entries, Seq::empty());
    let some = selection(entries, states);
    lemma_selection_is_selection(entries, states);
    lemma_selection_is_selection(entries, Seq::empty());
    assert forall|e: TaskListEntry| some.to_multiset().count(e) <= all.to_multiset().count(e) by {
        assert(state_wanted(Seq::<TaskState>::empty(), e.metadata.state));
    }
    assert forall|e: TaskListEntry| some.contains(e) implies all.contains(e) by {
        assert(state_wanted(Seq::<TaskState>::empty(), e.metadata.state));
        assert(some.to_multiset().count(e) > 0);
        assert(all.to_multiset().count(e) > 0);
    }
}

} // verus!
