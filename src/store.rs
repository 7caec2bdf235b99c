use vstd::prelude::*;

use crate::task::TaskMetadata;
use crate::text::{padded_decimal, push_padded_decimal};
use crate::time::CivilDate;

verus! {

/// Name of the directory, under the store root, that holds archived tasks.
pub const ARCHIVE_DIR_NAME: &'static str = "archive";
/// File names of a task's artifacts inside its directory.
pub const METADATA_FILE_NAME: &'static str = "task.json";
pub const PID_FILE_NAME: &'static str = "task.pid";
pub const PIPE_FILE_NAME: &'static str = "task.pipe";
pub const LOG_FILE_NAME: &'static str = "task.log";
pub const RESULT_FILE_NAME: &'static str = "task.result";

/// `name` placed inside the directory `base`.
pub open spec fn join_path(base: Seq<char>, name: Seq<char>) -> Seq<char> {
    if base.len() == 0 {
        name
    } else if base.last() == '/' {
        base + name
    } else {
        base + seq!['/'] + name
    }
}

/// The final component of a path: what follows its last `/` (empty when the
/// path ends in `/`).
pub open spec fn last_component(p: Seq<char>) -> Seq<char>
    decreases p.len(),
{
    if p.len() == 0 {
        p
    } else if p.last() == '/' {
        Seq::empty()
    } else {
        last_component(p.drop_last()).push(p.last())
    }
}

/// A name usable as a single path component.
pub open spec fn is_component(name: Seq<char>) -> bool {
    name.len() > 0 && !name.contains('/')
}

/// The final component of `a + b` is `b` when `b` holds no `/` and `a` is
/// empty or ends in `/`.
pub proof fn lemma_last_component_of_suffix(a: Seq<char>, b: Seq<char>)
    requires
        !b.contains('/'),
        a.len() == 0 || a.last() == '/',
    ensures
        last_component(a + b) == b,
    decreases b.len(),
{
    if b.len() == 0 {
        assert(a + b =~= a);
    } else {
        let c = a + b;
        assert(c.drop_last() =~= a + b.drop_last());
        assert(!b.drop_last().contains('/')) by {
            if b.drop_last().contains('/') {
                let i = choose|i: int| 0 <= i < b.drop_last().len() && b.drop_last()[i] == '/';
                assert(b[i] == '/');
            }
        }
        lemma_last_component_of_suffix(a, b.drop_last());
        assert(c.last() == b.last());
        assert(b.last() != '/') by {
            assert(b[b.len() - 1] == b.last());
        }
        assert(b.drop_last().push(b.last()) =~= b);
    }
}

/// Joining a component onto a directory yields a path whose final component
/// is that name.
pub proof fn lemma_join_last_component(base: Seq<char>, name: Seq<char>)
    requires
        !name.contains('/'),
    ensures
        last_component(join_path(base, name)) == name,
{
    if base.len() == 0 {
        lemma_last_component_of_suffix(base, name);
        assert(base + name =~= name);
    } else if base.last() == '/' {
        lemma_last_component_of_suffix(base, name);
    } else {
        let a = base + seq!['/'];
        assert(a.last() == '/');
        lemma_last_component_of_suffix(a, name);
    }
}

/// Places `name` inside the directory `base`.
pub fn join(base: &str, name: &str) -> (r: String)
    ensures
        r@ == join_path(base@, name@),
{
    let n = base.unicode_len();
    let mut out = String::from_str(base);
    if n == 0 {
        return String::from_str(name);
    }
    if base.get_char(n - 1) != '/' {
        out.append("/");
        proof {
            reveal_strlit("/");
        }
    }
    out.append(name);
    out
}

/// The final component of `path`.
pub fn final_component(path: &str) -> (r: String)
    ensures
        r@ == last_component(path@),
{
    let n = path.unicode_len();
    let mut k: usize = n;
    while k > 0
        invariant
            n == path@.len(),
            k <= n,
            !path@.subrange(k as int, n as int).contains('/'),
        ensures
            k <= n,
            !path@.subrange(k as int, n as int).contains('/'),
            k == 0 || path@[k - 1] == '/',
        decreases k,
    {
        if path.get_char(k - 1) == '/' {
            break;
        }
        proof {
            let t = path@.subrange(k - 1, n as int);
            assert(t =~= seq![path@[k - 1]] + path@.subrange(k as int, n as int));
            if t.contains('/') {
                let i = choose|i: int| 0 <= i < t.len() && t[i] == '/';
                if i > 0 {
                    assert(path@.subrange(k as int, n as int)[i - 1] == '/');
                }
            }
        }
        k = k - 1;
    }
    proof {
        let a = path@.subrange(0, k as int);
        let b = path@.subrange(k as int, n as int);
        assert(path@ =~= a + b);
        if k > 0 {
            assert(a.last() == path@[k - 1]);
        }
        lemma_last_component_of_suffix(a, b);
    }
    String::from_str(path.substring_char(k, n))
}

/// The archive directory of the store rooted at `root`.
pub open spec fn archive_root_of(root: Seq<char>) -> Seq<char> {
    join_path(root, "archive"@)
}

/// The archive bucket `<archive>/YYYY/MM/DD` of a calendar day.
pub open spec fn bucket_of(root: Seq<char>, date: CivilDate) -> Seq<char> {
    join_path(
        join_path(
            join_path(archive_root_of(root), padded_decimal(date.year as nat, 4)),
            padded_decimal(date.month as nat, 2),
        ),
        padded_decimal(date.day as nat, 2),
    )
}

/// Rooted view of the filesystem layout holding tasks.
#[derive(Clone, Debug)]
pub struct TaskStore {
    root: String,
}

impl TaskStore {
    pub closed spec fn root_view(&self) -> Seq<char> {
        self.root@
    }

    /// A store rooted at `root`.
    pub fn new(root: String) -> (r: TaskStore)
        ensures
            r.root_view() == root@,
    {
        TaskStore { root }
    }

    /// The default store of a user: `<home>/.codex/tasks`.
    pub fn under_home(home: &str) -> (r: TaskStore)
        ensures
            r.root_view() == join_path(join_path(home@, ".codex"@), "tasks"@),
    {
        let codex = join(home, ".codex");
        TaskStore::new(join(codex.as_str(), "tasks"))
    }

    /// Directory holding active tasks.
    pub fn root(&self) -> (r: &str)
        ensures
            r@ == self.root_view(),
    {
        self.root.as_str()
    }

    /// Directory holding archived tasks.
    pub fn archive_root(&self) -> (r: String)
        ensures
            r@ == archive_root_of(self.root_view()),
    {
        proof {
            reveal_strlit("archive");
        }
        join(self.root.as_str(), ARCHIVE_DIR_NAME)
    }

    /// The archive bucket for a calendar day: `<archive>/YYYY/MM/DD`.
    pub fn archive_bucket(&self, date: CivilDate) -> (r: String)
        ensures
            r@ == bucket_of(self.root_view(), date),
    {
        let archive = self.archive_root();
        let mut year = String::new();
        push_padded_decimal(&mut year, date.year as u64, 4);
        let mut month = String::new();
        push_padded_decimal(&mut month, date.month as u64, 2);
        let mut day = String::new();
        push_padded_decimal(&mut day, date.day as u64, 2);
        proof {
            assert(year@ =~= padded_decimal(date.year as nat, 4));
            assert(month@ =~= padded_decimal(date.month as nat, 2));
            assert(day@ =~= padded_decimal(date.day as nat, 2));
        }
        let a = join(archive.as_str(), year.as_str());
        let b = join(a.as_str(), month.as_str());
        join(b.as_str(), day.as_str())
    }

    /// Paths of the active task `task_id`: `<root>/<task_id>`.
    pub fn task(&self, task_id: String) -> (r: TaskPaths)
        ensures
            r.directory_view() == join_path(self.root_view(), task_id@),
            r.id_view() == task_id@,
    {
        let directory = join(self.root.as_str(), task_id.as_str());
        TaskPaths::from_directory(directory, task_id)
    }

    /// Paths of a task archived on `date`: `<archive>/YYYY/MM/DD/<task_id>`.
    pub fn archived_task(&self, date: CivilDate, task_id: String) -> (r: TaskPaths)
        ensures
            r.directory_view() == join_path(bucket_of(self.root_view(), date), task_id@),
            r.id_view() == task_id@,
    {
        let bucket = self.archive_bucket(date);
        let directory = join(bucket.as_str(), task_id.as_str());
        TaskPaths::from_directory(directory, task_id)
    }
}

/// Why a metadata record was refused for a task directory.
#[derive(Clone, Debug)]
pub enum StoreError {
    /// The record names another task than the directory it belongs to.
    IdMismatch { expected: String, found: String },
}

/// The files of one task.
#[derive(Clone, Debug)]
pub struct TaskPaths {
    base: String,
    task_id: String,
}

/// A metadata record belongs in a task directory when it names the task the
/// directory was opened for, and that is also the directory's own name.
pub open spec fn metadata_belongs(directory: Seq<char>, id: Seq<char>, m: TaskMetadata) -> bool {
    m.id@ == id && m.id@ == last_component(directory)
}

impl TaskPaths {
    pub closed spec fn directory_view(&self) -> Seq<char> {
        self.base@
    }

    pub closed spec fn id_view(&self) -> Seq<char> {
        self.task_id@
    }

    fn new(base: String, task_id: String) -> (r: TaskPaths)
        ensures
            r.directory_view() == base@,
            r.id_view() == task_id@,
    {
        TaskPaths { base, task_id }
    }

    /// Paths for the task `task_id` kept in `directory`.
    pub fn from_directory(directory: String, task_id: String) -> (r: TaskPaths)
        ensures
            r.directory_view() == directory@,
            r.id_view() == task_id@,
    {
        TaskPaths::new(directory, task_id)
    }

    /// The task's identifier.
    pub fn id(&self) -> (r: &str)
        ensures
            r@ == self.id_view(),
    {
        self.task_id.as_str()
    }

    /// The directory holding the task's files.
    pub fn directory(&self) -> (r: &str)
        ensures
            r@ == self.directory_view(),
    {
        self.base.as_str()
    }

    fn file_path(&self, file_name: &str) -> (r: String)
        ensures
            r@ == join_path(self.directory_view(), file_name@),
    {
        join(self.base.as_str(), file_name)
    }

    /// `<dir>/task.pid`: the worker's process id.
    pub fn pid_path(&self) -> (r: String)
        ensures
            r@ == join_path(self.directory_view(), "task.pid"@),
    {
        self.file_path(PID_FILE_NAME)
    }

    /// `<dir>/task.pipe`: the FIFO that carries prompts to the worker.
    pub fn pipe_path(&self) -> (r: String)
        ensures
            r@ == join_path(self.directory_view(), "task.pipe"@),
    {
        self.file_path(PIPE_FILE_NAME)
    }

    /// `<dir>/task.log`: the transcript log.
    pub fn log_path(&self) -> (r: String)
        ensures
            r@ == join_path(self.directory_view(), "task.log"@),
    {
        self.file_path(LOG_FILE_NAME)
    }

    /// `<dir>/task.result`: the most recent final message.
    pub fn result_path(&self) -> (r: String)
        ensures
            r@ == join_path(self.directory_view(), "task.result"@),
    {
        self.file_path(RESULT_FILE_NAME)
    }

    /// `<dir>/task.json`: the metadata record.
    pub fn metadata_path(&self) -> (r: String)
        ensures
            r@ == join_path(self.directory_view(), "task.json"@),
    {
        self.file_path(METADATA_FILE_NAME)
    }

    /// Refuses a metadata record that names another task, or that would sit in
    /// a directory whose final component differs from its id.
    pub fn check_metadata(&self, metadata: TaskMetadata) -> (r: Result<TaskMetadata, StoreError>)
        ensures
            r is Ok <==> metadata_belongs(self.directory_view(), self.id_view(), metadata),
            r matches Ok(m) ==> m == metadata,
            r matches Err(StoreError::IdMismatch { expected, found }) ==> expected@ == self.id_view()
                && found@ == metadata.id@,
    {
        let dir_name = final_component(self.base.as_str());
        if crate::task::str_eq(metadata.id.as_str(), self.task_id.as_str())
            && crate::task::str_eq(metadata.id.as_str(), dir_name.as_str()) {
            Ok(metadata)
        } else {
            let expected = String::from_str(self.task_id.as_str());
            let found = String::from_str(metadata.id.as_str());
            Err(StoreError::IdMismatch { expected, found })
        }
    }
}

/// Whether the walked directory `dir` is the archived directory of `task_id`.
pub open spec fn names_task(dir: Seq<char>, task_id: Seq<char>) -> bool {
    last_component(dir) == task_id
}

/// `r` is the position of the first directory of `walked` named after
/// `task_id`, or `None` when no directory is.
pub open spec fn is_first_named(walked: Seq<String>, task_id: Seq<char>, r: Option<usize>) -> bool {
    match r {
        Some(i) => i < walked.len() && names_task(walked[i as int]@, task_id) && forall|j: int|
            0 <= j < i ==> !names_task(#[trigger] walked[j]@, task_id),
        None => forall|j: int| 0 <= j < walked.len() ==> !names_task(#[trigger] walked[j]@, task_id),
    }
}

/// Picks, among the directories met while walking the archive tree in
/// breadth-first order, the first one named after `task_id`.
pub fn find_archived_index(walked: &Vec<String>, task_id: &str) -> (r: Option<usize>)
    ensures
        is_first_named(walked@, task_id@, r),
{
    let mut i: usize = 0;
    while i < walked.len()
        invariant
            i <= walked@.len(),
            forall|j: int| 0 <= j < i ==> !names_task(#[trigger] walked@[j]@, task_id@),
        decreases walked@.len() - i,
    {
        let name = final_component(walked[i].as_str());
        if crate::task::str_eq(name.as_str(), task_id) {
            return Some(i);
        }
        i = i + 1;
    }
    None
}

/// A task placed under any directory of the archive tree, however deep its
/// bucket, is found by the search once the walk has met its directory: the
/// search answers with that directory or an earlier one of the same name.
pub proof fn lemma_archived_task_found(
    walked: Seq<String>,
    parent: Seq<char>,
    task_id: Seq<char>,
    k: int,
    r: Option<usize>,
)
    requires
        is_component(task_id),
        0 <= k < walked.len(),
        walked[k]@ == join_path(parent, task_id),
        is_first_named(walked, task_id, r),
    ensures
        r matches Some(i) && i <= k && names_task(walked[i as int]@, task_id),
{
    lemma_join_last_component(parent, task_id);
    assert(names_task(walked[k]@, task_id));
    if let Some(i) = r {
        if i > k {
            assert(!names_task(walked[k]@, task_id));
        }
    }
}

/// A record whose id differs from the final component of the directory it
/// is read from is refused, whatever the task the paths were opened for.
pub proof fn lemma_id_directory_consistency(directory: Seq<char>, id: Seq<char>, m: TaskMetadata)
    requires
        m.id@ != last_component(directory),
    ensures
        !metadata_belongs(directory, id, m),
{
}

/// For a task opened by id in a store, a record naming that task belongs there.
pub proof fn lemma_task_directory_named_by_id(root: Seq<char>, id: Seq<char>, m: TaskMetadata)
    requires
        is_component(id),
        m.id@ == id,
    ensures
        metadata_belongs(join_path(root, id), id, m),
{
    lemma_join_last_component(root, id);
}

} // verus!
