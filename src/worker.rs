use vstd::prelude::*;

use crate::errors::TaskError;
use crate::service::prompt_accepted;
use crate::store::{last_component, TaskStore};
use crate::task::{TaskMetadata, TaskState};
use crate::text::{trim_text, trimmed};

verus! {

/// Environment variable that carries the optional title for the worker.
pub const TITLE_ENV_VAR: &'static str = "CODEX_TASK_TITLE";
/// Environment variable that carries the initial prompt for the worker.
pub const PROMPT_ENV_VAR: &'static str = "CODEX_TASK_PROMPT";
/// When set, the worker exits right after it records its pid.
pub const EXIT_AFTER_START_ENV_VAR: &'static str = "CODEX_TASKS_EXIT_AFTER_START";
/// Event type that announces the assistant's thread, and so the task id.
pub const THREAD_STARTED_EVENT: &'static str = "thread.started";
/// Prefix of log records that come from the assistant's stderr.
pub const STDERR_PREFIX: &'static str = "[stderr] ";
/// The prompt line that shuts a worker down.
pub const QUIT_COMMAND: &'static str = "/quit";

/// The directory that holds `path`: everything before its last `/`, `/`
/// itself for an entry of the root, and the empty path for a bare file name.
/// `None` for the empty path and for one ending in `/`, such as `/` itself.
/// On paths without repeated or trailing `/` (canonical paths, which is what
/// the worker is given) this is what `Path::parent` returns.
pub open spec fn parent_of(p: Seq<char>) -> Option<Seq<char>> {
    let k = p.len() - last_component(p).len();
    if last_component(p).len() == 0 {
        None
    } else if k == 0 {
        Some(Seq::empty())
    } else if k == 1 {
        Some(seq!['/'])
    } else {
        Some(p.subrange(0, k - 1))
    }
}

proof fn lemma_last_component_is_suffix(p: Seq<char>)
    ensures
        last_component(p).len() <= p.len(),
        last_component(p) == p.subrange(p.len() - last_component(p).len(), p.len() as int),
        last_component(p).len() < p.len() ==> p[p.len() - last_component(p).len() - 1] == '/',
    decreases p.len(),
{
    if p.len() > 0 && p.last() != '/' {
        lemma_last_component_is_suffix(p.drop_last());
        let q = p.drop_last();
        let c = last_component(q);
        assert(last_component(p) == c.push(p.last()));
        assert(c.push(p.last()) =~= p.subrange(p.len() - c.len() - 1, p.len() as int));
    } else if p.len() > 0 {
        assert(p.subrange(p.len() as int, p.len() as int) =~= Seq::<char>::empty());
    } else {
        assert(p.subrange(0, 0) =~= p);
    }
}

/// The parent directory of `path`, as `parent_of` describes it.
pub fn parent_directory(path: &str) -> (r: Option<String>)
    ensures
        match r {
            Some(d) => parent_of(path@) == Some(d@),
            None => parent_of(path@) is None,
        },
{
    let name = crate::store::final_component(path);
    let n = path.unicode_len();
    let c = name.as_str().unicode_len();
    proof {
        lemma_last_component_is_suffix(path@);
    }
    if c == 0 {
        return None;
    }
    if c >= n {
        return Some(String::new());
    }
    let k = n - c;
    if k == 1 {
        proof {
            reveal_strlit("/");
        }
        return Some(String::from_str("/"));
    }
    Some(String::from_str(path.substring_char(0, k - 1)))
}

/// Configuration of a worker process.
#[derive(Clone, Debug)]
pub struct WorkerConfig {
    pub store_root: String,
    pub title: Option<String>,
    pub initial_prompt: String,
    pub config_path: Option<String>,
    pub working_dir: Option<String>,
}

impl WorkerConfig {
    /// Builds a worker configuration; the initial prompt is required and must
    /// not be blank.
    pub fn new(
        store_root: String,
        title: Option<String>,
        initial_prompt: Option<String>,
        config_path: Option<String>,
        working_dir: Option<String>,
    ) -> (r: Result<WorkerConfig, TaskError>)
        ensures
            initial_prompt is None ==> (r matches Err(e) && e is PromptRequired),
            initial_prompt matches Some(p) ==> if prompt_accepted(p@) {
                r matches Ok(c) && c.store_root == store_root && c.title == title && c.initial_prompt == p
                    && c.config_path == config_path && c.working_dir == working_dir
            } else {
                r matches Err(e) && e is EmptyPrompt
            },
    {
        let initial_prompt = match initial_prompt {
            Some(p) => p,
            None => return Err(TaskError::PromptRequired),
        };
        match crate::service::validate_prompt(initial_prompt.as_str()) {
            Ok(()) => {},
            Err(e) => return Err(e),
        }
        Ok(WorkerConfig { store_root, title, initial_prompt, config_path, working_dir })
    }

    /// The store rooted at the configured location.
    pub fn store(&self) -> (r: TaskStore)
        ensures
            r.root_view() == self.store_root@,
    {
        TaskStore::new(String::from_str(self.store_root.as_str()))
    }

    /// The `CODEX_HOME` override for a custom config file: the directory that holds it.
    pub fn codex_home_override(&self) -> (r: Result<Option<String>, TaskError>)
        ensures
            self.config_path is None ==> r == Ok::<Option<String>, TaskError>(None),
            self.config_path matches Some(p) ==> match parent_of(p@) {
                Some(d) => r matches Ok(Some(h)) && h@ == d,
                None => r matches Err(TaskError::ConfigWithoutParent { path }) && path@ == p@,
            },
    {
        match &self.config_path {
            None => Ok(None),
            Some(p) => match parent_directory(p.as_str()) {
                Some(d) => Ok(Some(d)),
                None => Err(TaskError::ConfigWithoutParent { path: String::from_str(p.as_str()) }),
            },
        }
    }
}

/// What a line read from the prompt FIFO asks of the worker.
#[derive(Clone, Debug)]
pub enum PromptCommand {
    /// A blank line: nothing to do.
    Ignore,
    /// `/quit`: shut down.
    Quit,
    /// Run the assistant on this prompt.
    Run(String),
}

/// Classifies a line read from the prompt FIFO.
pub fn classify_prompt_line(line: String) -> (r: PromptCommand)
    ensures
        trimmed(line@).len() == 0 ==> r is Ignore,
        trimmed(line@) == QUIT_COMMAND@ ==> r is Quit,
        trimmed(line@).len() > 0 && trimmed(line@) != QUIT_COMMAND@ ==> (r matches PromptCommand::Run(p) && p == line),
{
    let t = trim_text(line.as_str());
    proof {
        reveal_strlit("/quit");
        assert(QUIT_COMMAND@.len() == 5);
    }
    if t.unicode_len() == 0 {
        return PromptCommand::Ignore;
    }
    if crate::task::str_eq(t, QUIT_COMMAND) {
        return PromptCommand::Quit;
    }
    PromptCommand::Run(line)
}

/// The string member `key` of the JSON object that `line` holds; `None` when
/// the line is no JSON, not an object, or has no string under `key`.
pub uninterp spec fn json_string_member(line: Seq<char>, key: Seq<char>) -> Option<Seq<char>>;

/// Relies on `serde_json::from_str` into a `serde_json::Value`, then
/// `Value::get` and `Value::as_str`: the string member `key` of the object
/// on the line, which depends on the line and the key alone.
#[verifier::external_body]
fn string_member(line: &str, key: &str) -> (r: Option<String>)
    ensures
        match r {
            Some(v) => json_string_member(line@, key@) == Some(v@),
            None => json_string_member(line@, key@) is None,
        },
{
    let value: serde_json::Value = serde_json::from_str(line).ok()?;
    value.get(key)?.as_str().map(str::to_string)
}

/// The task id that an assistant event announces, given its `type` and
/// `thread_id` members: only a `thread.started` event carries one.
pub fn thread_id_from_members(event_type: Option<String>, thread_id: Option<String>) -> (r: Option<String>)
    ensures
        match event_type {
            Some(t) => if t@ == THREAD_STARTED_EVENT@ { r == thread_id } else { r is None },
            None => r is None,
        },
{
    match event_type {
        Some(t) => if crate::task::str_eq(t.as_str(), THREAD_STARTED_EVENT) {
            thread_id
        } else {
            None
        },
        None => None,
    }
}

/// The task id announced by an assistant event line, if it is a
/// `thread.started` event.
pub fn try_extract_thread_id(line: &str) -> (r: Option<String>)
    ensures
        match json_string_member(line@, "type"@) {
            Some(t) => if t == THREAD_STARTED_EVENT@ {
                match r {
                    Some(id) => json_string_member(line@, "thread_id"@) == Some(id@),
                    None => json_string_member(line@, "thread_id"@) is None,
                }
            } else {
                r is None
            },
            None => r is None,
        },
{
    let event_type = string_member(line, "type");
    match event_type {
        Some(t) => {
            if crate::task::str_eq(t.as_str(), THREAD_STARTED_EVENT) {
                string_member(line, "thread_id")
            } else {
                None
            }
        },
        None => None,
    }
}

/// The log record of one line of the assistant's output: the line and a
/// newline, prefixed with `[stderr] ` for stderr lines.
pub fn log_record(line: &str, from_stderr: bool) -> (r: String)
    ensures
        from_stderr ==> r@ == STDERR_PREFIX@ + line@ + seq!['\n'],
        !from_stderr ==> r@ == line@ + seq!['\n'],
{
    proof {
        reveal_strlit("\n");
    }
    if from_stderr {
        let mut s = String::from_str(STDERR_PREFIX);
        s.append(line);
        s.append("\n");
        s
    } else {
        let mut s = String::from_str(line);
        s.append("\n");
        s
    }
}

/// What the worker does with one line of the assistant's output.
#[derive(Clone, Debug)]
pub enum LogStep {
    /// No task exists yet; the line's record is kept for later.
    Buffered,
    /// The thread was announced: create the task under `thread_id`, then write
    /// `records` (every kept record, in arrival order, then this line's) to its log.
    Start { thread_id: String, records: Vec<String> },
    /// Append this record to the task's log.
    Append(String),
}

/// The log side of a worker: records kept until the thread is announced, then
/// the id of the task they belong to.
#[derive(Clone, Debug)]
pub struct SessionLog {
    thread_id: Option<String>,
    pending: Vec<String>,
}

/// The log record of a line as text.
pub open spec fn record_of(line: Seq<char>, from_stderr: bool) -> Seq<char> {
    if from_stderr { STDERR_PREFIX@ + line + seq!['\n'] } else { line + seq!['\n'] }
}

impl SessionLog {
    /// Records kept while no task exists.
    pub closed spec fn pending_view(&self) -> Seq<Seq<char>> {
        self.pending@.map_values(|r: String| r@)
    }

    /// The announced task id, once there is one.
    pub closed spec fn thread_view(&self) -> Option<Seq<char>> {
        match self.thread_id {
            Some(t) => Some(t@),
            None => None,
        }
    }

    /// Once the thread is announced nothing is kept back.
    pub open spec fn wf(&self) -> bool {
        self.thread_view() is Some ==> self.pending_view().len() == 0
    }

    /// A log with no task yet and nothing kept.
    pub fn new() -> (r: SessionLog)
        ensures
            r.wf(),
            r.thread_view() is None,
            r.pending_view() == Seq::<Seq<char>>::empty(),
    {
        let r = SessionLog { thread_id: None, pending: Vec::new() };
        proof {
            assert(r.pending_view() =~= Seq::<Seq<char>>::empty());
        }
        r
    }

    /// Whether the thread was announced.
    pub fn started(&self) -> (r: bool)
        ensures
            r == (self.thread_view() is Some),
    {
        self.thread_id.is_some()
    }

    /// Takes a line of the assistant's stderr.
    pub fn on_stderr(&mut self, line: &str) -> (r: LogStep)
        requires
            old(self).wf(),
        ensures
            final(self).wf(),
            final(self).thread_view() == old(self).thread_view(),
            old(self).thread_view() is Some ==> (r matches LogStep::Append(rec) && rec@ == record_of(line@, true))
                && final(self).pending_view() == old(self).pending_view(),
            old(self).thread_view() is None ==> r is Buffered && final(self).pending_view()
                == old(self).pending_view().push(record_of(line@, true)),
    {
        let rec = log_record(line, true);
        if self.thread_id.is_some() {
            return LogStep::Append(rec);
        }
        let ghost before = self.pending@;
        self.pending.push(rec);
        proof {
            assert(self.pending@.map_values(|r: String| r@) =~= before.map_values(|r: String| r@).push(record_of(line@, true)));
        }
        LogStep::Buffered
    }

    /// Takes a line of the assistant's stdout, which may announce the thread.
    pub fn on_stdout(&mut self, line: &str) -> (r: LogStep)
        requires
            old(self).wf(),
        ensures
            final(self).wf(),
            old(self).thread_view() is Some ==> (r matches LogStep::Append(rec) && rec@ == record_of(line@, false))
                && final(self).thread_view() == old(self).thread_view()
                && final(self).pending_view() == old(self).pending_view(),
            old(self).thread_view() is None ==> match try_extract_thread_id_spec(line@) {
                Some(id) => (r matches LogStep::Start { thread_id, records } && thread_id@ == id
                    && records@.map_values(|x: String| x@) == old(self).pending_view().push(record_of(line@, false)))
                    && final(self).thread_view() == Some(id) && final(self).pending_view().len() == 0,
                None => r is Buffered && final(self).thread_view() is None && final(self).pending_view()
                    == old(self).pending_view().push(record_of(line@, false)),
            },
    {
        let rec = log_record(line, false);
        if self.thread_id.is_some() {
            return LogStep::Append(rec);
        }
        let ghost before = self.pending@;
        match try_extract_thread_id(line) {
            Some(id) => {
                let mut records: Vec<String> = Vec::new();
                core::mem::swap(&mut records, &mut self.pending);
                records.push(rec);
                self.thread_id = Some(String::from_str(id.as_str()));
                proof {
                    assert(records@.map_values(|x: String| x@) =~= before.map_values(|r: String| r@).push(record_of(line@, false)));
                    assert(self.pending@.map_values(|r: String| r@) =~= Seq::<Seq<char>>::empty());
                }
                LogStep::Start { thread_id: id, records }
            },
            None => {
                self.pending.push(rec);
                proof {
                    assert(self.pending@.map_values(|r: String| r@) =~= before.map_values(|r: String| r@).push(record_of(line@, false)));
                }
                LogStep::Buffered
            },
        }
    }
}

/// The task id that a line announces, as `try_extract_thread_id` finds it.
pub open spec fn try_extract_thread_id_spec(line: Seq<char>) -> Option<Seq<char>> {
    match json_string_member(line, "type"@) {
        Some(t) => if t == THREAD_STARTED_EVENT@ { json_string_member(line, "thread_id"@) } else { None },
        None => None,
    }
}

/// The metadata the worker writes when the thread is announced: RUNNING, with
/// the prompt as both initial and last prompt, and the configured paths.
pub fn initial_metadata(config: &WorkerConfig, thread_id: String) -> (r: TaskMetadata)
    ensures
        r.id == thread_id,
        r.title == config.title,
        r.state == TaskState::Running,
        r.created_at == r.updated_at,
        r.initial_prompt matches Some(p) && p@ == config.initial_prompt@,
        r.last_prompt matches Some(p) && p@ == config.initial_prompt@,
        r.last_result is None,
        r.config_path == config.config_path,
        r.working_dir == config.working_dir,
{
    let mut m = TaskMetadata::new(thread_id, config.title.clone(), TaskState::Running);
    m.initial_prompt = Some(String::from_str(config.initial_prompt.as_str()));
    m.last_prompt = Some(String::from_str(config.initial_prompt.as_str()));
    m.config_path = config.config_path.clone();
    m.working_dir = config.working_dir.clone();
    m
}

/// Records the start of a follow-up turn: RUNNING, with this prompt as the
/// last one, and `updated_at` refreshed.
pub fn begin_invocation(metadata: &mut TaskMetadata, prompt: String)
    ensures
        *final(metadata) == (TaskMetadata {
            state: TaskState::Running,
            last_prompt: Some(prompt),
            updated_at: final(metadata).updated_at,
            ..*old(metadata)
        }),
{
    metadata.set_state(TaskState::Running);
    metadata.last_prompt = Some(prompt);
}

/// The state a turn leaves the task in: STOPPED after a clean exit of the
/// assistant, DIED after a failed one.
pub fn invocation_exit_state(success: bool) -> (r: TaskState)
    ensures
        success ==> r == TaskState::Stopped,
        !success ==> r == TaskState::Died,
{
    if success { TaskState::Stopped } else { TaskState::Died }
}

/// Records the end of a turn: the exit state, this prompt as the last one, and
/// `updated_at` refreshed.
pub fn finish_invocation(metadata: &mut TaskMetadata, success: bool, prompt: String)
    ensures
        *final(metadata) == (TaskMetadata {
            state: if success { TaskState::Stopped } else { TaskState::Died },
            last_prompt: Some(prompt),
            updated_at: final(metadata).updated_at,
            ..*old(metadata)
        }),
{
    let state = invocation_exit_state(success);
    metadata.set_state(state);
    metadata.last_prompt = Some(prompt);
}

/// Arguments of one `codex` invocation: `exec --json --output-last-message
/// <result>`, then `--cd <dir>` when a working directory is set, then
/// `resume <thread>` for a follow-up turn, then the prompt.
pub fn codex_arguments(result_path: &str, working_dir: Option<&str>, resume_thread: Option<&str>, prompt: &str) -> (r: Vec<String>)
    ensures
        r@.map_values(|a: String| a@) == seq!["exec"@, "--json"@, "--output-last-message"@, result_path@]
            + (match working_dir { Some(d) => seq!["--cd"@, d@], None => Seq::empty() })
            + (match resume_thread { Some(t) => seq!["resume"@, t@], None => Seq::empty() })
            + seq![prompt@],
{
    let mut args: Vec<String> = Vec::new();
    args.push(String::from_str("exec"));
    args.push(String::from_str("--json"));
    args.push(String::from_str("--output-last-message"));
    args.push(String::from_str(result_path));
    let ghost head = args@.map_values(|a: String| a@);
    proof {
        assert(head =~= seq!["exec"@, "--json"@, "--output-last-message"@, result_path@]);
    }
    let ghost mid: Seq<Seq<char>> = Seq::empty();
    match working_dir {
        Some(d) => {
            args.push(String::from_str("--cd"));
            args.push(String::from_str(d));
            proof { mid = seq!["--cd"@, d@]; }
        },
        None => {},
    }
    proof {
        assert(args@.map_values(|a: String| a@) =~= head + mid);
    }
    let ghost resume: Seq<Seq<char>> = Seq::empty();
    match resume_thread {
        Some(t) => {
            args.push(String::from_str("resume"));
            args.push(String::from_str(t));
            proof { resume = seq!["resume"@, t@]; }
        },
        None => {},
    }
    proof {
        assert(args@.map_values(|a: String| a@) =~= head + mid + resume);
    }
    args.push(String::from_str(prompt));
    proof {
        assert(args@.map_values(|a: String| a@) =~= head + mid + resume + seq![prompt@]);
    }
    args
}

} // verus!
