use vstd::prelude::*;

use crate::errors::TaskError;
use crate::service::prompt_accepted;
use crate::store::last_component;
use crate::text::{trim_text, trimmed};

verus! {

/// Seconds the launcher waits for the worker's handshake line.
pub const HANDSHAKE_TIMEOUT_SECS: u64 = 60;

/// The only file name accepted for a custom config file.
pub const CONFIG_FILE_NAME: &'static str = "config.toml";

/// Parameters of a detached worker process.
#[derive(Clone, Debug)]
pub struct WorkerLaunchRequest {
    pub store_root: String,
    pub title: Option<String>,
    pub prompt: String,
    pub executable: Option<String>,
    pub config_path: Option<String>,
    pub working_directory: Option<String>,
}

impl WorkerLaunchRequest {
    /// A request for the given store root and prompt, with no optional settings.
    pub fn new(store_root: String, prompt: String) -> (r: WorkerLaunchRequest)
        ensures
            r.store_root == store_root,
            r.prompt == prompt,
            r.title is None,
            r.executable is None,
            r.config_path is None,
            r.working_directory is None,
    {
        WorkerLaunchRequest {
            store_root,
            title: None,
            prompt,
            executable: None,
            config_path: None,
            working_directory: None,
        }
    }

    /// The worker's command-line arguments: `worker --store-root <root>`, then
    /// `--config-path <path>` and `--working-dir <dir>` where set. The prompt
    /// and the title travel in the environment instead.
    pub fn worker_arguments(&self) -> (r: Vec<String>)
        ensures
            r@.map_values(|a: String| a@) == seq!["worker"@, "--store-root"@, self.store_root@]
                + (match self.config_path { Some(p) => seq!["--config-path"@, p@], None => Seq::empty() })
                + (match self.working_directory { Some(d) => seq!["--working-dir"@, d@], None => Seq::empty() }),
    {
        let mut args: Vec<String> = Vec::new();
        args.push(String::from_str("worker"));
        args.push(String::from_str("--store-root"));
        args.push(String::from_str(self.store_root.as_str()));
        let ghost head = args@.map_values(|a: String| a@);
        proof {
            assert(head =~= seq!["worker"@, "--store-root"@, self.store_root@]);
        }
        let ghost cfg: Seq<Seq<char>> = Seq::empty();
        match &self.config_path {
            Some(p) => {
                args.push(String::from_str("--config-path"));
                args.push(String::from_str(p.as_str()));
                proof { cfg = seq!["--config-path"@, p@]; }
            },
            None => {},
        }
        proof {
            assert(args@.map_values(|a: String| a@) =~= head + cfg);
        }
        let ghost dir: Seq<Seq<char>> = Seq::empty();
        match &self.working_directory {
            Some(d) => {
                args.push(String::from_str("--working-dir"));
                args.push(String::from_str(d.as_str()));
                proof { dir = seq!["--working-dir"@, d@]; }
            },
            None => {},
        }
        proof {
            assert(args@.map_values(|a: String| a@) =~= head + cfg + dir);
        }
        args
    }
}

/// Checks a handshake line already stripped of surrounding whitespace: it is
/// the task id unless empty.
pub fn check_trimmed_handshake(trimmed_line: &str) -> (r: Result<String, TaskError>)
    ensures
        trimmed_line@.len() > 0 ==> (r matches Ok(id) && id@ == trimmed_line@),
        trimmed_line@.len() == 0 ==> (r matches Err(e) && e is EmptyHandshake),
{
    if trimmed_line.unicode_len() == 0 {
        Err(TaskError::EmptyHandshake)
    } else {
        Ok(String::from_str(trimmed_line))
    }
}

/// The task id carried by the worker's handshake line.
pub fn parse_handshake(line: &str) -> (r: Result<String, TaskError>)
    ensures
        trimmed(line@).len() > 0 ==> (r matches Ok(id) && id@ == trimmed(line@)),
        trimmed(line@).len() == 0 ==> (r matches Err(e) && e is EmptyHandshake),
{
    check_trimmed_handshake(trim_text(line))
}

/// Parameters of a new task.
#[derive(Clone, Debug)]
pub struct StartTaskParams {
    pub title: Option<String>,
    pub prompt: String,
    pub config_file: Option<String>,
    pub working_dir: Option<String>,
    pub repo_url: Option<String>,
    pub repo_ref: Option<String>,
}

/// Result of starting a task: the id from the worker's handshake.
#[derive(Clone, Debug)]
pub struct StartTaskResult {
    pub thread_id: String,
}

/// A custom config file must be named `config.toml`.
pub fn check_config_file_name(path: &str) -> (r: Result<(), TaskError>)
    ensures
        r is Ok <==> last_component(path@) == CONFIG_FILE_NAME@,
        r matches Err(e) ==> (e matches TaskError::ConfigFileName { name } && name@ == last_component(path@)),
{
    let name = crate::store::final_component(path);
    if crate::task::str_eq(name.as_str(), CONFIG_FILE_NAME) {
        Ok(())
    } else {
        Err(TaskError::ConfigFileName { name })
    }
}

/// The checks on a new task's parameters that need no filesystem: a prompt
/// that is not blank, a working directory wherever a repository is given, and
/// a config file named `config.toml`; in that order.
pub fn validate_start(params: &StartTaskParams) -> (r: Result<(), TaskError>)
    ensures
        r is Ok <==> prompt_accepted(params.prompt@) && (params.repo_url is Some ==> params.working_dir is Some)
            && (params.config_file matches Some(c) ==> last_component(c@) == CONFIG_FILE_NAME@),
        !prompt_accepted(params.prompt@) ==> (r matches Err(e) && e is EmptyPrompt),
        prompt_accepted(params.prompt@) && params.repo_url is Some && params.working_dir is None ==> (r matches Err(e)
            && e is WorkingDirRequired),
{
    match crate::service::validate_prompt(params.prompt.as_str()) {
        Ok(()) => {},
        Err(e) => return Err(e),
    }
    if params.repo_url.is_some() && params.working_dir.is_none() {
        return Err(TaskError::WorkingDirRequired);
    }
    match &params.config_file {
        Some(c) => check_config_file_name(c.as_str()),
        None => Ok(()),
    }
}

} // verus!
