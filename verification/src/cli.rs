//! The command line.

use vstd::prelude::*;

use crate::config::LoopOverrides;
use crate::files::{path_joined, AgentFlowPaths};
use crate::runner::resolve_path;
use crate::text::opt_text;

verus! {

/// The command line of the program. Paths are seen from the repository root.
#[derive(Debug)]
pub struct Cli {
    pub config: String,
    pub repo_root: String,
    pub omp: String,
    pub state: Option<String>,
    pub command: Command,
}

/// What the program is to do.
#[derive(Debug)]
pub enum Command {
    Run(RunArgs),
    Status,
    Open,
    Resume(ResumeArgs),
    Notify(MessageArgs),
    Halt(MessageArgs),
    SmokeTest,
}

/// The loop settings of a run that replace those of the configuration.
#[derive(Debug, Clone, Copy, PartialEq, Eq)]
pub struct RunArgs {
    pub start: Option<i64>,
    pub end: Option<i64>,
    pub count: Option<u64>,
}

/// What the agent is told when a run resumes.
#[derive(Debug)]
pub struct ResumeArgs {
    pub message: Option<String>,
}

/// The message of a pause or a halt.
#[derive(Debug)]
pub struct MessageArgs {
    pub message: String,
}

impl Default for RunArgs {
    fn default() -> (args: Self)
        ensures
            args.start is None,
            args.end is None,
            args.count is None,
    {
        RunArgs { start: None, end: None, count: None }
    }
}

impl RunArgs {
    /// The overrides of the loop settings.
    pub fn overrides(&self) -> (overrides: LoopOverrides)
        ensures
            overrides.start == self.start,
            overrides.end == self.end,
            overrides.count == self.count,
    {
        LoopOverrides { start: self.start, end: self.end, count: self.count }
    }
}

impl Cli {
    /// The path of the configuration.
    pub fn config_path(&self, repo_root: &str) -> (path: String)
        ensures
            path@ == path_joined(repo_root@, self.config@),
    {
        resolve_path(repo_root, self.config.as_str())
    }

    /// The paths of the repository, with the state file where the command line puts it.
    pub fn paths(&self, repo_root: &str) -> (paths: AgentFlowPaths)
        ensures
            paths.repo_root@ == repo_root@,
            paths.agentflow_dir@ == path_joined(repo_root@, ".agentflow"@),
            paths.state_path@ == (match opt_text(self.state) {
                Some(path) => path_joined(repo_root@, path),
                None => path_joined(path_joined(repo_root@, ".agentflow"@), "state.json"@),
            }),
            paths.runs_dir@ == path_joined(path_joined(repo_root@, ".agentflow"@), "runs"@),
    {
        let state = match &self.state {
            Some(path) => Some(resolve_path(repo_root, path.as_str())),
            None => None,
        };
        AgentFlowPaths::new(repo_root.to_owned(), state)
    }
}

} // verus!
