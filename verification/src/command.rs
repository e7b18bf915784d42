//! The external commands of a launch, and how their outcomes are judged.
//!
//! The library describes a command; its caller runs it, waits for it to end
//! and reports the outcome. Every command runs in the project root.

use crate::error::{verdict_view, LaunchError, LaunchErrorView, ToolFailure};
use crate::root::Entry;
use vstd::prelude::*;

verus! {

/// A command to run: the program, its arguments and the directory to run it
/// in.
#[derive(Clone, Debug, PartialEq, Eq)]
pub struct Command {
    pub program: String,
    pub args: Vec<String>,
    pub dir: String,
}

/// A `Command` with its strings as sequences of characters.
pub struct CommandView {
    pub program: Seq<char>,
    pub args: Seq<Seq<char>>,
    pub dir: Seq<char>,
}

impl View for Command {
    type V = CommandView;

    open spec fn view(&self) -> CommandView {
        CommandView { program: self.program@, args: self.args.deep_view(), dir: self.dir@ }
    }
}

/// What became of a command.
#[derive(Clone, Copy, Debug, PartialEq, Eq, Structural)]
pub enum Outcome {
    /// It could not be started.
    SpawnFailed,
    /// It ran and ended with this exit status.
    Exited(i32),
    /// It ran and ended without an exit status.
    Killed,
}

impl Outcome {
    /// Whether the command ran and ended with status 0.
    pub open spec fn spec_success(self) -> bool {
        self == Outcome::Exited(0)
    }

    /// Why the command counts as failed, where it does.
    pub open spec fn spec_failure(self) -> Option<ToolFailure> {
        match self {
            Outcome::SpawnFailed => Some(ToolFailure::NotStarted),
            Outcome::Exited(status) => if status == 0 {
                None
            } else {
                Some(ToolFailure::ReturnedError)
            },
            Outcome::Killed => Some(ToolFailure::ReturnedError),
        }
    }

    /// Tells whether the command ran and ended with status 0.
    pub fn success(&self) -> (r: bool)
        ensures
            r == self.spec_success(),
    {
        match self {
            Outcome::Exited(status) => *status == 0,
            _ => false,
        }
    }

    /// Tells why the command counts as failed, or `None` where it succeeded.
    pub fn failure(&self) -> (r: Option<ToolFailure>)
        ensures
            r == self.spec_failure(),
            r is None <==> self.spec_success(),
    {
        match self {
            Outcome::SpawnFailed => Some(ToolFailure::NotStarted),
            Outcome::Exited(status) => if *status == 0 {
                None
            } else {
                Some(ToolFailure::ReturnedError)
            },
            Outcome::Killed => Some(ToolFailure::ReturnedError),
        }
    }
}

/// The command that creates the environment of the project at `root`:
/// `uv venv .venv`.
pub open spec fn spec_create_venv_command(root: Seq<char>) -> CommandView {
    CommandView { program: "uv"@, args: seq!["venv"@, ".venv"@], dir: root }
}

/// The command that synchronises the dependencies of the project at `root`:
/// `uv sync`.
pub open spec fn spec_uv_sync_command(root: Seq<char>) -> CommandView {
    CommandView { program: "uv"@, args: seq!["sync"@], dir: root }
}

/// The command that starts the entry script of the project at `root` with
/// the interpreter `python`.
pub open spec fn spec_run_game_command(root: Seq<char>, python: Seq<char>, entry: Entry)
    -> CommandView {
    CommandView { program: python, args: seq![entry.spec_relative_path()], dir: root }
}

/// How the creation of the environment ended.
pub open spec fn spec_create_venv_result(outcome: Outcome) -> Result<(), LaunchErrorView> {
    match outcome.spec_failure() {
        None => Ok(()),
        Some(why) => Err(LaunchErrorView::ProvisioningFailed(why)),
    }
}

/// How the synchronisation ended.
pub open spec fn spec_uv_sync_result(outcome: Outcome) -> Result<(), LaunchErrorView> {
    match outcome.spec_failure() {
        None => Ok(()),
        Some(why) => Err(LaunchErrorView::SyncFailed(why)),
    }
}

/// How the run of the entry script ended.
pub open spec fn spec_run_game_result(outcome: Outcome) -> Result<(), LaunchErrorView> {
    match outcome.spec_failure() {
        None => Ok(()),
        Some(ToolFailure::NotStarted) => Err(LaunchErrorView::ChildLaunchFailed),
        Some(ToolFailure::ReturnedError) => Err(LaunchErrorView::ChildExitedWithError),
    }
}

/// Describes the command that creates the environment.
pub fn create_venv_command(project_root: &str) -> (r: Command)
    ensures
        r@ == spec_create_venv_command(project_root@),
{
    let mut args: Vec<String> = Vec::new();
    args.push("venv".to_owned());
    args.push(".venv".to_owned());
    assert(args.deep_view() =~= seq!["venv"@, ".venv"@]);
    Command { program: "uv".to_owned(), args, dir: project_root.to_owned() }
}

/// Describes the command that synchronises the dependencies.
pub fn uv_sync_command(project_root: &str) -> (r: Command)
    ensures
        r@ == spec_uv_sync_command(project_root@),
{
    let mut args: Vec<String> = Vec::new();
    args.push("sync".to_owned());
    assert(args.deep_view() =~= seq!["sync"@]);
    Command { program: "uv".to_owned(), args, dir: project_root.to_owned() }
}

/// Describes the command that starts the entry script.
pub fn run_game_command(project_root: &str, python: &str, entry: Entry) -> (r: Command)
    ensures
        r@ == spec_run_game_command(project_root@, python@, entry),
{
    let mut args: Vec<String> = Vec::new();
    args.push(entry.relative_path());
    assert(args.deep_view() =~= seq![entry.spec_relative_path()]);
    Command { program: python.to_owned(), args, dir: project_root.to_owned() }
}

/// Judges the outcome of the command that creates the environment: anything
/// but an exit with status 0 is `ProvisioningFailed`.
pub fn create_venv_result(outcome: Outcome) -> (r: Result<(), LaunchError>)
    ensures
        verdict_view(r) == spec_create_venv_result(outcome),
{
    match outcome.failure() {
        None => Ok(()),
        Some(why) => Err(LaunchError::ProvisioningFailed(why)),
    }
}

/// Judges the outcome of the command that synchronises the dependencies:
/// anything but an exit with status 0 is `SyncFailed`.
pub fn uv_sync_result(outcome: Outcome) -> (r: Result<(), LaunchError>)
    ensures
        verdict_view(r) == spec_uv_sync_result(outcome),
{
    match outcome.failure() {
        None => Ok(()),
        Some(why) => Err(LaunchError::SyncFailed(why)),
    }
}

/// Judges the outcome of the entry script's run: `ChildLaunchFailed` where
/// it could not be started, `ChildExitedWithError` where it ended with
/// anything but status 0.
pub fn run_game_result(outcome: Outcome) -> (r: Result<(), LaunchError>)
    ensures
        verdict_view(r) == spec_run_game_result(outcome),
{
    match outcome.failure() {
        None => Ok(()),
        Some(ToolFailure::NotStarted) => Err(LaunchError::ChildLaunchFailed),
        Some(ToolFailure::ReturnedError) => Err(LaunchError::ChildExitedWithError),
    }
}

} // verus!
