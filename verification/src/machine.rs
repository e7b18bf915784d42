//! The launch as a state machine.
//!
//! A launch goes through its stages in one order:
//! `Start`, `LocateRoot`, `EnsureEnv` (with `CreateEnv` where the
//! environment is missing), `Sync`, `ResolveInterpreter`, `Launch`, `Done`.
//! A failure at any stage leads to `Aborted`, and nothing follows it.
//!
//! The machine does no work itself. Each stage has a request for its driver:
//! find the executable, see which paths exist, run a command, or stop. The
//! driver does that and hands back an event, and the event decides the next
//! stage.

use crate::command::{
    create_venv_command, create_venv_result, run_game_command, run_game_result,
    spec_create_venv_command, spec_create_venv_result, spec_run_game_command,
    spec_run_game_result, spec_uv_sync_command, spec_uv_sync_result, uv_sync_command,
    uv_sync_result, Command, CommandView, Outcome,
};
use crate::error::{LaunchError, LaunchErrorView};
use crate::path::{
    parent, python_path, spec_parent, spec_python_path, spec_venv_path, venv_path, Platform,
};
use crate::root::{
    candidates, contains_path, find_project_root, spec_candidates, spec_find_project_root,
    ProjectRoot, ProjectRootView,
};
use vstd::prelude::*;

verus! {

/// What the machine asks of its driver.
#[derive(Clone, Debug, PartialEq, Eq)]
pub enum Action {
    /// Find the path of the running executable.
    ResolveExecutable,
    /// See which of these paths exist.
    Probe(Vec<String>),
    /// Run this command on the launcher's own console and wait for its end.
    Run(Command),
    /// Stop: the launch is done.
    Succeed,
    /// Stop: the launch failed for this reason.
    Fail(LaunchError),
}

/// An `Action` with its strings as sequences of characters.
pub enum ActionView {
    ResolveExecutable,
    Probe(Seq<Seq<char>>),
    Run(CommandView),
    Succeed,
    Fail(LaunchErrorView),
}

impl View for Action {
    type V = ActionView;

    open spec fn view(&self) -> ActionView {
        match self {
            Action::ResolveExecutable => ActionView::ResolveExecutable,
            Action::Probe(paths) => ActionView::Probe(paths.deep_view()),
            Action::Run(command) => ActionView::Run(command@),
            Action::Succeed => ActionView::Succeed,
            Action::Fail(e) => ActionView::Fail(e@),
        }
    }
}

/// What the driver reports back.
#[derive(Clone, Debug, PartialEq, Eq)]
pub enum Event {
    /// The path of the running executable, or `None` where it is unknown.
    Executable(Option<String>),
    /// The paths that exist, among those that were asked about.
    Present(Vec<String>),
    /// What became of the command.
    Exited(Outcome),
}

/// An `Event` with its strings as sequences of characters.
pub enum EventView {
    Executable(Option<Seq<char>>),
    Present(Seq<Seq<char>>),
    Exited(Outcome),
}

impl View for Event {
    type V = EventView;

    open spec fn view(&self) -> EventView {
        match self {
            Event::Executable(exe) => EventView::Executable(exe.deep_view()),
            Event::Present(paths) => EventView::Present(paths.deep_view()),
            Event::Exited(outcome) => EventView::Exited(*outcome),
        }
    }
}

/// Where a launch stands.
#[derive(Clone, Debug, PartialEq, Eq)]
pub enum Stage {
    /// Nothing is known yet.
    Start,
    /// The executable is at `exe`; the root above it is being looked for.
    LocateRoot { exe: String },
    /// The root is known; whether its environment exists is being looked up.
    EnsureEnv { root: ProjectRoot },
    /// The environment is missing and is being created.
    CreateEnv { root: ProjectRoot },
    /// The environment exists; the dependencies are being synchronised.
    Sync { root: ProjectRoot },
    /// The interpreter is being looked for inside the environment.
    ResolveInterpreter { root: ProjectRoot },
    /// The entry script is running.
    Launch { root: ProjectRoot },
    /// The entry script ran and ended well.
    Done,
    /// The launch failed.
    Aborted(LaunchError),
}

/// A `Stage` with its strings as sequences of characters.
pub enum StageView {
    Start,
    LocateRoot { exe: Seq<char> },
    EnsureEnv { root: ProjectRootView },
    CreateEnv { root: ProjectRootView },
    Sync { root: ProjectRootView },
    ResolveInterpreter { root: ProjectRootView },
    Launch { root: ProjectRootView },
    Done,
    Aborted(LaunchErrorView),
}

impl View for Stage {
    type V = StageView;

    open spec fn view(&self) -> StageView {
        match self {
            Stage::Start => StageView::Start,
            Stage::LocateRoot { exe } => StageView::LocateRoot { exe: exe@ },
            Stage::EnsureEnv { root } => StageView::EnsureEnv { root: root@ },
            Stage::CreateEnv { root } => StageView::CreateEnv { root: root@ },
            Stage::Sync { root } => StageView::Sync { root: root@ },
            Stage::ResolveInterpreter { root } => StageView::ResolveInterpreter { root: root@ },
            Stage::Launch { root } => StageView::Launch { root: root@ },
            Stage::Done => StageView::Done,
            Stage::Aborted(e) => StageView::Aborted(e@),
        }
    }
}

/// The interpreter of the project at `root`.
pub open spec fn spec_interpreter(root: Seq<char>, platform: Platform) -> Seq<char> {
    spec_python_path(spec_venv_path(root, platform), platform)
}

impl StageView {
    /// Whether the launch is over.
    pub open spec fn is_final(self) -> bool {
        self is Done || self is Aborted
    }

    /// What the machine asks of its driver at this stage.
    pub open spec fn request(self, platform: Platform) -> ActionView {
        match self {
            StageView::Start => ActionView::ResolveExecutable,
            StageView::LocateRoot { exe } => ActionView::Probe(spec_candidates(exe, platform)),
            StageView::EnsureEnv { root } => ActionView::Probe(
                seq![spec_venv_path(root.dir, platform)],
            ),
            StageView::CreateEnv { root } => ActionView::Run(spec_create_venv_command(root.dir)),
            StageView::Sync { root } => ActionView::Run(spec_uv_sync_command(root.dir)),
            StageView::ResolveInterpreter { root } => ActionView::Probe(
                seq![spec_interpreter(root.dir, platform)],
            ),
            StageView::Launch { root } => ActionView::Run(
                spec_run_game_command(root.dir, spec_interpreter(root.dir, platform), root.entry),
            ),
            StageView::Done => ActionView::Succeed,
            StageView::Aborted(e) => ActionView::Fail(e),
        }
    }

    /// The stage that follows this one on `event`.
    ///
    /// An event that does not answer the stage's request changes nothing, and
    /// neither does any event once the launch is over.
    pub open spec fn after(self, event: EventView, platform: Platform) -> StageView {
        match (self, event) {
            (StageView::Start, EventView::Executable(None)) => StageView::Aborted(
                LaunchErrorView::PathResolutionError,
            ),
            (StageView::Start, EventView::Executable(Some(exe))) => {
                if spec_parent(exe, platform) is Some {
                    StageView::LocateRoot { exe }
                } else {
                    StageView::Aborted(LaunchErrorView::PathResolutionError)
                }
            },
            (StageView::LocateRoot { exe }, EventView::Present(files)) => {
                match spec_find_project_root(exe, files, platform) {
                    Ok(root) => StageView::EnsureEnv { root },
                    Err(e) => StageView::Aborted(e),
                }
            },
            (StageView::EnsureEnv { root }, EventView::Present(files)) => {
                if files.contains(spec_venv_path(root.dir, platform)) {
                    StageView::Sync { root }
                } else {
                    StageView::CreateEnv { root }
                }
            },
            (StageView::CreateEnv { root }, EventView::Exited(outcome)) => {
                match spec_create_venv_result(outcome) {
                    Ok(()) => StageView::Sync { root },
                    Err(e) => StageView::Aborted(e),
                }
            },
            (StageView::Sync { root }, EventView::Exited(outcome)) => {
                match spec_uv_sync_result(outcome) {
                    Ok(()) => StageView::ResolveInterpreter { root },
                    Err(e) => StageView::Aborted(e),
                }
            },
            (StageView::ResolveInterpreter { root }, EventView::Present(files)) => {
                if files.contains(spec_interpreter(root.dir, platform)) {
                    StageView::Launch { root }
                } else {
                    StageView::Aborted(
                        LaunchErrorView::InterpreterMissing(spec_interpreter(root.dir, platform)),
                    )
                }
            },
            (StageView::Launch { root }, EventView::Exited(outcome)) => {
                match spec_run_game_result(outcome) {
                    Ok(()) => StageView::Done,
                    Err(e) => StageView::Aborted(e),
                }
            },
            (stage, _) => stage,
        }
    }

    /// The exit status of the launcher once the launch is over: 0 where it
    /// is done, 1 where it failed.
    pub open spec fn exit_code(self) -> Option<i32> {
        match self {
            StageView::Done => Some(0i32),
            StageView::Aborted(_) => Some(1i32),
            _ => None,
        }
    }
}

/// Derives the interpreter's path from the project root.
pub fn interpreter(project_root: &str, platform: Platform) -> (r: String)
    ensures
        r@ == spec_interpreter(project_root@, platform),
{
    let venv = venv_path(project_root, platform);
    python_path(venv.as_str(), platform)
}

impl Stage {
    /// Tells whether the launch is over.
    pub fn is_final(&self) -> (r: bool)
        ensures
            r == self@.is_final(),
    {
        match self {
            Stage::Done => true,
            Stage::Aborted(_) => true,
            _ => false,
        }
    }

    /// Gives the launcher's exit status: 0 where the launch is done, 1 where
    /// it failed, `None` while it is under way.
    pub fn exit_code(&self) -> (r: Option<i32>)
        ensures
            r == self@.exit_code(),
    {
        match self {
            Stage::Done => Some(0),
            Stage::Aborted(_) => Some(1),
            _ => None,
        }
    }

    /// Says what the driver is to do at this stage.
    pub fn request(&self, platform: Platform) -> (r: Action)
        ensures
            r@ == self@.request(platform),
    {
        match self {
            Stage::Start => Action::ResolveExecutable,
            Stage::LocateRoot { exe } => Action::Probe(candidates(exe.as_str(), platform)),
            Stage::EnsureEnv { root } => {
                let mut paths: Vec<String> = Vec::new();
                paths.push(venv_path(root.dir.as_str(), platform));
                assert(paths.deep_view() =~= seq![spec_venv_path(root.dir@, platform)]);
                Action::Probe(paths)
            },
            Stage::CreateEnv { root } => Action::Run(create_venv_command(root.dir.as_str())),
            Stage::Sync { root } => Action::Run(uv_sync_command(root.dir.as_str())),
            Stage::ResolveInterpreter { root } => {
                let mut paths: Vec<String> = Vec::new();
                paths.push(interpreter(root.dir.as_str(), platform));
                assert(paths.deep_view() =~= seq![spec_interpreter(root.dir@, platform)]);
                Action::Probe(paths)
            },
            Stage::Launch { root } => {
                let python = interpreter(root.dir.as_str(), platform);
                Action::Run(run_game_command(root.dir.as_str(), python.as_str(), root.entry))
            },
            Stage::Done => Action::Succeed,
            Stage::Aborted(e) => Action::Fail(e.duplicate()),
        }
    }

    /// Moves to the stage that follows on `event`.
    pub fn handle(self, event: Event, platform: Platform) -> (r: Stage)
        ensures
            r@ == self@.after(event@, platform),
    {
        match self {
            Stage::Start => match event {
                Event::Executable(None) => Stage::Aborted(LaunchError::PathResolutionError),
                Event::Executable(Some(exe)) => match parent(exe.as_str(), platform) {
                    Some(_) => Stage::LocateRoot { exe },
                    None => Stage::Aborted(LaunchError::PathResolutionError),
                },
                _ => Stage::Start,
            },
            Stage::LocateRoot { exe } => match event {
                Event::Present(files) => match find_project_root(exe.as_str(), &files, platform) {
                    Ok(root) => Stage::EnsureEnv { root },
                    Err(e) => Stage::Aborted(e),
                },
                _ => Stage::LocateRoot { exe },
            },
            Stage::EnsureEnv { root } => match event {
                Event::Present(files) => {
                    let venv = venv_path(root.dir.as_str(), platform);
                    if contains_path(&files, venv.as_str()) {
                        Stage::Sync { root }
                    } else {
                        Stage::CreateEnv { root }
                    }
                },
                _ => Stage::EnsureEnv { root },
            },
            Stage::CreateEnv { root } => match event {
                Event::Exited(outcome) => match create_venv_result(outcome) {
                    Ok(()) => Stage::Sync { root },
                    Err(e) => Stage::Aborted(e),
                },
                _ => Stage::CreateEnv { root },
            },
            Stage::Sync { root } => match event {
                Event::Exited(outcome) => match uv_sync_result(outcome) {
                    Ok(()) => Stage::ResolveInterpreter { root },
                    Err(e) => Stage::Aborted(e),
                },
                _ => Stage::Sync { root },
            },
            Stage::ResolveInterpreter { root } => match event {
                Event::Present(files) => {
                    let python = interpreter(root.dir.as_str(), platform);
                    if contains_path(&files, python.as_str()) {
                        Stage::Launch { root }
                    } else {
                        Stage::Aborted(LaunchError::InterpreterMissing(python))
                    }
                },
                _ => Stage::ResolveInterpreter { root },
            },
            Stage::Launch { root } => match event {
                Event::Exited(outcome) => match run_game_result(outcome) {
                    Ok(()) => Stage::Done,
                    Err(e) => Stage::Aborted(e),
                },
                _ => Stage::Launch { root },
            },
            Stage::Done => Stage::Done,
            Stage::Aborted(e) => Stage::Aborted(e),
        }
    }
}

/// Takes one step of the launch: the stage that follows `stage` on `event`,
/// and what the driver is to do next.
pub fn step(stage: Stage, event: Event, platform: Platform) -> (r: (Stage, Action))
    ensures
        r.0@ == stage@.after(event@, platform),
        r.1@ == r.0@.request(platform),
{
    let next = stage.handle(event, platform);
    let action = next.request(platform);
    (next, action)
}

} // verus!
