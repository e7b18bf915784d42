use launcher::command::{Command, Outcome};
use launcher::error::{LaunchError, ToolFailure};
use launcher::machine::{interpreter, step, Action, Event, Stage};
use launcher::path::Platform;
use launcher::root::{Entry, ProjectRoot};

/// A file system and tools that answer as told.
struct Surroundings {
    exe: Option<String>,
    files: Vec<String>,
    creation: Outcome,
    sync: Outcome,
    child: Outcome,
    /// What a successful creation and a successful sync leave on disk.
    installs: Vec<String>,
}

impl Surroundings {
    fn new(exe: &str, files: &[&str]) -> Surroundings {
        Surroundings {
            exe: Some(exe.to_string()),
            files: files.iter().map(|p| p.to_string()).collect(),
            creation: Outcome::Exited(0),
            sync: Outcome::Exited(0),
            child: Outcome::Exited(0),
            installs: Vec::new(),
        }
    }

    fn installing(mut self, paths: &[&str]) -> Surroundings {
        self.installs = paths.iter().map(|p| p.to_string()).collect();
        self
    }

    fn run(&mut self, command: &Command) -> Outcome {
        if command.program == "uv" && command.args.first().map(|a| a == "venv").unwrap_or(false) {
            if self.creation == Outcome::Exited(0) {
                self.files.push(format!("{}/.venv", command.dir));
            }
            self.creation
        } else if command.program == "uv" {
            if self.sync == Outcome::Exited(0) {
                let installed = self.installs.clone();
                self.files.extend(installed);
            }
            self.sync
        } else {
            self.child
        }
    }

    fn answer(&mut self, action: &Action) -> Option<Event> {
        match action {
            Action::ResolveExecutable => Some(Event::Executable(self.exe.clone())),
            Action::Probe(paths) => Some(Event::Present(
                paths.iter().filter(|p| self.files.contains(p)).cloned().collect(),
            )),
            Action::Run(command) => Some(Event::Exited(self.run(command))),
            Action::Succeed => None,
            Action::Fail(_) => None,
        }
    }
}

/// Drives a launch to its end and gives every request in order, and the
/// last stage.
fn launch(world: &mut Surroundings, platform: Platform) -> (Vec<Action>, Stage) {
    let mut stage = Stage::Start;
    let mut action = stage.request(platform);
    let mut asked = Vec::new();
    loop {
        asked.push(action.clone());
        assert!(asked.len() <= 8);
        match world.answer(&action) {
            Some(event) => {
                let (next, request) = step(stage, event, platform);
                stage = next;
                action = request;
            }
            None => return (asked, stage),
        }
    }
}

fn commands(asked: &[Action]) -> Vec<Command> {
    let mut out = Vec::new();
    for action in asked {
        if let Action::Run(command) = action {
            out.push(command.clone());
        }
    }
    out
}

fn command(program: &str, args: &[&str], dir: &str) -> Command {
    Command {
        program: program.to_string(),
        args: args.iter().map(|a| a.to_string()).collect(),
        dir: dir.to_string(),
    }
}

fn probes(asked: &[Action]) -> Vec<Vec<String>> {
    let mut out = Vec::new();
    for action in asked {
        if let Action::Probe(paths) = action {
            out.push(paths.clone());
        }
    }
    out
}

fn root(dir: &str, entry: Entry) -> ProjectRoot {
    ProjectRoot { dir: dir.to_string(), entry }
}

#[test]
fn launch_with_top_level_script_and_missing_environment_exits_zero() {
    let mut world = Surroundings::new("/app/launcher", &["/app/main.py"])
        .installing(&["/app/.venv/bin/python"]);
    let (asked, end) = launch(&mut world, Platform::Unix);
    assert_eq!(end, Stage::Done);
    assert_eq!(end.exit_code(), Some(0));
    assert_eq!(asked.last(), Some(&Action::Succeed));
    assert_eq!(
        commands(&asked),
        vec![
            command("uv", &["venv", ".venv"], "/app"),
            command("uv", &["sync"], "/app"),
            command("/app/.venv/bin/python", &["main.py"], "/app"),
        ]
    );
}

#[test]
fn launch_with_nested_script_runs_game_main_py() {
    let mut world = Surroundings::new("/app/launcher", &["/app/game/main.py"])
        .installing(&["/app/.venv/bin/python"]);
    let (asked, end) = launch(&mut world, Platform::Unix);
    assert_eq!(end, Stage::Done);
    assert_eq!(end.exit_code(), Some(0));
    let ran = commands(&asked);
    assert_eq!(ran.len(), 3);
    assert_eq!(ran[2], command("/app/.venv/bin/python", &["game/main.py"], "/app"));
}

#[test]
fn entry_script_exiting_with_one_is_child_exited_with_error() {
    let mut world = Surroundings::new("/app/launcher", &["/app/game/main.py"])
        .installing(&["/app/.venv/bin/python"]);
    world.child = Outcome::Exited(1);
    let (asked, end) = launch(&mut world, Platform::Unix);
    assert_eq!(end, Stage::Aborted(LaunchError::ChildExitedWithError));
    assert_eq!(asked.last(), Some(&Action::Fail(LaunchError::ChildExitedWithError)));
    assert_ne!(end.exit_code(), Some(0));
    assert_eq!(end.exit_code(), Some(1));
    assert_eq!(commands(&asked).len(), 3);
}

#[test]
fn requests_of_a_full_launch_in_order() {
    let mut world = Surroundings::new("/app/bin/launcher", &["/app/game/main.py"])
        .installing(&["/app/.venv/bin/python"]);
    let (asked, _) = launch(&mut world, Platform::Unix);
    let paths = |items: &[&str]| -> Vec<String> { items.iter().map(|p| p.to_string()).collect() };
    assert_eq!(
        asked,
        vec![
            Action::ResolveExecutable,
            Action::Probe(paths(&[
                "/app/bin/game/main.py",
                "/app/bin/main.py",
                "/app/game/main.py",
                "/app/main.py",
                "/game/main.py",
                "/main.py",
            ])),
            Action::Probe(paths(&["/app/.venv"])),
            Action::Run(command("uv", &["venv", ".venv"], "/app")),
            Action::Run(command("uv", &["sync"], "/app")),
            Action::Probe(paths(&["/app/.venv/bin/python"])),
            Action::Run(command("/app/.venv/bin/python", &["game/main.py"], "/app")),
            Action::Succeed,
        ]
    );
}

#[test]
fn existing_environment_is_not_created() {
    let mut world = Surroundings::new(
        "/app/launcher",
        &["/app/main.py", "/app/.venv", "/app/.venv/bin/python"],
    );
    let (asked, end) = launch(&mut world, Platform::Unix);
    assert_eq!(end, Stage::Done);
    assert_eq!(
        commands(&asked),
        vec![
            command("uv", &["sync"], "/app"),
            command("/app/.venv/bin/python", &["main.py"], "/app"),
        ]
    );
}

#[test]
fn missing_environment_is_created_once_before_sync() {
    let mut world = Surroundings::new("/app/launcher", &["/app/main.py"])
        .installing(&["/app/.venv/bin/python"]);
    let (asked, _) = launch(&mut world, Platform::Unix);
    let ran = commands(&asked);
    let creation = command("uv", &["venv", ".venv"], "/app");
    let sync = command("uv", &["sync"], "/app");
    assert_eq!(ran.iter().filter(|c| **c == creation).count(), 1);
    let created_at = ran.iter().position(|c| *c == creation).unwrap();
    let synced_at = ran.iter().position(|c| *c == sync).unwrap();
    assert!(created_at < synced_at);
}

#[test]
fn sync_runs_once_with_and_without_environment() {
    let sync = command("uv", &["sync"], "/app");
    let mut with = Surroundings::new(
        "/app/launcher",
        &["/app/main.py", "/app/.venv", "/app/.venv/bin/python"],
    );
    let (asked, _) = launch(&mut with, Platform::Unix);
    assert_eq!(commands(&asked).iter().filter(|c| **c == sync).count(), 1);
    let mut without = Surroundings::new("/app/launcher", &["/app/main.py"])
        .installing(&["/app/.venv/bin/python"]);
    let (asked, _) = launch(&mut without, Platform::Unix);
    assert_eq!(commands(&asked).iter().filter(|c| **c == sync).count(), 1);
}

#[test]
fn failed_creation_aborts_before_sync_and_interpreter() {
    let mut world = Surroundings::new("/app/launcher", &["/app/main.py", "/app/.venv/bin/python"]);
    world.creation = Outcome::Exited(2);
    let (asked, end) = launch(&mut world, Platform::Unix);
    assert_eq!(
        end,
        Stage::Aborted(LaunchError::ProvisioningFailed(ToolFailure::ReturnedError))
    );
    assert_eq!(end.exit_code(), Some(1));
    assert_eq!(commands(&asked), vec![command("uv", &["venv", ".venv"], "/app")]);
    assert_eq!(probes(&asked).len(), 2);
    assert!(!probes(&asked).contains(&vec!["/app/.venv/bin/python".to_string()]));
}

#[test]
fn creation_tool_that_cannot_start_is_provisioning_failed() {
    let mut world = Surroundings::new("/app/launcher", &["/app/main.py"]);
    world.creation = Outcome::SpawnFailed;
    let (asked, end) = launch(&mut world, Platform::Unix);
    assert_eq!(end, Stage::Aborted(LaunchError::ProvisioningFailed(ToolFailure::NotStarted)));
    assert_eq!(commands(&asked).len(), 1);
}

#[test]
fn failed_sync_aborts_before_interpreter() {
    let mut world = Surroundings::new(
        "/app/launcher",
        &["/app/main.py", "/app/.venv", "/app/.venv/bin/python"],
    );
    world.sync = Outcome::Exited(1);
    let (asked, end) = launch(&mut world, Platform::Unix);
    assert_eq!(end, Stage::Aborted(LaunchError::SyncFailed(ToolFailure::ReturnedError)));
    assert_eq!(end.exit_code(), Some(1));
    assert_eq!(commands(&asked), vec![command("uv", &["sync"], "/app")]);
    assert!(!probes(&asked).contains(&vec!["/app/.venv/bin/python".to_string()]));
}

#[test]
fn sync_tool_that_cannot_start_is_sync_failed() {
    let mut world = Surroundings::new("/app/launcher", &["/app/main.py", "/app/.venv"]);
    world.sync = Outcome::SpawnFailed;
    let (_, end) = launch(&mut world, Platform::Unix);
    assert_eq!(end, Stage::Aborted(LaunchError::SyncFailed(ToolFailure::NotStarted)));
}

#[test]
fn missing_interpreter_aborts_before_the_entry_script() {
    let mut world = Surroundings::new("/app/launcher", &["/app/main.py", "/app/.venv"]);
    let (asked, end) = launch(&mut world, Platform::Unix);
    assert_eq!(
        end,
        Stage::Aborted(LaunchError::InterpreterMissing("/app/.venv/bin/python".to_string()))
    );
    assert_eq!(commands(&asked), vec![command("uv", &["sync"], "/app")]);
}

#[test]
fn entry_script_that_cannot_start_is_child_launch_failed() {
    let mut world = Surroundings::new(
        "/app/launcher",
        &["/app/main.py", "/app/.venv", "/app/.venv/bin/python"],
    );
    world.child = Outcome::SpawnFailed;
    let (_, end) = launch(&mut world, Platform::Unix);
    assert_eq!(end, Stage::Aborted(LaunchError::ChildLaunchFailed));
}

#[test]
fn entry_script_that_is_killed_is_child_exited_with_error() {
    let mut world = Surroundings::new(
        "/app/launcher",
        &["/app/main.py", "/app/.venv", "/app/.venv/bin/python"],
    );
    world.child = Outcome::Killed;
    let (_, end) = launch(&mut world, Platform::Unix);
    assert_eq!(end, Stage::Aborted(LaunchError::ChildExitedWithError));
}

#[test]
fn unknown_executable_is_path_resolution_error() {
    let mut world = Surroundings::new("/app/launcher", &["/app/main.py"]);
    world.exe = None;
    let (asked, end) = launch(&mut world, Platform::Unix);
    assert_eq!(end, Stage::Aborted(LaunchError::PathResolutionError));
    assert_eq!(
        asked,
        vec![Action::ResolveExecutable, Action::Fail(LaunchError::PathResolutionError)]
    );
}

#[test]
fn executable_without_directory_aborts_without_probing() {
    let mut world = Surroundings::new("launcher", &["main.py"]);
    let (asked, end) = launch(&mut world, Platform::Unix);
    assert_eq!(end, Stage::Aborted(LaunchError::PathResolutionError));
    assert_eq!(asked.len(), 2);
}

#[test]
fn no_root_is_root_not_found_and_nothing_runs() {
    let mut world = Surroundings::new("/app/launcher", &["/elsewhere/main.py"]);
    let (asked, end) = launch(&mut world, Platform::Unix);
    assert_eq!(end, Stage::Aborted(LaunchError::RootNotFound));
    assert_eq!(end.exit_code(), Some(1));
    assert_eq!(commands(&asked), vec![]);
}

#[test]
fn launch_on_windows_uses_scripts_python_exe() {
    let mut world = Surroundings::new(
        "C:\\proj\\launcher\\target\\release\\launcher.exe",
        &["C:\\proj/game/main.py"],
    )
    .installing(&["C:\\proj/.venv/Scripts/python.exe"]);
    let (asked, end) = launch(&mut world, Platform::Windows);
    assert_eq!(end, Stage::Done);
    assert_eq!(
        commands(&asked),
        vec![
            command("uv", &["venv", ".venv"], "C:\\proj"),
            command("uv", &["sync"], "C:\\proj"),
            command("C:\\proj/.venv/Scripts/python.exe", &["game/main.py"], "C:\\proj"),
        ]
    );
}

#[test]
fn interpreter_lies_in_the_environment_of_the_root() {
    assert_eq!(interpreter("/app", Platform::Unix), "/app/.venv/bin/python");
    assert_eq!(interpreter("/app", Platform::Windows), "/app/.venv/Scripts/python.exe");
}

#[test]
fn stage_is_final_only_when_done_or_aborted() {
    assert!(Stage::Done.is_final());
    assert!(Stage::Aborted(LaunchError::RootNotFound).is_final());
    assert!(!Stage::Start.is_final());
    assert!(!Stage::LocateRoot { exe: "/app/launcher".to_string() }.is_final());
    assert!(!Stage::Sync { root: root("/app", Entry::Nested) }.is_final());
    assert_eq!(Stage::Start.exit_code(), None);
    assert_eq!(Stage::Launch { root: root("/app", Entry::Nested) }.exit_code(), None);
}

#[test]
fn event_that_answers_nothing_changes_nothing() {
    let platform = Platform::Unix;
    let waiting = vec![
        (Stage::Start, Event::Exited(Outcome::Exited(0))),
        (Stage::Start, Event::Present(vec!["/app/main.py".to_string()])),
        (
            Stage::LocateRoot { exe: "/app/launcher".to_string() },
            Event::Executable(Some("/other/launcher".to_string())),
        ),
        (Stage::EnsureEnv { root: root("/app", Entry::Nested) }, Event::Exited(Outcome::Exited(0))),
        (Stage::CreateEnv { root: root("/app", Entry::Nested) }, Event::Present(vec![])),
        (Stage::Sync { root: root("/app", Entry::Nested) }, Event::Executable(None)),
        (
            Stage::ResolveInterpreter { root: root("/app", Entry::Nested) },
            Event::Exited(Outcome::Exited(0)),
        ),
        (
            Stage::Launch { root: root("/app", Entry::Nested) },
            Event::Present(vec!["/app/.venv/bin/python".to_string()]),
        ),
    ];
    for (stage, event) in waiting {
        let before = stage.clone();
        let (after, request) = step(stage, event, platform);
        assert_eq!(after, before);
        assert_eq!(request, before.request(platform));
    }
}

#[test]
fn finished_launch_stays_finished() {
    let platform = Platform::Unix;
    let events = vec![
        Event::Executable(Some("/app/launcher".to_string())),
        Event::Present(vec!["/app/main.py".to_string()]),
        Event::Exited(Outcome::Exited(0)),
    ];
    for event in events {
        let (after, request) = step(Stage::Done, event.clone(), platform);
        assert_eq!(after, Stage::Done);
        assert_eq!(request, Action::Succeed);
        let failed = Stage::Aborted(LaunchError::SyncFailed(ToolFailure::ReturnedError));
        let (after, request) = step(failed.clone(), event, platform);
        assert_eq!(after, failed);
        assert_eq!(request, Action::Fail(LaunchError::SyncFailed(ToolFailure::ReturnedError)));
    }
}

#[test]
fn handle_and_request_agree_with_step() {
    let platform = Platform::Unix;
    let stage = Stage::EnsureEnv { root: root("/app", Entry::TopLevel) };
    let event = Event::Present(vec!["/app/.venv".to_string()]);
    let next = stage.clone().handle(event.clone(), platform);
    assert_eq!(next, Stage::Sync { root: root("/app", Entry::TopLevel) });
    let (stepped, request) = step(stage, event, platform);
    assert_eq!(stepped, next);
    assert_eq!(request, next.request(platform));
}
