//! What holds of every launch.
//!
//! A launch is the run of the machine against its surroundings: the file
//! system and the external tools. A `World` holds what the surroundings
//! answer at each stage, and `stage_at` follows the machine through them.
//! The laws below hold for every `World`.

use crate::command::{
    spec_create_venv_command, spec_create_venv_result, spec_run_game_command,
    spec_run_game_result, spec_uv_sync_command, spec_uv_sync_result, Outcome,
};
use crate::error::LaunchErrorView;
use crate::machine::{spec_interpreter, ActionView, EventView, StageView};
use crate::path::{spec_join, spec_parent, spec_venv_path, Platform};
use crate::root::{
    candidates_from, spec_candidates, spec_find_project_root, ProjectRootView, SEARCH_LEVELS,
};
use vstd::prelude::*;

verus! {

/// What the surroundings of a launch answer, stage by stage.
pub struct World {
    /// The path of the running executable, if it can be found.
    pub exe: Option<Seq<char>>,
    /// The paths that exist while the root is looked for.
    pub scripts: Seq<Seq<char>>,
    /// The paths that exist when the environment is looked up.
    pub environment: Seq<Seq<char>>,
    /// What becomes of the command that creates the environment.
    pub creation: Outcome,
    /// What becomes of the command that synchronises the dependencies.
    pub sync: Outcome,
    /// The paths that exist when the interpreter is looked for.
    pub interpreter: Seq<Seq<char>>,
    /// What becomes of the entry script.
    pub child: Outcome,
}

impl World {
    /// The event with which the surroundings answer the request of `stage`.
    pub open spec fn answer(self, stage: StageView) -> EventView {
        match stage {
            StageView::Start => EventView::Executable(self.exe),
            StageView::LocateRoot { .. } => EventView::Present(self.scripts),
            StageView::EnsureEnv { .. } => EventView::Present(self.environment),
            StageView::CreateEnv { .. } => EventView::Exited(self.creation),
            StageView::Sync { .. } => EventView::Exited(self.sync),
            StageView::ResolveInterpreter { .. } => EventView::Present(self.interpreter),
            StageView::Launch { .. } => EventView::Exited(self.child),
            StageView::Done => EventView::Exited(self.child),
            StageView::Aborted(_) => EventView::Exited(self.child),
        }
    }

    /// Whether the search finds `root` in this world.
    pub open spec fn locates(self, root: ProjectRootView, platform: Platform) -> bool {
        self.exe matches Some(exe) && spec_find_project_root(exe, self.scripts, platform) == Ok::<
            ProjectRootView,
            LaunchErrorView,
        >(root)
    }

    /// Whether the environment of `root` exists when it is looked up.
    pub open spec fn has_environment(self, root: ProjectRootView, platform: Platform) -> bool {
        self.environment.contains(spec_venv_path(root.dir, platform))
    }

    /// Whether the interpreter of `root` exists when it is looked for.
    pub open spec fn has_interpreter(self, root: ProjectRootView, platform: Platform) -> bool {
        self.interpreter.contains(spec_interpreter(root.dir, platform))
    }

    /// How the launch ends in this world: the first failure on its way, or
    /// success where there is none.
    pub open spec fn verdict(self, platform: Platform) -> Result<(), LaunchErrorView> {
        match self.exe {
            None => Err(LaunchErrorView::PathResolutionError),
            Some(exe) => match spec_find_project_root(exe, self.scripts, platform) {
                Err(e) => Err(e),
                Ok(root) => {
                    if !self.has_environment(root, platform) && spec_create_venv_result(
                        self.creation,
                    ) is Err {
                        spec_create_venv_result(self.creation)
                    } else if spec_uv_sync_result(self.sync) is Err {
                        spec_uv_sync_result(self.sync)
                    } else if !self.has_interpreter(root, platform) {
                        Err(
                            LaunchErrorView::InterpreterMissing(
                                spec_interpreter(root.dir, platform),
                            ),
                        )
                    } else {
                        spec_run_game_result(self.child)
                    }
                },
            },
        }
    }
}

/// The number of exchanges after which every launch is over.
pub open spec fn max_steps() -> nat {
    7
}

/// The stage of the launch after `n` exchanges with `world`.
pub open spec fn stage_at(world: World, platform: Platform, n: nat) -> StageView
    decreases n,
{
    if n == 0 {
        StageView::Start
    } else {
        let before = stage_at(world, platform, (n - 1) as nat);
        before.after(world.answer(before), platform)
    }
}

/// What the machine asks of its driver after `n` exchanges with `world`.
pub open spec fn action_at(world: World, platform: Platform, n: nat) -> ActionView {
    stage_at(world, platform, n).request(platform)
}

/// Whether `action` runs the command that creates an environment.
pub open spec fn is_creation(action: ActionView) -> bool {
    action matches ActionView::Run(command) && command == spec_create_venv_command(command.dir)
}

/// Whether `action` runs the command that synchronises the dependencies.
pub open spec fn is_sync(action: ActionView) -> bool {
    action matches ActionView::Run(command) && command == spec_uv_sync_command(command.dir)
}

/// Whether `action` asks whether an interpreter exists.
pub open spec fn is_interpreter_check(action: ActionView, platform: Platform) -> bool {
    action matches ActionView::Probe(paths) && exists|dir: Seq<char>|
        paths == seq![#[trigger] spec_interpreter(dir, platform)]
}

/// Whether `action` runs an entry script with an interpreter.
pub open spec fn is_entry_run(action: ActionView, platform: Platform) -> bool {
    action matches ActionView::Run(command) && exists|dir: Seq<char>|
        command.program == #[trigger] spec_interpreter(dir, platform)
}

/// Once a launch is over, its stage stays what it is.
pub proof fn lemma_final_stage_stays(world: World, platform: Platform, n: nat, later: nat)
    requires
        stage_at(world, platform, n).is_final(),
        n <= later,
    ensures
        stage_at(world, platform, later) == stage_at(world, platform, n),
    decreases later,
{
    if n < later {
        lemma_final_stage_stays(world, platform, n, (later - 1) as nat);
    }
}

/// Every launch is over after seven exchanges, and it ends as the verdict
/// says: in `Done` where nothing failed, else in `Aborted` with the first
/// failure.
pub proof fn lemma_launch_ends_with_verdict(world: World, platform: Platform)
    ensures
        stage_at(world, platform, max_steps()) == (match world.verdict(platform) {
            Ok(()) => StageView::Done,
            Err(e) => StageView::Aborted(e),
        }),
        stage_at(world, platform, max_steps()).is_final(),
{
    reveal_with_fuel(stage_at, 8);
}

/// An environment that exists is not created again: where the environment
/// of the located root exists, no request of the launch runs the creation
/// command, and the launch never stands at `CreateEnv`.
pub proof fn lemma_existing_environment_is_not_created(
    world: World,
    platform: Platform,
    root: ProjectRootView,
)
    requires
        world.locates(root, platform),
        world.has_environment(root, platform),
    ensures
        forall|n: nat| !((#[trigger] stage_at(world, platform, n)) is CreateEnv),
        forall|n: nat| !is_creation(#[trigger] action_at(world, platform, n)),
{
    lemma_located_launch(world, platform, root);
    assert forall|n: nat| !((#[trigger] stage_at(world, platform, n)) is CreateEnv) by {
        if n <= 2 {
            lemma_rank_grows(world, platform, n, 2);
        } else {
            lemma_rank_grows(world, platform, 3, n);
        }
    }
    assert forall|n: nat| !is_creation(#[trigger] action_at(world, platform, n)) by {
        lemma_requests_tell_stage(stage_at(world, platform, n), platform);
    }
}

/// A missing environment is created exactly once, and before the
/// dependencies are synchronised: where the environment of the located root
/// is missing, exactly one request of the launch runs the creation command,
/// in the root, and every request that runs the sync command comes later.
pub proof fn lemma_missing_environment_is_created_once(
    world: World,
    platform: Platform,
    root: ProjectRootView,
) -> (at: nat)
    requires
        world.locates(root, platform),
        !world.has_environment(root, platform),
    ensures
        action_at(world, platform, at) == ActionView::Run(spec_create_venv_command(root.dir)),
        forall|n: nat| is_creation(#[trigger] action_at(world, platform, n)) ==> n == at,
        forall|n: nat| is_sync(#[trigger] action_at(world, platform, n)) ==> at < n,
{
    lemma_located_launch(world, platform, root);
    assert forall|n: nat|
        (is_creation(#[trigger] action_at(world, platform, n)) ==> n == 3) && (is_sync(
            action_at(world, platform, n),
        ) ==> 3 < n) by {
        lemma_requests_tell_stage(stage_at(world, platform, n), platform);
        if n < 3 {
            lemma_rank_grows(world, platform, n, 3);
        } else {
            lemma_rank_grows(world, platform, 3, n);
        }
    }
    3
}

/// The dependencies are synchronised exactly once in every launch that gets
/// that far, whether the environment existed or was created: exactly one
/// request of the launch runs the sync command, in the root.
pub proof fn lemma_sync_runs_once(world: World, platform: Platform, root: ProjectRootView) -> (at:
    nat)
    requires
        world.locates(root, platform),
        world.has_environment(root, platform) || world.creation.spec_success(),
    ensures
        action_at(world, platform, at) == ActionView::Run(spec_uv_sync_command(root.dir)),
        forall|n: nat| is_sync(#[trigger] action_at(world, platform, n)) ==> n == at,
{
    lemma_located_launch(world, platform, root);
    let at: nat = if world.has_environment(root, platform) {
        3
    } else {
        4
    };
    assert forall|n: nat| is_sync(#[trigger] action_at(world, platform, n)) implies n == at by {
        lemma_sync_runs_at_most_once(world, platform, n, at);
    }
    at
}

/// No launch synchronises the dependencies twice.
pub proof fn lemma_sync_runs_at_most_once(world: World, platform: Platform, m: nat, n: nat)
    requires
        is_sync(action_at(world, platform, m)),
        is_sync(action_at(world, platform, n)),
    ensures
        m == n,
{
    lemma_requests_tell_stage(stage_at(world, platform, m), platform);
    lemma_requests_tell_stage(stage_at(world, platform, n), platform);
    if m < n {
        lemma_rank_grows(world, platform, m, n);
    } else {
        lemma_rank_grows(world, platform, n, m);
    }
}

/// A failed tool ends the launch before the interpreter is looked for:
/// where the creation of a missing environment or the synchronisation does
/// not end with status 0, the launch is aborted with that failure, it never
/// stands at `ResolveInterpreter` or `Launch`, and no request asks about an
/// interpreter or runs an entry script.
pub proof fn lemma_tool_failure_ends_launch_before_interpreter(
    world: World,
    platform: Platform,
    root: ProjectRootView,
)
    requires
        world.locates(root, platform),
        (!world.has_environment(root, platform) && !world.creation.spec_success())
            || !world.sync.spec_success(),
    ensures
        stage_at(world, platform, max_steps()) == (if !world.has_environment(root, platform)
            && !world.creation.spec_success() {
            StageView::Aborted(
                LaunchErrorView::ProvisioningFailed(world.creation.spec_failure().unwrap()),
            )
        } else {
            StageView::Aborted(LaunchErrorView::SyncFailed(world.sync.spec_failure().unwrap()))
        }),
        forall|n: nat|
            !((#[trigger] stage_at(world, platform, n)) is ResolveInterpreter) && !(stage_at(
                world,
                platform,
                n,
            ) is Launch),
        forall|n: nat|
            !is_interpreter_check(#[trigger] action_at(world, platform, n), platform)
                && !is_entry_run(action_at(world, platform, n), platform),
{
    lemma_located_launch(world, platform, root);
    lemma_launch_ends_with_verdict(world, platform);
    let last: nat = if !world.has_environment(root, platform) && !world.creation.spec_success() {
        3
    } else if world.has_environment(root, platform) {
        3
    } else {
        4
    };
    assert(stage_at(world, platform, last + 1) is Aborted);
    assert forall|n: nat|
        !((#[trigger] stage_at(world, platform, n)) is ResolveInterpreter) && !(stage_at(
            world,
            platform,
            n,
        ) is Launch) by {
        if n <= last {
            lemma_rank_grows(world, platform, n, last);
        } else {
            lemma_final_stage_stays(world, platform, last + 1, n);
        }
    }
    assert forall|n: nat|
        !is_interpreter_check(#[trigger] action_at(world, platform, n), platform) && !is_entry_run(
            action_at(world, platform, n),
            platform,
        ) by {
        lemma_requests_tell_stage(stage_at(world, platform, n), platform);
    }
}

/// How far a stage is along the way of a launch.
spec fn rank(stage: StageView) -> nat {
    match stage {
        StageView::Start => 0,
        StageView::LocateRoot { .. } => 1,
        StageView::EnsureEnv { .. } => 2,
        StageView::CreateEnv { .. } => 3,
        StageView::Sync { .. } => 4,
        StageView::ResolveInterpreter { .. } => 5,
        StageView::Launch { .. } => 6,
        StageView::Done => 7,
        StageView::Aborted(_) => 7,
    }
}

/// A launch only moves forward.
proof fn lemma_rank_grows(world: World, platform: Platform, m: nat, n: nat)
    requires
        m <= n,
    ensures
        rank(stage_at(world, platform, m)) <= rank(stage_at(world, platform, n)),
        m < n && !stage_at(world, platform, m).is_final() ==> rank(stage_at(world, platform, m))
            < rank(stage_at(world, platform, n)),
    decreases n,
{
    if m < n {
        lemma_rank_grows(world, platform, m, (n - 1) as nat);
    }
}

/// The first stages of a launch that finds its root.
proof fn lemma_located_launch(world: World, platform: Platform, root: ProjectRootView)
    requires
        world.locates(root, platform),
    ensures
        stage_at(world, platform, 2) == (StageView::EnsureEnv { root }),
        world.has_environment(root, platform) ==> {
            &&& stage_at(world, platform, 3) == StageView::Sync { root }
            &&& stage_at(world, platform, 4) == (StageView::Sync { root }).after(
                EventView::Exited(world.sync),
                platform,
            )
        },
        !world.has_environment(root, platform) ==> {
            &&& stage_at(world, platform, 3) == StageView::CreateEnv { root }
            &&& stage_at(world, platform, 4) == (StageView::CreateEnv { root }).after(
                EventView::Exited(world.creation),
                platform,
            )
        },
        !world.has_environment(root, platform) && world.creation.spec_success() ==> {
            &&& stage_at(world, platform, 4) == StageView::Sync { root }
            &&& stage_at(world, platform, 5) == (StageView::Sync { root }).after(
                EventView::Exited(world.sync),
                platform,
            )
        },
{
    let exe = world.exe.unwrap();
    assert(stage_at(world, platform, 0) == StageView::Start);
    assert(stage_at(world, platform, 1) == StageView::LocateRoot { exe });
    assert(stage_at(world, platform, 2) == StageView::EnsureEnv { root });
    let third = stage_at(world, platform, 3);
    assert(third == stage_at(world, platform, 2).after(
        world.answer(stage_at(world, platform, 2)),
        platform,
    ));
    let fourth = stage_at(world, platform, 4);
    assert(fourth == third.after(world.answer(third), platform));
    let fifth = stage_at(world, platform, 5);
    assert(fifth == fourth.after(world.answer(fourth), platform));
}

/// The last character of a joined path is that of the added component.
proof fn lemma_join_keeps_last(base: Seq<char>, name: Seq<char>, platform: Platform)
    requires
        name.len() > 0,
    ensures
        spec_join(base, name, platform).len() > 0,
        spec_join(base, name, platform).last() == name.last(),
{
}

/// What a request asks tells the stage it comes from.
proof fn lemma_requests_tell_stage(stage: StageView, platform: Platform)
    ensures
        is_creation(stage.request(platform)) <==> stage is CreateEnv,
        is_sync(stage.request(platform)) <==> stage is Sync,
        is_interpreter_check(stage.request(platform), platform) <==> stage is ResolveInterpreter,
        is_entry_run(stage.request(platform), platform) <==> stage is Launch,
{
    reveal_strlit("uv");
    reveal_strlit("sync");
    reveal_strlit("venv");
    reveal_strlit(".venv");
    reveal_strlit("main.py");
    reveal_strlit("game/main.py");
    reveal_strlit("bin");
    reveal_strlit("Scripts");
    reveal_strlit("python");
    reveal_strlit("python.exe");
    match stage {
        StageView::LocateRoot { exe } => {
            let paths = spec_candidates(exe, platform);
            assert(paths.len() != 1) by {
                match spec_parent(exe, platform) {
                    Some(dir) => {
                        assert(candidates_from(dir, platform, SEARCH_LEVELS as nat).len() >= 2);
                    },
                    None => {},
                }
            }
        },
        StageView::EnsureEnv { root } => {
            let venv = spec_venv_path(root.dir, platform);
            lemma_join_keeps_last(root.dir, ".venv"@, platform);
            assert(venv.last() == 'v');
            assert forall|dir: Seq<char>| venv != #[trigger] spec_interpreter(dir, platform) by {
                lemma_interpreter_ends(dir, platform);
            }
            assert(stage.request(platform)->Probe_0[0] == venv);
        },
        StageView::CreateEnv { root } => {
            let command = spec_create_venv_command(root.dir);
            assert(command.args.len() == 2);
            assert(command.program.last() == 'v');
            assert forall|dir: Seq<char>| command.program != #[trigger] spec_interpreter(dir, platform) by {
                lemma_interpreter_ends(dir, platform);
            }
        },
        StageView::Sync { root } => {
            let command = spec_uv_sync_command(root.dir);
            assert(command.args.len() == 1);
            assert(command.program.last() == 'v');
            assert forall|dir: Seq<char>| command.program != #[trigger] spec_interpreter(dir, platform) by {
                lemma_interpreter_ends(dir, platform);
            }
        },
        StageView::ResolveInterpreter { root } => {
            let paths = seq![spec_interpreter(root.dir, platform)];
            assert(paths[0] == spec_interpreter(root.dir, platform));
        },
        StageView::Launch { root } => {
            let command = spec_run_game_command(
                root.dir,
                spec_interpreter(root.dir, platform),
                root.entry,
            );
            assert(command.args.len() == 1);
            assert(command.args[0] == root.entry.spec_relative_path());
            assert(command.args[0].len() != "sync"@.len());
            assert(spec_uv_sync_command(command.dir).args[0] == "sync"@);
            assert(command.args =~= seq![root.entry.spec_relative_path()]);
        },
        _ => {},
    }
}

/// An interpreter's path ends as the interpreter's name does.
proof fn lemma_interpreter_ends(dir: Seq<char>, platform: Platform)
    ensures
        spec_interpreter(dir, platform).len() > 0,
        spec_interpreter(dir, platform).last() == 'n' || spec_interpreter(dir, platform).last()
            == 'e',
{
    reveal_strlit("python");
    reveal_strlit("python.exe");
    let venv = spec_venv_path(dir, platform);
    match platform {
        Platform::Unix => {
            lemma_join_keeps_last(spec_join(venv, "bin"@, platform), "python"@, platform);
        },
        Platform::Windows => {
            lemma_join_keeps_last(spec_join(venv, "Scripts"@, platform), "python.exe"@, platform);
        },
    }
}

} // verus!
