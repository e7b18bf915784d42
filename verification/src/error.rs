//! The ways in which a launch can fail.

use vstd::prelude::*;
use vstd::string::StringExecFns;

verus! {

/// Why an external tool did not do its work.
#[derive(Clone, Copy, Debug, PartialEq, Eq, Structural)]
pub enum ToolFailure {
    /// The tool could not be started at all.
    NotStarted,
    /// The tool ran and ended with an error.
    ReturnedError,
}

/// The failure that ended a launch. Each one ends it at once: nothing is
/// retried.
#[derive(Clone, Debug, PartialEq, Eq)]
pub enum LaunchError {
    /// The location of the running executable is unknown, or it names no
    /// directory.
    PathResolutionError,
    /// No directory within reach above the executable holds an entry script.
    RootNotFound,
    /// The environment could not be created.
    ProvisioningFailed(ToolFailure),
    /// The dependencies could not be synchronised.
    SyncFailed(ToolFailure),
    /// The environment holds no interpreter at the given path.
    InterpreterMissing(String),
    /// The entry script could not be started.
    ChildLaunchFailed,
    /// The entry script ran and ended with an error.
    ChildExitedWithError,
}

/// A `LaunchError` with its path as a sequence of characters.
pub enum LaunchErrorView {
    PathResolutionError,
    RootNotFound,
    ProvisioningFailed(ToolFailure),
    SyncFailed(ToolFailure),
    InterpreterMissing(Seq<char>),
    ChildLaunchFailed,
    ChildExitedWithError,
}

impl View for LaunchError {
    type V = LaunchErrorView;

    open spec fn view(&self) -> LaunchErrorView {
        match self {
            LaunchError::PathResolutionError => LaunchErrorView::PathResolutionError,
            LaunchError::RootNotFound => LaunchErrorView::RootNotFound,
            LaunchError::ProvisioningFailed(why) => LaunchErrorView::ProvisioningFailed(*why),
            LaunchError::SyncFailed(why) => LaunchErrorView::SyncFailed(*why),
            LaunchError::InterpreterMissing(path) => LaunchErrorView::InterpreterMissing(path@),
            LaunchError::ChildLaunchFailed => LaunchErrorView::ChildLaunchFailed,
            LaunchError::ChildExitedWithError => LaunchErrorView::ChildExitedWithError,
        }
    }
}

impl LaunchErrorView {
    /// The line shown to the operator: which stage failed, and why.
    pub open spec fn message(self) -> Seq<char> {
        match self {
            LaunchErrorView::PathResolutionError => "Unable to locate the directory of the current executable"@,
            LaunchErrorView::RootNotFound => "Unable to locate project root: main.py or game/main.py not found"@,
            LaunchErrorView::ProvisioningFailed(ToolFailure::NotStarted) => "Failed to run uv venv"@,
            LaunchErrorView::ProvisioningFailed(ToolFailure::ReturnedError) => "uv venv returned error"@,
            LaunchErrorView::SyncFailed(ToolFailure::NotStarted) => "Failed to run uv sync"@,
            LaunchErrorView::SyncFailed(ToolFailure::ReturnedError) => "uv sync returned error"@,
            LaunchErrorView::InterpreterMissing(path) => "Python inside venv not found: "@ + path,
            LaunchErrorView::ChildLaunchFailed => "Failed to launch the entry script"@,
            LaunchErrorView::ChildExitedWithError => "Game exited with error"@,
        }
    }
}

impl LaunchError {
    /// Makes a second value that stands for the same failure.
    pub fn duplicate(&self) -> (r: LaunchError)
        ensures
            r@ == self@,
    {
        match self {
            LaunchError::PathResolutionError => LaunchError::PathResolutionError,
            LaunchError::RootNotFound => LaunchError::RootNotFound,
            LaunchError::ProvisioningFailed(why) => LaunchError::ProvisioningFailed(*why),
            LaunchError::SyncFailed(why) => LaunchError::SyncFailed(*why),
            LaunchError::InterpreterMissing(path) => LaunchError::InterpreterMissing(path.clone()),
            LaunchError::ChildLaunchFailed => LaunchError::ChildLaunchFailed,
            LaunchError::ChildExitedWithError => LaunchError::ChildExitedWithError,
        }
    }

    /// Writes the line shown to the operator.
    pub fn message(&self) -> (r: String)
        ensures
            r@ == self@.message(),
    {
        match self {
            LaunchError::PathResolutionError => "Unable to locate the directory of the current executable".to_owned(),
            LaunchError::RootNotFound => "Unable to locate project root: main.py or game/main.py not found".to_owned(),
            LaunchError::ProvisioningFailed(ToolFailure::NotStarted) => "Failed to run uv venv".to_owned(),
            LaunchError::ProvisioningFailed(ToolFailure::ReturnedError) => "uv venv returned error".to_owned(),
            LaunchError::SyncFailed(ToolFailure::NotStarted) => "Failed to run uv sync".to_owned(),
            LaunchError::SyncFailed(ToolFailure::ReturnedError) => "uv sync returned error".to_owned(),
            LaunchError::InterpreterMissing(path) => {
                let mut line = "Python inside venv not found: ".to_owned();
                line.append(path.as_str());
                line
            },
            LaunchError::ChildLaunchFailed => "Failed to launch the entry script".to_owned(),
            LaunchError::ChildExitedWithError => "Game exited with error".to_owned(),
        }
    }
}

/// The result of a stage with its error, if any, as a `LaunchErrorView`.
pub open spec fn verdict_view(r: Result<(), LaunchError>) -> Result<(), LaunchErrorView> {
    match r {
        Ok(()) => Ok(()),
        Err(e) => Err(e@),
    }
}

} // verus!
