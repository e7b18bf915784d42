//! Decision logic of a bootstrap launcher: it finds a project directory above
//! the running executable, makes sure a virtual environment exists there,
//! synchronises the declared dependencies and starts the entry script.
//!
//! The library never touches the file system or a process. It says which
//! paths to look at and which commands to run, and it judges what came back:
//! a driver around it does the looking and the running.
//!
//! - `path`: paths as strings, and the layout of a project on disk.
//! - `root`: the search for the project root above the executable.
//! - `command`: the external commands and how their outcomes are judged.
//! - `machine`: the launch as a state machine for the driver to step.
//! - `laws`: what holds of every launch.
//! - `error`: the ways in which a launch can fail.

pub mod command;
pub mod error;
pub mod laws;
pub mod machine;
pub mod path;
pub mod root;

pub use crate::command::{Command, Outcome};
pub use crate::error::{LaunchError, ToolFailure};
pub use crate::machine::{step, Action, Event, Stage};
pub use crate::path::{python_path, Platform};
pub use crate::root::{find_project_root, Entry, ProjectRoot};
