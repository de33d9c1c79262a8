//! The outside programs the tool starts: what to start, with which
//! arguments and environment, and where.
pub mod editor;
pub mod process_runner;
pub mod version_control;

pub use editor::{SystemEditorService, SystemTerminalService};
pub use process_runner::{LaunchPlan, RunConfig, SystemProcessRunner};
pub use version_control::GitService;
