//! The command line of the tool: its options and its commands.
use vstd::prelude::*;

verus! {

/// The command line: a command, an optional configuration file, and
/// whether to say more.
#[derive(Debug)]
pub struct Cli {
    pub command: Commands,
    pub config: Option<String>,
    pub verbose: bool,
}

/// The commands of the tool.
#[derive(Debug)]
#[allow(inconsistent_fields)]
pub enum Commands {
    /// List the projects, filtered, in a layout, with statistics if asked.
    List {
        language: Option<String>,
        architecture: Option<String>,
        status: Option<String>,
        format: String,
        stats: bool,
    },
    /// Create a project.
    New { name: String, language: String, architecture: String, description: Option<String> },
    /// Open a project in an editor, or a terminal in it.
    Open { project: String, editor: Option<String>, terminal: bool },
    /// Run a project.
    Run { project: String, port: Option<u16>, profile: Option<String>, debug: bool },
    /// Write the portfolio document.
    Docs { output: String, detailed: bool },
    /// Write the configuration file.
    Init { force: bool },
    /// Change a project.
    Update {
        project: String,
        description: Option<String>,
        status: Option<String>,
        add_framework: Vec<String>,
        remove_framework: Vec<String>,
        gitlab_url: Option<String>,
    },
    /// Delete a project.
    Delete { project: String, yes: bool },
    /// Show the portfolio statistics.
    Stats,
}

} // verus!
