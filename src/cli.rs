//! The commands of the project tool, as plain values. Parsing them from the
//! command line happens outside the library.
use vstd::prelude::*;

verus! {

pub struct Cli {
    pub command: Option<CliCommand>,
}

pub enum CliCommand {
    /// View the API documentation.
    Docs,
    /// Create a new project from a template.
    New(NewSubcommand),
    /// Run the runtime's own test game.
    Test,
    /// Build and run the project.
    Run { release: bool },
    /// Build the project.
    Build { release: bool },
    /// Bundle the project for a target platform.
    Bundle { release: bool, target: String },
    /// Upgrade the tool to its latest version.
    Upgrade,
}

pub enum NewSubcommand {
    Game { identifier: String, name: String, template: Option<String> },
}

} // verus!
