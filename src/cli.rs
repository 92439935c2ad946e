use vstd::prelude::*;

verus! {

/// The parsed command line.
pub struct Cli {
    pub command: Option<CliCommand>,
}

/// The subcommands.
pub enum CliCommand {
    /// Show information about the project in this directory.
    Show,
    /// List engine versions: installed ones, or all available ones.
    List { available: bool },
    /// Install a version, again if `force` is set.
    Install { version: String, force: bool },
    /// Uninstall a version.
    Uninstall { version: String },
    /// Launch a version.
    Launch { version: String },
    /// Edit the project in this directory in its engine version.
    Edit,
    /// Show or remove cached archives.
    Cache { cache_command: Option<CacheCommand> },
}

/// The subcommands of `cache`.
pub enum CacheCommand {
    /// Show the cached versions.
    Show,
    /// Remove the cached archives of some versions, or of all.
    Rm { all: bool, versions: Vec<String> },
}

} // verus!
