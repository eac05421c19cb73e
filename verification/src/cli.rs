//! Command-line interface model: the parsed invocation and its subcommands.
//! Argument parsing itself is I/O and lives in the surrounding application,
//! which hands a value of [`Cli`] to the library.

use vstd::prelude::*;

verus! {

/// One parsed invocation of the tool.
pub struct Cli {
    /// Enable debug logging.
    pub debug: bool,
    /// Installation path.
    pub install_path: Option<String>,
    /// The subcommand, when one was given.
    pub command: Option<Commands>,
}

/// The subcommands the tool accepts.
#[allow(inconsistent_fields)]
pub enum Commands {
    /// Set up the portable environment.
    SetupEnv,
    /// Register the installation path.
    SetupReg,
    /// Unregister the installation path.
    Unregister,
    /// Remove the installation completely.
    Uninstall,
    /// Change the installation path.
    ChangePath,
    /// Install a repository.
    InstallRepo { repo: String },
    /// Update a repository; without a name a selector is shown.
    UpdateRepo { repo: Option<String> },
    /// Delete a repository.
    DeleteRepo { repo: String },
    /// List installed repositories.
    ListRepos,
    /// Run a repository's start script with extra arguments.
    RunRepo { repo: String, args: Vec<String> },
    /// Show system information.
    SystemInfo,
    /// Check environment status and tools.
    CheckEnv,
    /// Install the platform build tools.
    InstallMsvc,
    /// Check the platform build tools.
    CheckMsvc,
    /// Report whether a supported GPU is present.
    CheckGpu,
    /// Show the version.
    Version,
}

impl Cli {
    /// Check if any command was provided.
    pub fn has_command(&self) -> (r: bool)
        ensures
            r == (self.command is Some),
    {
        self.command.is_some()
    }

    /// Get the command, or the system-information command when none was
    /// provided.
    pub fn get_command(&self) -> (r: &Commands)
        ensures
            match self.command {
                Some(ref c) => r == c,
                None => r is SystemInfo,
            },
    {
        match &self.command {
            Some(c) => c,
            None => &Commands::SystemInfo,
        }
    }
}

} // verus!
