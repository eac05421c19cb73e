//! Portable launcher tooling: resolves how a repository should be started,
//! renders platform startup scripts, and prepares managed subprocess runs.

use vstd::prelude::*;

pub mod cli;
pub mod layout;
pub mod runner;
pub mod script;
pub mod strategy;
pub mod templates;
pub mod text;

verus! {

/// Errors surfaced by the library: a failed external command, or an I/O
/// failure reported by the surrounding application when writing a script.
pub enum PortableSourceError {
    Command { message: String },
    Io { message: String },
}

impl PortableSourceError {
    /// Human-readable text of the error.
    pub fn message(&self) -> (r: &String)
        ensures
            r@ == match self {
                PortableSourceError::Command { message } => message@,
                PortableSourceError::Io { message } => message@,
            },
    {
        match self {
            PortableSourceError::Command { message } => message,
            PortableSourceError::Io { message } => message,
        }
    }
}

} // verus!
