//! Launch strategy resolution: decides, in strict priority order, how a
//! repository should be started. User intent (an explicit entry file) wins
//! over the repository's conventional entry point, which wins over
//! packaging metadata; an unresolvable repository still gets an
//! interactive interpreter session, never an error.

use vstd::prelude::*;

verus! {

/// What the repository-inspection collaborators reported: the entry-file
/// finder's candidate, whether a package manifest exists, and the script
/// module the manifest declares, if any.
pub struct RepoProbe {
    /// Candidate entry file reported by the entry-file finder.
    pub finder_main: Option<String>,
    /// Whether a package manifest is present in the repository root.
    pub manifest_present: bool,
    /// Script module declared by the package manifest, if one was found.
    pub script_module: Option<String>,
}

/// How a repository is started: a concrete entry file run by the
/// interpreter, a declared module run via module execution, or a bare
/// interactive interpreter.
pub enum LaunchStrategy {
    EntryFile { path: String },
    ModuleInvocation { module: String },
    InteractiveShell,
}

/// The resolution policy: explicit entry, then finder candidate, then
/// manifest-declared module (only when a manifest is present), then the
/// interactive fallback.
pub open spec fn spec_resolve(explicit_entry: Option<String>, probe: RepoProbe) -> LaunchStrategy {
    if explicit_entry is Some {
        LaunchStrategy::EntryFile { path: explicit_entry->0 }
    } else if probe.finder_main is Some {
        LaunchStrategy::EntryFile { path: probe.finder_main->0 }
    } else if probe.manifest_present && probe.script_module is Some {
        LaunchStrategy::ModuleInvocation { module: probe.script_module->0 }
    } else {
        LaunchStrategy::InteractiveShell
    }
}

/// Resolve the launch strategy for one repository. Total: every input
/// yields a strategy, and a missing strategy degrades to the next one.
pub fn resolve_strategy(explicit_entry: &Option<String>, probe: &RepoProbe) -> (r: LaunchStrategy)
    ensures
        r == spec_resolve(*explicit_entry, *probe),
{
    match explicit_entry {
        Some(path) => LaunchStrategy::EntryFile { path: path.clone() },
        None => match &probe.finder_main {
            Some(path) => LaunchStrategy::EntryFile { path: path.clone() },
            None => {
                if probe.manifest_present {
                    match &probe.script_module {
                        Some(module) => LaunchStrategy::ModuleInvocation {
                            module: module.clone(),
                        },
                        None => LaunchStrategy::InteractiveShell,
                    }
                } else {
                    LaunchStrategy::InteractiveShell
                }
            },
        },
    }
}

/// An explicit entry always resolves to that exact entry file, whatever
/// the finder and the inspector would otherwise report.
pub proof fn lemma_explicit_entry_wins(path: String, probe: RepoProbe)
    ensures
        spec_resolve(Some(path), probe) == (LaunchStrategy::EntryFile { path }),
{
}

/// When nothing was given and nothing was found, resolution still
/// succeeds: it returns the interactive fallback.
pub proof fn lemma_fallback_total(explicit_entry: Option<String>, probe: RepoProbe)
    requires
        explicit_entry is None,
        probe.finder_main is None,
        probe.script_module is None,
    ensures
        spec_resolve(explicit_entry, probe) is InteractiveShell,
{
}

} // verus!
