use portablesource::strategy::{resolve_strategy, LaunchStrategy, RepoProbe};

fn probe(finder: Option<&str>, manifest: bool, module: Option<&str>) -> RepoProbe {
    RepoProbe {
        finder_main: finder.map(String::from),
        manifest_present: manifest,
        script_module: module.map(String::from),
    }
}

#[test]
fn explicit_entry_wins_over_everything() {
    let p = probe(Some("app.py"), true, Some("toolmod"));
    let s = resolve_strategy(&Some(String::from("run.py")), &p);
    match s {
        LaunchStrategy::EntryFile { path } => assert_eq!(path, "run.py"),
        _ => panic!("explicit entry must win"),
    }
}

#[test]
fn finder_candidate_used_without_explicit_entry() {
    let p = probe(Some("app.py"), true, Some("toolmod"));
    let s = resolve_strategy(&None, &p);
    match s {
        LaunchStrategy::EntryFile { path } => assert_eq!(path, "app.py"),
        _ => panic!("finder candidate must be used"),
    }
}

#[test]
fn manifest_module_used_when_no_entry_file() {
    let p = probe(None, true, Some("toolmod"));
    let s = resolve_strategy(&None, &p);
    match s {
        LaunchStrategy::ModuleInvocation { module } => assert_eq!(module, "toolmod"),
        _ => panic!("manifest module must be used"),
    }
}

#[test]
fn module_ignored_without_manifest() {
    let p = probe(None, false, Some("toolmod"));
    let s = resolve_strategy(&None, &p);
    assert!(matches!(s, LaunchStrategy::InteractiveShell));
}

#[test]
fn fallback_is_interactive_shell() {
    let p = probe(None, false, None);
    let s = resolve_strategy(&None, &p);
    assert!(matches!(s, LaunchStrategy::InteractiveShell));
}

#[test]
fn manifest_without_module_falls_back() {
    let p = probe(None, true, None);
    let s = resolve_strategy(&None, &p);
    assert!(matches!(s, LaunchStrategy::InteractiveShell));
}
