use portablesource::cli::{Cli, Commands};
use portablesource::text::{base_name, double_backslashes, exe_stem, join_lines};
use portablesource::PortableSourceError;

#[test]
fn has_command_reports_presence() {
    let without = Cli { debug: false, install_path: None, command: None };
    assert!(!without.has_command());
    let with = Cli { debug: true, install_path: None, command: Some(Commands::ListRepos) };
    assert!(with.has_command());
}

#[test]
fn get_command_defaults_to_system_info() {
    let cli = Cli { debug: false, install_path: None, command: None };
    assert!(matches!(cli.get_command(), Commands::SystemInfo));
}

#[test]
fn get_command_returns_given_command() {
    let cli = Cli {
        debug: false,
        install_path: Some(String::from("/opt/ps")),
        command: Some(Commands::InstallRepo { repo: String::from("some/repo") }),
    };
    match cli.get_command() {
        Commands::InstallRepo { repo } => assert_eq!(repo, "some/repo"),
        _ => panic!("the given command must be returned"),
    }
}

#[test]
fn error_message_accessor() {
    let e = PortableSourceError::Command { message: String::from("boom") };
    assert_eq!(e.message().as_str(), "boom");
    let io = PortableSourceError::Io { message: String::from("disk full") };
    assert_eq!(io.message().as_str(), "disk full");
}

#[test]
fn base_name_extraction() {
    assert_eq!(base_name("/a/b/Tool"), "Tool");
    assert_eq!(base_name("C:\\x\\Tool"), "Tool");
    assert_eq!(base_name("plain"), "plain");
    assert_eq!(base_name("/ends/with/"), "");
}

#[test]
fn exe_stem_extraction() {
    assert_eq!(exe_stem("/usr/bin/python3"), "python3");
    assert_eq!(exe_stem("C:\\py\\python.exe"), "python");
    assert_eq!(exe_stem("git"), "git");
    assert_eq!(exe_stem(".bashrc"), ".bashrc");
    assert_eq!(exe_stem("archive.tar.gz"), "archive.tar");
    assert_eq!(exe_stem("git/"), "git");
    assert_eq!(exe_stem("/usr/local/bin/"), "bin");
}

#[test]
fn double_backslashes_exact() {
    assert_eq!(double_backslashes("C:\\a\\b"), "C:\\\\a\\\\b");
    assert_eq!(double_backslashes("/plain/path"), "/plain/path");
    assert_eq!(double_backslashes(""), "");
}

#[test]
fn join_lines_exact() {
    let lines = vec![String::from("a"), String::from("b"), String::from("c")];
    assert_eq!(join_lines(&lines), "a\nb\nc");
    assert_eq!(join_lines(&Vec::new()), "");
    assert_eq!(join_lines(&vec![String::from("solo")]), "solo");
}
