use portablesource::layout::AcceleratorConfig;
use portablesource::layout::Platform;
use portablesource::script::{RepositoryInfo, ScriptGenerator};
use portablesource::strategy::{LaunchStrategy, RepoProbe};

fn plain_info() -> RepositoryInfo {
    RepositoryInfo { url: None, main_file: None, program_args: None }
}

fn empty_probe() -> RepoProbe {
    RepoProbe { finder_main: None, manifest_present: false, script_module: None }
}

fn gen(install: &str) -> ScriptGenerator {
    ScriptGenerator::new(String::from(install), None)
}

fn full_accelerator() -> AcceleratorConfig {
    AcceleratorConfig {
        base_path: String::from("/ps/ps_env/CUDA"),
        bin_path: String::from("/ps/ps_env/CUDA/bin"),
        lib_path: String::from("/ps/ps_env/CUDA/lib"),
        lib64_path: String::from("/ps/ps_env/CUDA/lib64"),
    }
}

#[test]
fn virtual_drive_not_needed_for_short_ascii_path() {
    let g = gen("/home/user/ai");
    assert!(!g.needs_virtual_drive("/home/user/ai"));
}

#[test]
fn virtual_drive_needed_for_long_path() {
    let long: String = "/a".repeat(80);
    assert_eq!(long.len(), 160);
    let g = gen(&long);
    assert!(g.needs_virtual_drive(&long));
}

#[test]
fn virtual_drive_needed_for_path_with_space() {
    let g = gen("C:\\Program Files\\ps");
    assert!(g.needs_virtual_drive("C:\\Program Files\\ps"));
}

#[test]
fn virtual_drive_needed_for_non_ascii_path() {
    let g = gen("/home/пользователь/ai");
    assert!(g.needs_virtual_drive("/home/пользователь/ai"));
}

#[test]
fn launch_command_windows_entry_file() {
    let g = gen("C:\\ps");
    let s = LaunchStrategy::EntryFile { path: String::from("main.py") };
    let cmd = g.determine_launch_command_windows(&s, "--fast");
    assert_eq!(cmd, "\"%python_exe%\" \"main.py\" --fast");
}

#[test]
fn launch_command_windows_module() {
    let g = gen("C:\\ps");
    let s = LaunchStrategy::ModuleInvocation { module: String::from("toolmod") };
    let cmd = g.determine_launch_command_windows(&s, "--fast");
    assert_eq!(cmd, "\"%python_exe%\" -m toolmod --fast");
}

#[test]
fn launch_command_windows_interactive() {
    let g = gen("C:\\ps");
    let cmd = g.determine_launch_command_windows(&LaunchStrategy::InteractiveShell, "");
    assert_eq!(cmd, "\"%python_exe%\"");
}

#[test]
fn launch_command_unix_entry_file() {
    let g = gen("/ps");
    let s = LaunchStrategy::EntryFile { path: String::from("main.py") };
    let cmd = g.determine_launch_command_unix(&s, "--fast");
    assert_eq!(
        cmd,
        "if [[ -x \"$PYEXE\" ]]; then\n  \"$PYEXE\" \"main.py\" --fast\nelse\n  python3 \"main.py\" --fast\nfi"
    );
}

#[test]
fn launch_command_unix_module() {
    let g = gen("/ps");
    let s = LaunchStrategy::ModuleInvocation { module: String::from("toolmod") };
    let cmd = g.determine_launch_command_unix(&s, "-v");
    assert_eq!(
        cmd,
        "if [[ -x \"$PYEXE\" ]]; then\n  \"$PYEXE\" -m toolmod -v\nelse\n  python3 -m toolmod -v\nfi"
    );
}

#[test]
fn launch_command_unix_interactive() {
    let g = gen("/ps");
    let cmd = g.determine_launch_command_unix(&LaunchStrategy::InteractiveShell, "");
    assert_eq!(cmd, "if [[ -x \"$PYEXE\" ]]; then\n  \"$PYEXE\"\nelse\n  python3\nfi");
}

#[test]
fn cuda_windows_marker_without_accelerator() {
    let g = gen("C:\\ps");
    assert_eq!(g.generate_cuda_env_windows(), "REM No CUDA paths configured");
}

#[test]
fn cuda_windows_block_with_accelerator() {
    let g = ScriptGenerator::new(String::from("C:\\ps"), Some(full_accelerator()));
    let block = g.generate_cuda_env_windows();
    assert!(block.starts_with("set cuda_bin=%env_path%\\CUDA\\bin\n"));
    assert!(block.ends_with("set PATH=%cuda_nvvm_lib%;%PATH%"));
}

#[test]
fn cuda_unix_empty_without_accelerator() {
    let g = gen("/ps");
    assert_eq!(g.generate_cuda_env_unix(), "");
}

#[test]
fn cuda_unix_exports_exact() {
    let g = ScriptGenerator::new(String::from("/ps"), Some(full_accelerator()));
    let exports = g.generate_cuda_env_unix();
    assert_eq!(
        exports,
        "export CUDA_PATH=\"/ps/ps_env/CUDA\"\n\
         export CUDA_HOME=\"/ps/ps_env/CUDA\"\n\
         export CUDA_ROOT=\"/ps/ps_env/CUDA\"\n\
         export PATH=\"/ps/ps_env/CUDA/bin:$PATH\"\n\
         export LD_LIBRARY_PATH=\"/ps/ps_env/CUDA/lib:/ps/ps_env/CUDA/lib64:${LD_LIBRARY_PATH:-}\"\n"
    );
}

#[test]
fn cuda_unix_omits_lines_for_empty_getters() {
    let acc = AcceleratorConfig {
        base_path: String::from("/cuda"),
        bin_path: String::new(),
        lib_path: String::new(),
        lib64_path: String::new(),
    };
    let g = ScriptGenerator::new(String::from("/ps"), Some(acc));
    let exports = g.generate_cuda_env_unix();
    assert_eq!(
        exports,
        "export CUDA_PATH=\"/cuda\"\nexport CUDA_HOME=\"/cuda\"\nexport CUDA_ROOT=\"/cuda\"\n"
    );
}

#[test]
fn unix_script_structure_and_path() {
    let g = gen("/opt/ps");
    let r = g.generate_startup_script_unix("/opt/ps/repos/MyTool", &plain_info(), &empty_probe());
    assert_eq!(r.target_path, "/opt/ps/repos/MyTool/start_mytool.sh");
    assert!(r.executable_bit);
    assert!(r.content.starts_with("#!/usr/bin/env bash\n"));
    assert!(r.content.contains("INSTALL=\"/opt/ps\""));
    assert!(r.content.contains("REPO_PATH=\"/opt/ps/repos/MyTool\""));
    assert!(r.content.contains("VENV=\"$INSTALL/envs/mytool\""));
    assert!(r.content.contains("cd \"$REPO_PATH\"\nset +e\n"));
    assert!(r.content.contains(
        "if [[ -x \"$PYEXE\" ]]; then\n  \"$PYEXE\"\nelse\n  python3\nfi\nEXIT_CODE=$?\n"
    ));
    assert!(r.content.contains("echo \"Program finished with error (code: $EXIT_CODE)\""));
    assert!(r.content.contains("echo \"Program finished successfully\""));
    assert!(r.content.ends_with("exit $EXIT_CODE\n"));
}

#[test]
fn windows_script_simple_embeds_doubled_backslashes() {
    let g = gen("C:\\ps");
    let r = g.generate_startup_script_windows("C:\\ps\\repos\\Tool", &plain_info(), &empty_probe());
    assert_eq!(r.target_path, "C:\\ps\\repos\\Tool\\start_tool.bat");
    assert!(!r.executable_bit);
    assert!(r.content.starts_with("@echo off\necho Launch tool...\n"));
    assert!(r.content.contains("set base_path=C:\\\\ps\n"));
    assert!(r.content.contains("REM No CUDA paths configured"));
    assert!(!r.content.contains("subst"));
    assert!(r.content.ends_with("pause\n"));
}

#[test]
fn windows_script_uses_virtual_drive_for_awkward_root() {
    let g = gen("C:\\Program Files\\ps");
    let r = g.generate_startup_script_windows("C:\\x\\repos\\Tool", &plain_info(), &empty_probe());
    assert!(r.content.contains("subst %VDRIVE%: \"%ROOT_PATH%\""));
    assert!(r.content.contains("vdrive.txt"));
    assert!(!r.content.contains("{{"));
}

#[test]
fn windows_script_carries_entry_and_args() {
    let g = gen("C:\\ps");
    let info = RepositoryInfo {
        url: None,
        main_file: Some(String::from("run.py")),
        program_args: Some(String::from("--share")),
    };
    let r = g.generate_startup_script_windows("C:\\ps\\repos\\app", &info, &empty_probe());
    assert!(r.content.contains("\"%python_exe%\" \"run.py\" --share\n"));
}

#[test]
fn synthesis_is_idempotent() {
    let g = gen("/opt/ps");
    let info = RepositoryInfo {
        url: Some(String::from("https://example.invalid/repo.git")),
        main_file: Some(String::from("run.py")),
        program_args: Some(String::from("--share")),
    };
    let p = empty_probe();
    let a = g.generate_startup_script(Platform::Unix, "/opt/ps/repos/app", &info, &p);
    let b = g.generate_startup_script(Platform::Unix, "/opt/ps/repos/app", &info, &p);
    assert_eq!(a.content, b.content);
    assert_eq!(a.target_path, b.target_path);
    assert_eq!(a.executable_bit, b.executable_bit);
    let c = g.generate_startup_script(Platform::Windows, "/opt/ps/repos/app", &info, &p);
    let d = g.generate_startup_script(Platform::Windows, "/opt/ps/repos/app", &info, &p);
    assert_eq!(c.content, d.content);
    assert_eq!(c.target_path, d.target_path);
}

#[test]
fn accelerator_absence_leaves_rest_of_script_unchanged() {
    let with_acc = ScriptGenerator::new(String::from("/ps"), Some(full_accelerator()));
    let without = gen("/ps");
    let info = plain_info();
    let p = empty_probe();
    let a = with_acc.generate_startup_script_unix("/ps/repos/app", &info, &p);
    let b = without.generate_startup_script_unix("/ps/repos/app", &info, &p);
    let a_rest: String = a.content.replace(&with_acc.generate_cuda_env_unix(), "");
    assert_eq!(a_rest, b.content);
}

#[test]
fn repository_name_ignores_trailing_separator() {
    let g = gen("/opt/ps");
    let r = g.generate_startup_script_unix("/opt/ps/repos/App/", &plain_info(), &empty_probe());
    assert!(r.target_path.ends_with("start_app.sh"));
    assert!(r.content.contains("VENV=\"$INSTALL/envs/app\""));
}
