use portablesource::layout::{AcceleratorConfig, EnvironmentLayout, Platform};

#[test]
fn layout_unix_paths_exact() {
    let l = EnvironmentLayout::new(String::from("/opt/ps"), "MyRepo", Platform::Unix, None);
    assert_eq!(l.install_root, "/opt/ps");
    assert_eq!(l.env_root, "/opt/ps/ps_env");
    assert_eq!(l.per_repo_env_root, "/opt/ps/envs/myrepo");
    assert_eq!(l.repo_root, "/opt/ps/repos/myrepo");
    assert_eq!(l.temp_root, "/opt/ps/tmp");
    assert!(l.accelerator_paths.is_none());
}

#[test]
fn layout_windows_paths_exact() {
    let l = EnvironmentLayout::new(String::from("C:\\ps"), "Repo", Platform::Windows, None);
    assert_eq!(l.env_root, "C:\\ps\\ps_env");
    assert_eq!(l.per_repo_env_root, "C:\\ps\\envs\\repo");
    assert_eq!(l.repo_root, "C:\\ps\\repos\\repo");
    assert_eq!(l.temp_root, "C:\\ps\\tmp");
}

#[test]
fn layout_is_pure_function() {
    let a = EnvironmentLayout::new(String::from("/data/ai"), "Tool", Platform::Unix, None);
    let b = EnvironmentLayout::new(String::from("/data/ai"), "Tool", Platform::Unix, None);
    assert_eq!(a.install_root, b.install_root);
    assert_eq!(a.env_root, b.env_root);
    assert_eq!(a.per_repo_env_root, b.per_repo_env_root);
    assert_eq!(a.repo_root, b.repo_root);
    assert_eq!(a.temp_root, b.temp_root);
}

#[test]
fn layout_paths_under_install_root() {
    let l = EnvironmentLayout::new(String::from("/data/ai"), "tool", Platform::Unix, None);
    assert!(l.env_root.starts_with("/data/ai"));
    assert!(l.per_repo_env_root.starts_with("/data/ai"));
    assert!(l.repo_root.starts_with("/data/ai"));
    assert!(l.temp_root.starts_with("/data/ai"));
}

#[test]
fn layout_keeps_accelerator_paths() {
    let acc = AcceleratorConfig {
        base_path: String::from("/opt/ps/ps_env/CUDA"),
        bin_path: String::from("/opt/ps/ps_env/CUDA/bin"),
        lib_path: String::from("/opt/ps/ps_env/CUDA/lib"),
        lib64_path: String::from("/opt/ps/ps_env/CUDA/lib64"),
    };
    let l = EnvironmentLayout::new(String::from("/opt/ps"), "repo", Platform::Unix, Some(acc));
    let got = l.accelerator_paths.expect("accelerator paths kept");
    assert_eq!(got.base_path, "/opt/ps/ps_env/CUDA");
    assert_eq!(got.lib64_path, "/opt/ps/ps_env/CUDA/lib64");
}

#[test]
fn layout_lowercases_repository_name() {
    let l = EnvironmentLayout::new(String::from("/x"), "FaceFusion", Platform::Unix, None);
    assert_eq!(l.repo_root, "/x/repos/facefusion");
}
