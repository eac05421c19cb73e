//! Startup-script templates. Each template is stored as the literal text
//! segments that stand between its substitution points; a renderer
//! interleaves the segments with the substituted values, so the rendered
//! content is pinned exactly by the segment constants.

use vstd::prelude::*;

verus! {

pub const WIN_SIMPLE_0: &'static str = "@echo off\necho Launch ";

pub const WIN_SIMPLE_1: &'static str = "...\n\nset base_path=";

pub const WIN_SIMPLE_2: &'static str = "\nset env_path=%base_path%\\ps_env\nset envs_path=%base_path%\\envs\nset repos_path=%base_path%\\repos\n\nset ffmpeg_path=%env_path%\\ffmpeg\nset git_path=%env_path%\\git\\bin\nset python_path=%envs_path%\\";

pub const WIN_SIMPLE_3: &'static str = "\nset python_exe=%python_path%\\python.exe\nset repo_path=%repos_path%\\";

pub const WIN_SIMPLE_4: &'static str = "\n\nset tmp_path=%base_path%\\tmp\nset USERPROFILE=%tmp_path%\nset TEMP=%tmp_path%\\Temp\nset TMP=%tmp_path%\\Temp\nset APPDATA=%tmp_path%\\AppData\\Roaming\nset LOCALAPPDATA=%tmp_path%\\AppData\\Local\nset HF_HOME=%repo_path%\\huggingface_home\nset XDG_CACHE_HOME=%tmp_path%\nset HF_DATASETS_CACHE=%HF_HOME%\\datasets\n\nset PYTHONIOENCODING=utf-8\nset PYTHONUNBUFFERED=1\nset PYTHONDONTWRITEBYTECODE=1\n\nREM === CUDA PATHS ===\n";

pub const WIN_SIMPLE_5: &'static str = "\n\nset PATH=%python_path%;%PATH%\nset PATH=%python_path%\\Scripts;%PATH%\nset PATH=%git_path%;%PATH%\nset PATH=%ffmpeg_path%;%PATH%\n\ncd /d \"%repo_path%\"\n";

pub const WIN_SIMPLE_6: &'static str = "\nset EXIT_CODE=%ERRORLEVEL%\n\nif %EXIT_CODE% neq 0 (\n    echo.\n    echo Program finished with error (code: %EXIT_CODE%)\n) else (\n    echo.\n    echo Program finished successfully\n)\n\npause\n";

pub const WIN_VDRIVE_0: &'static str = "@echo off\necho Launch ";

pub const WIN_VDRIVE_1: &'static str = "...\n\nREM Setup cleanup trap for any exit\nset CLEANUP_DRIVE=\nset CLEANUP_NEEDED=0\n\nREM Get absolute path to install directory\nfor %%i in (\"%~dp0..\\..\\\") do set \"ROOT_PATH=%%~fi\"\n\nREM Clean up any leftover drives from previous runs\necho Checking for leftover virtual drives...\nfor %%d in (X Y Z W V U T S R Q P O N M L K J I H G F E D) do (\n    if exist %%d:\\ (\n        REM Check if it's a network/virtual drive that might be ours\n        for /f \"skip=1\" %%x in ('wmic logicaldisk where \"DeviceID='%%d:'\" get DriveType 2^>nul') do (\n            if \"%%x\"==\"4\" (\n                REM Network drive - check if it contains our files\n                if exist \"%%d:\\portablesource-rs.exe\" (\n                    echo Found leftover drive %%d: with our installation\n                ) else (\n                    REM Check if it points to our installation path\n                    for /f \"tokens=*\" %%p in ('subst %%d: 2^>nul') do (\n                        echo %%p | findstr /i \"%ROOT_PATH%\" >nul\n                        if not errorlevel 1 (\n                            echo Unmounting leftover drive %%d: pointing to our path\n                            subst %%d: /D >nul 2>&1\n                        )\n                    )\n                )\n            )\n        )\n    )\n)\n\nREM Smart drive letter selection with persistence\nset VDRIVE=\nset VDRIVE_FILE=\"%ROOT_PATH%\\vdrive.txt\"\n\nREM First try to read saved drive letter\nif exist %VDRIVE_FILE% (\n    set /p VDRIVE=<%VDRIVE_FILE%\n    echo Found saved drive letter: %VDRIVE%\n    \n    if defined VDRIVE (\n        REM Check if this drive exists in system\n        if not exist %VDRIVE%:\\ (\n            echo Drive %VDRIVE%: does not exist, will mount it\n            goto :mount_drive\n        ) else (\n            echo Drive %VDRIVE%: exists, checking contents...\n            \n            REM Drive exists - check if it contains our portablesource-rs.exe\n            if exist \"%VDRIVE%:\\portablesource-rs.exe\" (\n                echo Drive %VDRIVE%: contains our installation, not mounting\n                goto :use_existing_drive\n            ) else (\n                REM Check if drive is empty\n                dir %VDRIVE%:\\ /b >nul 2>&1\n                if errorlevel 1 (\n                    echo Drive %VDRIVE%: is empty, unmounting and reusing\n                    subst %VDRIVE%: /D >nul 2>&1\n                    goto :mount_drive\n                ) else (\n                    echo Drive %VDRIVE%: is occupied by other software, finding new drive\n                    set VDRIVE=\n                )\n            )\n        )\n    )\n)\n\nREM Find new available drive letter\nif not defined VDRIVE (\n    echo Searching for new available drive letter...\n    for %%d in (X Y Z W V U T S R Q P O N M L K J I H G F E D) do (\n        if not exist %%d:\\ (\n            echo Drive %%d: does not exist - AVAILABLE\n            set VDRIVE=%%d\n            echo Selected new available drive: %%d\n            echo %%d>%VDRIVE_FILE%\n            goto :mount_drive\n        )\n    )\n    echo All drives checked, none available\n)\n\nREM No available drive found\nif not defined VDRIVE (\n    echo WARNING: No available drive letters found, using absolute path\n    set base_path=%ROOT_PATH%\n    echo Using absolute path: %base_path%\n    goto :setup_paths\n)\n\n:mount_drive\nset DRIVE_MOUNTED=1\nset CLEANUP_DRIVE=%VDRIVE%\nset CLEANUP_NEEDED=1\necho Mounting install path as %VDRIVE%: drive...\nsubst %VDRIVE%: \"%ROOT_PATH%\"\nif errorlevel 1 (\n    echo ERROR: Failed to mount virtual drive. Path: %ROOT_PATH%\n    pause\n    exit /b 1\n)\nREM Change drive and directory, then reliably continue execution\ncd /d %VDRIVE%:\\\ngoto :setup_paths\n\n:use_existing_drive\nset DRIVE_MOUNTED=0\nset CLEANUP_DRIVE=\nset CLEANUP_NEEDED=0\necho Using existing mounted drive %VDRIVE%:\nREM Change drive and directory, then reliably continue execution\ncd /d %VDRIVE%:\\\ngoto :setup_paths\n\n:setup_paths\nREM Setup Ctrl+C handler for cleanup\nif %CLEANUP_NEEDED%==1 (\n    set \"CLEANUP_CMD=if exist %CLEANUP_DRIVE%:\\ subst %CLEANUP_DRIVE%: /D >nul 2^>^&1\"\n)\n\nif defined VDRIVE (\n    set base_path=%VDRIVE%:\n) else (\n    REM base_path already set to %ROOT_PATH% in fallback mode\n)\nset env_path=%base_path%\\ps_env\nset envs_path=%base_path%\\envs\nset repos_path=%base_path%\\repos\n\nset ffmpeg_path=%env_path%\\ffmpeg\nset git_path=%env_path%\\git\\bin\nset python_path=%envs_path%\\";

pub const WIN_VDRIVE_2: &'static str = "\nset python_exe=%python_path%\\python.exe\nset repo_path=%repos_path%\\";

pub const WIN_VDRIVE_3: &'static str = "\n\nset tmp_path=%base_path%\\tmp\nset USERPROFILE=%tmp_path%\nset TEMP=%tmp_path%\\Temp\nset TMP=%tmp_path%\\Temp\nset APPDATA=%tmp_path%\\AppData\\Roaming\nset LOCALAPPDATA=%tmp_path%\\AppData\\Local\nset HF_HOME=%repo_path%\\huggingface_home\nset XDG_CACHE_HOME=%tmp_path%\nset HF_DATASETS_CACHE=%HF_HOME%\\datasets\n\nset PYTHONIOENCODING=utf-8\nset PYTHONUNBUFFERED=1\nset PYTHONDONTWRITEBYTECODE=1\n\nREM === CUDA PATHS ===\n";

pub const WIN_VDRIVE_4: &'static str = "\n\nset PATH=%python_path%;%PATH%\nset PATH=%python_path%\\Scripts;%PATH%\nset PATH=%git_path%;%PATH%\nset PATH=%ffmpeg_path%;%PATH%\n\ncd /d \"%repo_path%\"\n";

pub const WIN_VDRIVE_5: &'static str = "\nset EXIT_CODE=%ERRORLEVEL%\n\necho Cleaning up...\nif %CLEANUP_NEEDED%==1 (\n    if defined CLEANUP_DRIVE (\n        echo Unmounting drive %CLEANUP_DRIVE%:\n        subst %CLEANUP_DRIVE%: /D\n    )\n) else (\n    if defined VDRIVE (\n        echo Drive %VDRIVE%: was not mounted by us, leaving it\n    ) else (\n        echo Using absolute path mode, no drive to unmount\n    )\n)\n\nif %EXIT_CODE% neq 0 (\n    echo.\n    echo Program finished with error (code: %EXIT_CODE%)\n) else (\n    echo.\n    echo Program finished successfully\n)\n\npause\n";

pub const UNIX_SH_0: &'static str = "#!/usr/bin/env bash\nset -Eeuo pipefail\n\nINSTALL=\"";

pub const UNIX_SH_1: &'static str = "\"\nENV_PATH=\"$INSTALL/ps_env\"\nBASE_PREFIX=\"$ENV_PATH/mamba_env\"\nREPO_PATH=\"";

pub const UNIX_SH_2: &'static str = "\"\nVENV=\"$INSTALL/envs/";

pub const UNIX_SH_3: &'static str = "\"\nPYEXE=\"$VENV/bin/python\"\n\n# Detect mode: allow override via PORTABLESOURCE_MODE\nMODE=\"${PORTABLESOURCE_MODE:-}\"\nif [[ -z \"$MODE\" ]]; then\n  if command -v git >/dev/null 2>&1 && command -v python3 >/dev/null 2>&1 && command -v ffmpeg >/dev/null 2>&1; then\n    MODE=cloud\n  else\n    MODE=desk\n  fi\nfi\n\n# prepend micromamba base bin to PATH (no activation) in DESK mode\nif [[ \"$MODE\" == \"desk\" ]]; then\n  export PATH=\"$BASE_PREFIX/bin:$PATH\"\nfi\n\n# activate project venv if present (be tolerant to unset vars)\nif [[ -f \"$VENV/bin/activate\" ]]; then\n  set +u\n  source \"$VENV/bin/activate\" || true\n  set -u\nfi\n\n";

pub const UNIX_SH_4: &'static str = "\n\ncd \"$REPO_PATH\"\nset +e\n";

pub const UNIX_SH_5: &'static str = "\nEXIT_CODE=$?\n\nif [[ $EXIT_CODE -ne 0 ]]; then\n  echo \"\"\n  echo \"Program finished with error (code: $EXIT_CODE)\"\nelse\n  echo \"\"\n  echo \"Program finished successfully\"\nfi\n\nexit $EXIT_CODE\n";

pub const WIN_CUDA_BLOCK: &'static str = "set cuda_bin=%env_path%\\CUDA\\bin\nset cuda_lib=%env_path%\\CUDA\\lib\nset cuda_lib_64=%env_path%\\CUDA\\lib\\x64\nset cuda_nvml_bin=%env_path%\\CUDA\\nvml\\bin\nset cuda_nvml_lib=%env_path%\\CUDA\\nvml\\lib\nset cuda_nvvm_bin=%env_path%\\CUDA\\nvvm\\bin\nset cuda_nvvm_lib=%env_path%\\CUDA\\nvvm\\lib\n\nset PATH=%cuda_bin%;%PATH%\nset PATH=%cuda_lib%;%PATH%\nset PATH=%cuda_lib_64%;%PATH%\nset PATH=%cuda_nvml_bin%;%PATH%\nset PATH=%cuda_nvml_lib%;%PATH%\nset PATH=%cuda_nvvm_bin%;%PATH%\nset PATH=%cuda_nvvm_lib%;%PATH%";

pub const NO_CUDA_MARKER: &'static str = "REM No CUDA paths configured";

/// Content of the plain Windows batch script: absolute paths, no drive
/// virtualization.
pub open spec fn spec_windows_simple(
    name: Seq<char>,
    base: Seq<char>,
    cuda: Seq<char>,
    launch: Seq<char>,
) -> Seq<char> {
    WIN_SIMPLE_0@ + name + WIN_SIMPLE_1@ + base + WIN_SIMPLE_2@ + name + WIN_SIMPLE_3@ + name
        + WIN_SIMPLE_4@ + cuda + WIN_SIMPLE_5@ + launch + WIN_SIMPLE_6@
}

/// Content of the Windows batch script that binds the install root to a
/// virtual drive letter at run time and releases it on every exit path.
pub open spec fn spec_windows_vdrive(
    name: Seq<char>,
    cuda: Seq<char>,
    launch: Seq<char>,
) -> Seq<char> {
    WIN_VDRIVE_0@ + name + WIN_VDRIVE_1@ + name + WIN_VDRIVE_2@ + name + WIN_VDRIVE_3@ + cuda
        + WIN_VDRIVE_4@ + launch + WIN_VDRIVE_5@
}

/// Content of the Unix shell startup script.
pub open spec fn spec_unix_script(
    install: Seq<char>,
    repo_path: Seq<char>,
    name: Seq<char>,
    cuda: Seq<char>,
    launch: Seq<char>,
) -> Seq<char> {
    UNIX_SH_0@ + install + UNIX_SH_1@ + repo_path + UNIX_SH_2@ + name + UNIX_SH_3@ + cuda
        + UNIX_SH_4@ + launch + UNIX_SH_5@
}

/// Renders the plain Windows batch script.
pub fn render_windows_simple(name: &str, base: &str, cuda: &str, launch: &str) -> (r: String)
    ensures
        r@ == spec_windows_simple(name@, base@, cuda@, launch@),
{
    let mut r = String::new();
    r.append(WIN_SIMPLE_0);
    r.append(name);
    r.append(WIN_SIMPLE_1);
    r.append(base);
    r.append(WIN_SIMPLE_2);
    r.append(name);
    r.append(WIN_SIMPLE_3);
    r.append(name);
    r.append(WIN_SIMPLE_4);
    r.append(cuda);
    r.append(WIN_SIMPLE_5);
    r.append(launch);
    r.append(WIN_SIMPLE_6);
    proof {
        assert(r@ =~= spec_windows_simple(name@, base@, cuda@, launch@));
    }
    r
}

/// Renders the drive-virtualizing Windows batch script.
pub fn render_windows_vdrive(name: &str, cuda: &str, launch: &str) -> (r: String)
    ensures
        r@ == spec_windows_vdrive(name@, cuda@, launch@),
{
    let mut r = String::new();
    r.append(WIN_VDRIVE_0);
    r.append(name);
    r.append(WIN_VDRIVE_1);
    r.append(name);
    r.append(WIN_VDRIVE_2);
    r.append(name);
    r.append(WIN_VDRIVE_3);
    r.append(cuda);
    r.append(WIN_VDRIVE_4);
    r.append(launch);
    r.append(WIN_VDRIVE_5);
    proof {
        assert(r@ =~= spec_windows_vdrive(name@, cuda@, launch@));
    }
    r
}

/// Renders the Unix shell startup script.
pub fn render_unix_script(
    install: &str,
    repo_path: &str,
    name: &str,
    cuda: &str,
    launch: &str,
) -> (r: String)
    ensures
        r@ == spec_unix_script(install@, repo_path@, name@, cuda@, launch@),
{
    let mut r = String::new();
    r.append(UNIX_SH_0);
    r.append(install);
    r.append(UNIX_SH_1);
    r.append(repo_path);
    r.append(UNIX_SH_2);
    r.append(name);
    r.append(UNIX_SH_3);
    r.append(cuda);
    r.append(UNIX_SH_4);
    r.append(launch);
    r.append(UNIX_SH_5);
    proof {
        assert(r@ =~= spec_unix_script(install@, repo_path@, name@, cuda@, launch@));
    }
    r
}

} // verus!
