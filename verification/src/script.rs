//! Platform script synthesis: combines a resolved launch strategy, the
//! install root and the accelerator configuration into the complete text
//! of a startup script. Synthesis is pure — the rendered script is
//! returned as a value and the surrounding application writes it to disk.

use vstd::prelude::*;

use crate::layout::{AcceleratorConfig, Platform};
use crate::strategy::{resolve_strategy, spec_resolve, LaunchStrategy, RepoProbe};
use crate::templates::{
    render_unix_script, render_windows_simple, render_windows_vdrive, spec_unix_script,
    spec_windows_simple, spec_windows_vdrive, NO_CUDA_MARKER, WIN_CUDA_BLOCK,
};
use crate::text::{base_name, base_name_of, double_backslashes, doubled_backslashes, lower_of,
    lowercase, trim_trailing_seps, trim_trailing_separators};
use vstd::utf8::is_ascii_chars;

verus! {

/// What a caller knows about a repository before synthesis: its source
/// URL, an explicitly chosen entry file, and extra program arguments.
pub struct RepositoryInfo {
    pub url: Option<String>,
    pub main_file: Option<String>,
    pub program_args: Option<String>,
}

/// One rendered startup script: where it belongs, its full text, and
/// whether the file should be marked executable.
pub struct RenderedScript {
    pub target_path: String,
    pub content: String,
    pub executable_bit: bool,
}

/// The script synthesizer: holds the install root and the accelerator
/// configuration, both plain data.
pub struct ScriptGenerator {
    pub install_path: String,
    pub accelerator_config: Option<AcceleratorConfig>,
}

/// An install root needs drive virtualization when it is longer than the
/// fixed threshold, contains whitespace, or contains a character outside
/// ASCII.
pub open spec fn spec_virtualization_needed(s: Seq<char>) -> bool {
    s.len() > 150 || s.contains(' ') || !is_ascii_chars(s)
}

/// The program arguments of a repository, empty when none were given.
pub open spec fn spec_args_of(info: RepositoryInfo) -> Seq<char> {
    match info.program_args {
        Some(a) => a@,
        None => Seq::empty(),
    }
}

/// The launch line of a Windows batch script for one strategy.
pub open spec fn spec_launch_windows(s: LaunchStrategy, args: Seq<char>) -> Seq<char> {
    match s {
        LaunchStrategy::EntryFile { path } => "\"%python_exe%\" \""@ + path@ + "\" "@ + args,
        LaunchStrategy::ModuleInvocation { module } => "\"%python_exe%\" -m "@ + module@ + " "@
            + args,
        LaunchStrategy::InteractiveShell => "\"%python_exe%\""@,
    }
}

/// The launch block of a Unix shell script for one strategy: prefer the
/// per-repository interpreter, fall back to the system one.
pub open spec fn spec_launch_unix(s: LaunchStrategy, args: Seq<char>) -> Seq<char> {
    match s {
        LaunchStrategy::EntryFile { path } => "if [[ -x \"$PYEXE\" ]]; then\n  \"$PYEXE\" \""@
            + path@ + "\" "@ + args + "\nelse\n  python3 \""@ + path@ + "\" "@ + args
            + "\nfi"@,
        LaunchStrategy::ModuleInvocation { module } => "if [[ -x \"$PYEXE\" ]]; then\n  \"$PYEXE\" -m "@
            + module@ + " "@ + args + "\nelse\n  python3 -m "@ + module@ + " "@ + args
            + "\nfi"@,
        LaunchStrategy::InteractiveShell => "if [[ -x \"$PYEXE\" ]]; then\n  \"$PYEXE\"\nelse\n  python3\nfi"@,
    }
}

/// The accelerator block of a Windows script: a fixed path block when an
/// accelerator is configured, a no-op marker line otherwise.
pub open spec fn spec_cuda_windows(cfg: Option<AcceleratorConfig>) -> Seq<char> {
    if cfg is Some {
        WIN_CUDA_BLOCK@
    } else {
        NO_CUDA_MARKER@
    }
}

/// The export lines of a Unix accelerator block. A getter that returned
/// an empty path has its lines omitted; the library-search line is kept
/// while either of its two values is present.
pub open spec fn spec_cuda_unix_cfg(cfg: AcceleratorConfig) -> Seq<char> {
    (if cfg.base_path@.len() > 0 {
        "export CUDA_PATH=\""@ + cfg.base_path@ + "\"\nexport CUDA_HOME=\""@ + cfg.base_path@
            + "\"\nexport CUDA_ROOT=\""@ + cfg.base_path@ + "\"\n"@
    } else {
        Seq::empty()
    }) + (if cfg.bin_path@.len() > 0 {
        "export PATH=\""@ + cfg.bin_path@ + ":$PATH\"\n"@
    } else {
        Seq::empty()
    }) + (if cfg.lib_path@.len() > 0 || cfg.lib64_path@.len() > 0 {
        "export LD_LIBRARY_PATH=\""@ + cfg.lib_path@ + ":"@ + cfg.lib64_path@
            + ":${LD_LIBRARY_PATH:-}\"\n"@
    } else {
        Seq::empty()
    })
}

/// The Unix accelerator block: empty when no accelerator is configured.
pub open spec fn spec_cuda_unix(cfg: Option<AcceleratorConfig>) -> Seq<char> {
    match cfg {
        Some(c) => spec_cuda_unix_cfg(c),
        None => Seq::empty(),
    }
}

/// The normalized name of a repository: the last component of its
/// checkout path, trailing separators ignored, lower-cased.
pub open spec fn repo_name_of(repo_path: Seq<char>) -> Seq<char> {
    lower_of(base_name_of(trim_trailing_seps(repo_path)))
}

/// The full content of the startup script for one platform.
pub open spec fn spec_script_content(
    g: ScriptGenerator,
    platform: Platform,
    repo_path: Seq<char>,
    info: RepositoryInfo,
    probe: RepoProbe,
) -> Seq<char> {
    let name = repo_name_of(repo_path);
    let strat = spec_resolve(info.main_file, probe);
    let args = spec_args_of(info);
    match platform {
        Platform::Windows => {
            let cuda = spec_cuda_windows(g.accelerator_config);
            let launch = spec_launch_windows(strat, args);
            if spec_virtualization_needed(g.install_path@) {
                spec_windows_vdrive(name, cuda, launch)
            } else {
                spec_windows_simple(name, doubled_backslashes(g.install_path@), cuda, launch)
            }
        },
        Platform::Unix => spec_unix_script(
            g.install_path@,
            repo_path,
            repo_name_of(repo_path),
            spec_cuda_unix(g.accelerator_config),
            spec_launch_unix(strat, args),
        ),
    }
}

/// Where the startup script of a repository is placed:
/// `<repo_path><sep>start_<name>.<ext>`.
pub open spec fn spec_script_path(platform: Platform, repo_path: Seq<char>, name: Seq<char>) -> Seq<
    char,
> {
    match platform {
        Platform::Windows => repo_path + "\\start_"@ + name + ".bat"@,
        Platform::Unix => repo_path + "/start_"@ + name + ".sh"@,
    }
}

impl ScriptGenerator {
    /// A synthesizer for one install root and accelerator configuration.
    pub fn new(install_path: String, accelerator_config: Option<AcceleratorConfig>) -> (r:
        ScriptGenerator)
        ensures
            r.install_path == install_path,
            r.accelerator_config == accelerator_config,
    {
        ScriptGenerator { install_path, accelerator_config }
    }

    /// Whether the install root forces drive virtualization on the
    /// constrained platform.
    pub fn needs_virtual_drive(&self, base_path: &str) -> (r: bool)
        ensures
            r == spec_virtualization_needed(base_path@),
    {
        let n = base_path.unicode_len();
        if !base_path.is_ascii() {
            return true;
        }
        if n > 150 {
            return true;
        }
        let mut i: usize = 0;
        while i < n
            invariant
                i <= n,
                n == base_path@.len(),
                forall|j: int| 0 <= j < i ==> base_path@[j] != ' ',
            decreases n - i,
        {
            if base_path.get_char(i) == ' ' {
                assert(base_path@.contains(' ')) by {
                    assert(0 <= i < base_path@.len() && base_path@[i as int] == ' ');
                }
                return true;
            }
            i = i + 1;
        }
        assert(!base_path@.contains(' '));
        false
    }

    /// The launch line of a Windows script.
    pub fn determine_launch_command_windows(&self, strategy: &LaunchStrategy, args: &str) -> (r:
        String)
        ensures
            r@ == spec_launch_windows(*strategy, args@),
    {
        match strategy {
            LaunchStrategy::EntryFile { path } => {
                let mut r = String::new();
                r.append("\"%python_exe%\" \"");
                r.append(path.as_str());
                r.append("\" ");
                r.append(args);
                proof {
                    assert(r@ =~= spec_launch_windows(*strategy, args@));
                }
                r
            },
            LaunchStrategy::ModuleInvocation { module } => {
                let mut r = String::new();
                r.append("\"%python_exe%\" -m ");
                r.append(module.as_str());
                r.append(" ");
                r.append(args);
                proof {
                    assert(r@ =~= spec_launch_windows(*strategy, args@));
                }
                r
            },
            LaunchStrategy::InteractiveShell => {
                let mut r = String::new();
                r.append("\"%python_exe%\"");
                proof {
                    assert(r@ =~= spec_launch_windows(*strategy, args@));
                }
                r
            },
        }
    }

    /// The launch block of a Unix script.
    pub fn determine_launch_command_unix(&self, strategy: &LaunchStrategy, args: &str) -> (r:
        String)
        ensures
            r@ == spec_launch_unix(*strategy, args@),
    {
        match strategy {
            LaunchStrategy::EntryFile { path } => {
                let mut r = String::new();
                r.append("if [[ -x \"$PYEXE\" ]]; then\n  \"$PYEXE\" \"");
                r.append(path.as_str());
                r.append("\" ");
                r.append(args);
                r.append("\nelse\n  python3 \"");
                r.append(path.as_str());
                r.append("\" ");
                r.append(args);
                r.append("\nfi");
                proof {
                    assert(r@ =~= spec_launch_unix(*strategy, args@));
                }
                r
            },
            LaunchStrategy::ModuleInvocation { module } => {
                let mut r = String::new();
                r.append("if [[ -x \"$PYEXE\" ]]; then\n  \"$PYEXE\" -m ");
                r.append(module.as_str());
                r.append(" ");
                r.append(args);
                r.append("\nelse\n  python3 -m ");
                r.append(module.as_str());
                r.append(" ");
                r.append(args);
                r.append("\nfi");
                proof {
                    assert(r@ =~= spec_launch_unix(*strategy, args@));
                }
                r
            },
            LaunchStrategy::InteractiveShell => {
                let mut r = String::new();
                r.append("if [[ -x \"$PYEXE\" ]]; then\n  \"$PYEXE\"\nelse\n  python3\nfi");
                proof {
                    assert(r@ =~= spec_launch_unix(*strategy, args@));
                }
                r
            },
        }
    }

    /// The accelerator block of a Windows script.
    pub fn generate_cuda_env_windows(&self) -> (r: String)
        ensures
            r@ == spec_cuda_windows(self.accelerator_config),
    {
        match &self.accelerator_config {
            Some(_) => {
                let mut r = String::new();
                r.append(WIN_CUDA_BLOCK);
                r
            },
            None => {
                let mut r = String::new();
                r.append(NO_CUDA_MARKER);
                r
            },
        }
    }

    /// The accelerator export lines of a Unix script.
    pub fn generate_cuda_env_unix(&self) -> (r: String)
        ensures
            r@ == spec_cuda_unix(self.accelerator_config),
    {
        match &self.accelerator_config {
            None => String::new(),
            Some(cfg) => {
                let mut r = String::new();
                if cfg.base_path.as_str().unicode_len() > 0 {
                    r.append("export CUDA_PATH=\"");
                    r.append(cfg.base_path.as_str());
                    r.append("\"\nexport CUDA_HOME=\"");
                    r.append(cfg.base_path.as_str());
                    r.append("\"\nexport CUDA_ROOT=\"");
                    r.append(cfg.base_path.as_str());
                    r.append("\"\n");
                }
                if cfg.bin_path.as_str().unicode_len() > 0 {
                    r.append("export PATH=\"");
                    r.append(cfg.bin_path.as_str());
                    r.append(":$PATH\"\n");
                }
                if cfg.lib_path.as_str().unicode_len() > 0 || cfg.lib64_path.as_str().unicode_len()
                    > 0 {
                    r.append("export LD_LIBRARY_PATH=\"");
                    r.append(cfg.lib_path.as_str());
                    r.append(":");
                    r.append(cfg.lib64_path.as_str());
                    r.append(":${LD_LIBRARY_PATH:-}\"\n");
                }
                proof {
                    assert(r@ =~= spec_cuda_unix_cfg(*cfg));
                }
                r
            },
        }
    }

    /// Synthesize the Windows startup script for one repository.
    pub fn generate_startup_script_windows(
        &self,
        repo_path: &str,
        repo_info: &RepositoryInfo,
        probe: &RepoProbe,
    ) -> (r: RenderedScript)
        ensures
            r.content@ == spec_script_content(*self, Platform::Windows, repo_path@, *repo_info,
                *probe),
            r.target_path@ == spec_script_path(Platform::Windows, repo_path@, repo_name_of(repo_path@)),
            r.executable_bit == false,
    {
        let trimmed_path = trim_trailing_separators(repo_path);
        let raw_name = base_name(trimmed_path.as_str());
        let repo_name = lowercase(raw_name.as_str());
        let program_args = match &repo_info.program_args {
            Some(a) => a.clone(),
            None => String::new(),
        };
        let strategy = resolve_strategy(&repo_info.main_file, probe);
        let launch_cmd = self.determine_launch_command_windows(&strategy, program_args.as_str());
        let cuda_section = self.generate_cuda_env_windows();
        let content = if self.needs_virtual_drive(self.install_path.as_str()) {
            render_windows_vdrive(repo_name.as_str(), cuda_section.as_str(), launch_cmd.as_str())
        } else {
            let base = double_backslashes(self.install_path.as_str());
            render_windows_simple(
                repo_name.as_str(),
                base.as_str(),
                cuda_section.as_str(),
                launch_cmd.as_str(),
            )
        };
        let mut target_path = String::new();
        target_path.append(repo_path);
        target_path.append("\\start_");
        target_path.append(repo_name.as_str());
        target_path.append(".bat");
        proof {
            assert(target_path@ =~= spec_script_path(Platform::Windows, repo_path@, repo_name_of(repo_path@)));
        }
        RenderedScript { target_path, content, executable_bit: false }
    }

    /// Synthesize the Unix startup script for one repository.
    pub fn generate_startup_script_unix(
        &self,
        repo_path: &str,
        repo_info: &RepositoryInfo,
        probe: &RepoProbe,
    ) -> (r: RenderedScript)
        ensures
            r.content@ == spec_script_content(*self, Platform::Unix, repo_path@, *repo_info,
                *probe),
            r.target_path@ == spec_script_path(Platform::Unix, repo_path@, repo_name_of(
                repo_path@)),
            r.executable_bit == true,
    {
        let trimmed_path = trim_trailing_separators(repo_path);
        let raw_name = base_name(trimmed_path.as_str());
        let repo_name = lowercase(raw_name.as_str());
        let program_args = match &repo_info.program_args {
            Some(a) => a.clone(),
            None => String::new(),
        };
        let strategy = resolve_strategy(&repo_info.main_file, probe);
        let launch_cmd = self.determine_launch_command_unix(&strategy, program_args.as_str());
        let cuda_exports = self.generate_cuda_env_unix();
        let content = render_unix_script(
            self.install_path.as_str(),
            repo_path,
            repo_name.as_str(),
            cuda_exports.as_str(),
            launch_cmd.as_str(),
        );
        let mut target_path = String::new();
        target_path.append(repo_path);
        target_path.append("/start_");
        target_path.append(repo_name.as_str());
        target_path.append(".sh");
        proof {
            assert(target_path@ =~= spec_script_path(Platform::Unix, repo_path@, repo_name_of(repo_path@)));
        }
        RenderedScript { target_path, content, executable_bit: true }
    }

    /// Synthesize the startup script for the given platform family.
    pub fn generate_startup_script(
        &self,
        platform: Platform,
        repo_path: &str,
        repo_info: &RepositoryInfo,
        probe: &RepoProbe,
    ) -> (r: RenderedScript)
        ensures
            r.content@ == spec_script_content(*self, platform, repo_path@, *repo_info, *probe),
            r.target_path@ == spec_script_path(platform, repo_path@, repo_name_of(
                repo_path@)),
            r.executable_bit == (platform is Unix),
    {
        match platform {
            Platform::Windows => self.generate_startup_script_windows(repo_path, repo_info, probe),
            Platform::Unix => self.generate_startup_script_unix(repo_path, repo_info, probe),
        }
    }
}

/// Synthesis is idempotent: two scripts rendered from identical inputs
/// have byte-identical content, path and mode.
pub proof fn lemma_synthesis_idempotent(
    a: RenderedScript,
    b: RenderedScript,
    g: ScriptGenerator,
    platform: Platform,
    repo_path: Seq<char>,
    info: RepositoryInfo,
    probe: RepoProbe,
)
    requires
        a.content@ == spec_script_content(g, platform, repo_path, info, probe),
        b.content@ == spec_script_content(g, platform, repo_path, info, probe),
        a.target_path@ == spec_script_path(platform, repo_path, repo_name_of(repo_path)),
        b.target_path@ == spec_script_path(platform, repo_path, repo_name_of(repo_path)),
        a.executable_bit == (platform is Unix),
        b.executable_bit == (platform is Unix),
    ensures
        a.content@ == b.content@,
        a.target_path@ == b.target_path@,
        a.executable_bit == b.executable_bit,
{
}

/// With no accelerator configured, the accelerator block degrades to a
/// no-op marker — the Windows marker line, or nothing on Unix — and the
/// rest of the script is the same function of the remaining inputs.
pub proof fn lemma_accelerator_omission(
    g: ScriptGenerator,
    platform: Platform,
    repo_path: Seq<char>,
    info: RepositoryInfo,
    probe: RepoProbe,
)
    requires
        g.accelerator_config is None,
    ensures
        spec_cuda_windows(g.accelerator_config) == NO_CUDA_MARKER@,
        spec_cuda_unix(g.accelerator_config) == Seq::<char>::empty(),
        platform is Windows && !spec_virtualization_needed(g.install_path@)
            ==> spec_script_content(g, platform, repo_path, info, probe) == spec_windows_simple(
            repo_name_of(repo_path),
            doubled_backslashes(g.install_path@),
            NO_CUDA_MARKER@,
            spec_launch_windows(spec_resolve(info.main_file, probe), spec_args_of(info)),
        ),
        platform is Unix ==> spec_script_content(g, platform, repo_path, info, probe)
            == spec_unix_script(
            g.install_path@,
            repo_path,
            repo_name_of(repo_path),
            Seq::empty(),
            spec_launch_unix(spec_resolve(info.main_file, probe), spec_args_of(info)),
        ),
{
}

} // verus!
