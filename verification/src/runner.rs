//! Managed subprocess planning and diagnostics. Spawning a child process
//! and draining its streams is I/O and belongs to the surrounding
//! application; this module makes every decision around it: whether a
//! command is a no-op, which environment it receives, how its executable
//! is classified, and the exact text reported when it fails.

use vstd::prelude::*;

use crate::text::{exe_stem, exe_stem_of, joined_with_newlines, join_lines, lower_of, lowercase,
    string_eq_str, views_of};
use crate::PortableSourceError;

verus! {

/// The kind of tool an external command invokes, derived from the
/// executable's base name and, for an interpreter, from a following
/// module flag. Used to choose a human-readable failure prefix.
#[derive(Clone, Copy, PartialEq, Eq, Structural, Debug)]
pub enum CommandType {
    Git,
    Pip,
    Uv,
    Python,
    Other,
}

/// How the child's output channels are handled: discarded, captured
/// line-by-line into the diagnostic log, or inherited from the parent.
#[derive(Clone, Copy, PartialEq, Eq, Structural, Debug)]
pub enum StreamMode {
    Discard,
    Capture,
    Inherit,
}

/// Everything the surrounding application needs to spawn one child
/// process: the argument vector, the working directory, the complete
/// environment overlay, whether to suppress the child's console window on
/// the constrained platform, and how to handle its output.
pub struct SpawnPlan {
    pub argv: Vec<String>,
    pub cwd: Option<String>,
    pub env: Vec<(String, String)>,
    pub hide_window: bool,
    pub stream_mode: StreamMode,
}

/// The centralized planner for external commands. Holds the environment
/// overlay (interpreter and tooling paths) applied to every child, and
/// the extra overlay appended for interactive runs.
pub struct CommandRunner {
    pub env_overlay: Vec<(String, String)>,
    pub interactive_env: Vec<(String, String)>,
}

/// The classification policy: the lower-cased executable stem of the
/// first element decides; an interpreter invocation is additionally
/// inspected for a module flag naming a package installer.
pub open spec fn spec_classify(args: Seq<String>) -> CommandType {
    if args.len() >= 1 {
        let exe = lower_of(exe_stem_of(args[0]@));
        if exe == "python"@ || exe == "python3"@ {
            if args.len() >= 3 && args[1]@ == "-m"@ {
                if args[2]@ == "pip"@ {
                    CommandType::Pip
                } else if args[2]@ == "uv"@ {
                    CommandType::Uv
                } else {
                    CommandType::Python
                }
            } else {
                CommandType::Python
            }
        } else if exe == "pip"@ || exe == "pip3"@ {
            CommandType::Pip
        } else if exe == "uv"@ {
            CommandType::Uv
        } else if exe == "git"@ {
            CommandType::Git
        } else {
            CommandType::Other
        }
    } else {
        CommandType::Other
    }
}

/// The failure prefix of each command kind.
pub open spec fn spec_error_prefix(t: CommandType) -> Seq<char> {
    match t {
        CommandType::Git => "Git command failed"@,
        CommandType::Pip => "Pip command failed"@,
        CommandType::Uv => "UV command failed"@,
        CommandType::Python => "Python command failed"@,
        CommandType::Other => "Command failed"@,
    }
}

/// The error text of a logged run: the exit status, and the captured
/// error transcript when there is one.
pub open spec fn spec_failure_message(status: Seq<char>, lines: Seq<Seq<char>>) -> Seq<char> {
    if lines.len() > 0 {
        "Command failed with status: "@ + status + "\nOutput:\n"@ + joined_with_newlines(lines)
    } else {
        "Command failed with status: "@ + status
    }
}

/// The error text of a silent run: only the status, since its output was
/// deliberately discarded.
pub open spec fn spec_silent_failure_message(status: Seq<char>) -> Seq<char> {
    "Silent command failed with status: "@ + status
}

/// The environment keys forced on interactive runs so common installer
/// tools emit progress bars and color even off a terminal.
pub open spec fn spec_forced_env() -> Seq<(Seq<char>, Seq<char>)> {
    seq![("PYTHONUNBUFFERED"@, "1"@), ("PIP_PROGRESS_BAR"@, "on"@), ("FORCE_COLOR"@, "1"@)]
}

/// The character contents of a sequence of environment pairs.
pub open spec fn pair_views(l: Seq<(String, String)>) -> Seq<(Seq<char>, Seq<char>)> {
    l.map_values(|p: (String, String)| (p.0@, p.1@))
}

/// Copies an argument vector.
fn copy_strings(v: &Vec<String>) -> (r: Vec<String>)
    ensures
        r@ == v@,
{
    let mut r: Vec<String> = Vec::new();
    let mut i: usize = 0;
    while i < v.len()
        invariant
            i <= v@.len(),
            r@ == v@.subrange(0, i as int),
        decreases v@.len() - i,
    {
        r.push(v[i].clone());
        proof {
            assert(r@ =~= v@.subrange(0, i + 1 as int));
        }
        i = i + 1;
    }
    proof {
        assert(v@.subrange(0, v@.len() as int) =~= v@);
    }
    r
}

/// Copies an environment-pair vector.
fn copy_pairs(v: &Vec<(String, String)>) -> (r: Vec<(String, String)>)
    ensures
        r@ == v@,
{
    let mut r: Vec<(String, String)> = Vec::new();
    let mut i: usize = 0;
    while i < v.len()
        invariant
            i <= v@.len(),
            r@ == v@.subrange(0, i as int),
        decreases v@.len() - i,
    {
        let p = (v[i].0.clone(), v[i].1.clone());
        r.push(p);
        proof {
            assert(r@ =~= v@.subrange(0, i + 1 as int));
        }
        i = i + 1;
    }
    proof {
        assert(v@.subrange(0, v@.len() as int) =~= v@);
    }
    r
}

/// Copies an optional working directory.
fn copy_opt_string(o: &Option<String>) -> (r: Option<String>)
    ensures
        r == *o,
{
    match o {
        Some(s) => Some(s.clone()),
        None => None,
    }
}

impl CommandRunner {
    /// A runner that applies `env_overlay` to every child process, with
    /// the default interactive overlay: the keys that force unbuffered
    /// output, progress bars and color from common installer tools.
    pub fn new(env_overlay: Vec<(String, String)>) -> (r: CommandRunner)
        ensures
            r.env_overlay == env_overlay,
            pair_views(r.interactive_env@) == spec_forced_env(),
    {
        let mut interactive_env: Vec<(String, String)> = Vec::new();
        interactive_env.push(("PYTHONUNBUFFERED".to_owned(), "1".to_owned()));
        interactive_env.push(("PIP_PROGRESS_BAR".to_owned(), "on".to_owned()));
        interactive_env.push(("FORCE_COLOR".to_owned(), "1".to_owned()));
        proof {
            assert(pair_views(interactive_env@) =~= spec_forced_env());
        }
        CommandRunner { env_overlay, interactive_env }
    }

    /// A runner with a caller-chosen interactive overlay in place of the
    /// default one.
    pub fn with_interactive_env(
        env_overlay: Vec<(String, String)>,
        interactive_env: Vec<(String, String)>,
    ) -> (r: CommandRunner)
        ensures
            r.env_overlay == env_overlay,
            r.interactive_env == interactive_env,
    {
        CommandRunner { env_overlay, interactive_env }
    }

    /// Classify a command by its executable and module flag.
    pub fn determine_command_type(&self, args: &Vec<String>) -> (r: CommandType)
        ensures
            r == spec_classify(args@),
    {
        if args.len() >= 1 {
            let stem = exe_stem(args[0].as_str());
            let exe = lowercase(stem.as_str());
            if string_eq_str(&exe, "python") || string_eq_str(&exe, "python3") {
                if args.len() >= 3 && string_eq_str(&args[1], "-m") {
                    if string_eq_str(&args[2], "pip") {
                        CommandType::Pip
                    } else if string_eq_str(&args[2], "uv") {
                        CommandType::Uv
                    } else {
                        CommandType::Python
                    }
                } else {
                    CommandType::Python
                }
            } else if string_eq_str(&exe, "pip") || string_eq_str(&exe, "pip3") {
                CommandType::Pip
            } else if string_eq_str(&exe, "uv") {
                CommandType::Uv
            } else if string_eq_str(&exe, "git") {
                CommandType::Git
            } else {
                CommandType::Other
            }
        } else {
            CommandType::Other
        }
    }

    /// Plan a silent run: all child output is discarded, the console
    /// window stays hidden. An empty command is a defined no-op success
    /// and yields no plan.
    pub fn plan_silent(&self, args: &Vec<String>, cwd: &Option<String>) -> (r: Option<SpawnPlan>)
        ensures
            (r is Some) <==> args@.len() > 0,
            r matches Some(p) ==> p.argv@ == args@ && p.cwd == *cwd && p.env@ == self.env_overlay@
                && p.hide_window == true && p.stream_mode is Discard,
    {
        if args.len() == 0 {
            return None;
        }
        Some(
            SpawnPlan {
                argv: copy_strings(args),
                cwd: copy_opt_string(cwd),
                env: copy_pairs(&self.env_overlay),
                hide_window: true,
                stream_mode: StreamMode::Discard,
            },
        )
    }

    /// Plan a logged run: both output channels are captured into the
    /// diagnostic log. An empty command is a defined no-op success and
    /// yields no plan.
    pub fn plan_logged(&self, args: &Vec<String>, cwd: &Option<String>) -> (r: Option<SpawnPlan>)
        ensures
            (r is Some) <==> args@.len() > 0,
            r matches Some(p) ==> p.argv@ == args@ && p.cwd == *cwd && p.env@ == self.env_overlay@
                && p.hide_window == true && p.stream_mode is Capture,
    {
        if args.len() == 0 {
            return None;
        }
        Some(
            SpawnPlan {
                argv: copy_strings(args),
                cwd: copy_opt_string(cwd),
                env: copy_pairs(&self.env_overlay),
                hide_window: true,
                stream_mode: StreamMode::Capture,
            },
        )
    }

    /// Plan an interactive run: the child inherits the parent's streams,
    /// its window stays visible, and the interactive overlay is appended
    /// to the common one. An empty command is a defined no-op success and
    /// yields no plan.
    pub fn plan_interactive(&self, args: &Vec<String>, cwd: &Option<String>) -> (r: Option<
        SpawnPlan,
    >)
        ensures
            (r is Some) <==> args@.len() > 0,
            r matches Some(p) ==> p.argv@ == args@ && p.cwd == *cwd && p.env@
                == self.env_overlay@ + self.interactive_env@ && p.hide_window == false
                && p.stream_mode is Inherit,
    {
        if args.len() == 0 {
            return None;
        }
        let mut env = copy_pairs(&self.env_overlay);
        let mut extra = copy_pairs(&self.interactive_env);
        env.append(&mut extra);
        Some(
            SpawnPlan {
                argv: copy_strings(args),
                cwd: copy_opt_string(cwd),
                env,
                hide_window: false,
                stream_mode: StreamMode::Inherit,
            },
        )
    }
}

/// The failure prefix of a command kind.
pub fn error_prefix(t: CommandType) -> (r: &'static str)
    ensures
        r@ == spec_error_prefix(t),
{
    match t {
        CommandType::Git => "Git command failed",
        CommandType::Pip => "Pip command failed",
        CommandType::Uv => "UV command failed",
        CommandType::Python => "Python command failed",
        CommandType::Other => "Command failed",
    }
}

/// The error text of a failed logged run.
pub fn failure_message(status: &str, stderr_lines: &Vec<String>) -> (r: String)
    ensures
        r@ == spec_failure_message(status@, views_of(stderr_lines@)),
{
    let mut r = String::new();
    r.append("Command failed with status: ");
    r.append(status);
    if stderr_lines.len() > 0 {
        r.append("\nOutput:\n");
        let joined = join_lines(stderr_lines);
        r.append(joined.as_str());
        proof {
            assert(r@ =~= spec_failure_message(status@, views_of(stderr_lines@)));
        }
    }
    r
}

/// The classified diagnostic line of a failed logged run: the kind's
/// prefix, then the error text.
pub fn classified_failure_report(t: CommandType, status: &str, stderr_lines: &Vec<String>) -> (r:
    String)
    ensures
        r@ == spec_error_prefix(t) + ": "@ + spec_failure_message(status@, views_of(
            stderr_lines@)),
{
    let mut r = String::new();
    r.append(error_prefix(t));
    r.append(": ");
    let msg = failure_message(status, stderr_lines);
    r.append(msg.as_str());
    proof {
        assert(r@ =~= spec_error_prefix(t) + ": "@ + spec_failure_message(status@, views_of(
            stderr_lines@)));
    }
    r
}

/// Turn the outcome of a silent run into the caller's result: success is
/// `Ok`, anything else carries the silent failure text.
pub fn evaluate_silent(success: bool, status: &str) -> (r: Result<(), PortableSourceError>)
    ensures
        (r is Ok) <==> success,
        !success ==> (r matches Err(PortableSourceError::Command { message }) && message@
            == spec_silent_failure_message(status@)),
{
    if success {
        Ok(())
    } else {
        let mut message = String::new();
        message.append("Silent command failed with status: ");
        message.append(status);
        Err(PortableSourceError::Command { message })
    }
}

/// Turn the outcome of an interactive run into the caller's result.
pub fn evaluate_interactive(success: bool, status: &str) -> (r: Result<(), PortableSourceError>)
    ensures
        (r is Ok) <==> success,
        !success ==> (r matches Err(PortableSourceError::Command { message }) && message@
            == spec_failure_message(status@, Seq::empty())),
{
    if success {
        Ok(())
    } else {
        let mut message = String::new();
        message.append("Command failed with status: ");
        message.append(status);
        Err(PortableSourceError::Command { message })
    }
}

/// Turn the outcome of a logged run into the caller's result: on failure
/// the error carries the command kind's prefix, the exit status and the
/// captured error transcript.
pub fn evaluate_logged(t: CommandType, success: bool, status: &str, stderr_lines: &Vec<
    String,
>) -> (r: Result<(), PortableSourceError>)
    ensures
        (r is Ok) <==> success,
        !success ==> (r matches Err(PortableSourceError::Command { message }) && message@
            == spec_error_prefix(t) + ": "@ + spec_failure_message(status@, views_of(
            stderr_lines@))),
{
    if success {
        Ok(())
    } else {
        let message = classified_failure_report(t, status, stderr_lines);
        Err(PortableSourceError::Command { message })
    }
}

} // verus!
