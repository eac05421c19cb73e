//! Environment layout: the set of filesystem paths a launched repository
//! needs, derived by pure string composition from an install root and a
//! repository name. No filesystem access happens here.

use vstd::prelude::*;

use crate::text::{lower_of, lowercase};

verus! {

/// The platform family a script or layout is produced for.
#[derive(Clone, Copy, PartialEq, Eq, Structural)]
pub enum Platform {
    Windows,
    Unix,
}

/// The path separator of a platform family.
pub open spec fn sep_of(p: Platform) -> char {
    match p {
        Platform::Windows => '\\',
        Platform::Unix => '/',
    }
}

/// Accelerator (GPU toolkit) paths, present only when accelerator support
/// was configured. An empty field means the corresponding value is not
/// available and its lines are omitted from generated scripts.
pub struct AcceleratorConfig {
    pub base_path: String,
    pub bin_path: String,
    pub lib_path: String,
    pub lib64_path: String,
}

/// The paths a launched program needs, all derived from the install root
/// and the normalized (lower-cased) repository name.
pub struct EnvironmentLayout {
    /// The root everything else lives under.
    pub install_root: String,
    /// The shared tooling environment, `<root>/ps_env`.
    pub env_root: String,
    /// The per-repository interpreter environment, `<root>/envs/<name>`.
    pub per_repo_env_root: String,
    /// The repository checkout, `<root>/repos/<name>`.
    pub repo_root: String,
    /// The redirected temporary directory, `<root>/tmp`.
    pub temp_root: String,
    /// Accelerator paths, when configured.
    pub accelerator_paths: Option<AcceleratorConfig>,
}

pub open spec fn spec_env_root(root: Seq<char>, p: Platform) -> Seq<char> {
    root + seq![sep_of(p)] + "ps_env"@
}

pub open spec fn spec_per_repo_env_root(root: Seq<char>, name: Seq<char>, p: Platform) -> Seq<
    char,
> {
    root + seq![sep_of(p)] + "envs"@ + seq![sep_of(p)] + lower_of(name)
}

pub open spec fn spec_repo_root(root: Seq<char>, name: Seq<char>, p: Platform) -> Seq<char> {
    root + seq![sep_of(p)] + "repos"@ + seq![sep_of(p)] + lower_of(name)
}

pub open spec fn spec_temp_root(root: Seq<char>, p: Platform) -> Seq<char> {
    root + seq![sep_of(p)] + "tmp"@
}

impl EnvironmentLayout {
    /// The derived fields are exactly the pure functions of
    /// `(root, name, platform)` that this module defines.
    pub open spec fn derived_from(self, root: Seq<char>, name: Seq<char>, p: Platform) -> bool {
        &&& self.install_root@ == root
        &&& self.env_root@ == spec_env_root(root, p)
        &&& self.per_repo_env_root@ == spec_per_repo_env_root(root, name, p)
        &&& self.repo_root@ == spec_repo_root(root, name, p)
        &&& self.temp_root@ == spec_temp_root(root, p)
    }

    /// Derive every path from the install root and the repository name.
    pub fn new(
        install_root: String,
        repo_name: &str,
        platform: Platform,
        accelerator_paths: Option<AcceleratorConfig>,
    ) -> (r: EnvironmentLayout)
        ensures
            r.derived_from(install_root@, repo_name@, platform),
            r.accelerator_paths == accelerator_paths,
    {
        let sep: &str = match platform {
            Platform::Windows => "\\",
            Platform::Unix => "/",
        };
        proof {
            reveal_strlit("\\");
            reveal_strlit("/");
            assert("\\"@ =~= seq!['\\']);
            assert("/"@ =~= seq!['/']);
        }
        let name_lower = lowercase(repo_name);
        let env_root = install_root.clone().concat(sep).concat("ps_env");
        let per_repo_env_root = install_root
            .clone()
            .concat(sep)
            .concat("envs")
            .concat(sep)
            .concat(name_lower.as_str());
        let repo_root = install_root
            .clone()
            .concat(sep)
            .concat("repos")
            .concat(sep)
            .concat(name_lower.as_str());
        let temp_root = install_root.clone().concat(sep).concat("tmp");
        EnvironmentLayout {
            install_root,
            env_root,
            per_repo_env_root,
            repo_root,
            temp_root,
            accelerator_paths,
        }
    }
}

/// The layout is a pure function of its inputs: any two layouts derived
/// from the same install root, repository name and platform agree on every
/// derived path.
pub proof fn lemma_layout_pure(
    a: EnvironmentLayout,
    b: EnvironmentLayout,
    root: Seq<char>,
    name: Seq<char>,
    p: Platform,
)
    requires
        a.derived_from(root, name, p),
        b.derived_from(root, name, p),
    ensures
        a.install_root@ == b.install_root@,
        a.env_root@ == b.env_root@,
        a.per_repo_env_root@ == b.per_repo_env_root@,
        a.repo_root@ == b.repo_root@,
        a.temp_root@ == b.temp_root@,
{
}

/// Every derived path is lexically under the install root: the root is a
/// prefix of each of them.
pub proof fn lemma_layout_under_root(
    a: EnvironmentLayout,
    root: Seq<char>,
    name: Seq<char>,
    p: Platform,
)
    requires
        a.derived_from(root, name, p),
    ensures
        root.is_prefix_of(a.env_root@),
        root.is_prefix_of(a.per_repo_env_root@),
        root.is_prefix_of(a.repo_root@),
        root.is_prefix_of(a.temp_root@),
{
    assert(a.env_root@.subrange(0, root.len() as int) =~= root);
    assert(a.per_repo_env_root@.subrange(0, root.len() as int) =~= root);
    assert(a.repo_root@.subrange(0, root.len() as int) =~= root);
    assert(a.temp_root@.subrange(0, root.len() as int) =~= root);
}

} // verus!
