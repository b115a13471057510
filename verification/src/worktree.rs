//! What the extension knows of a worktree: its root, the platform, the
//! shell environment, the text of the files it reads and the answers to the
//! executable look-ups it made.

use vstd::prelude::*;

use crate::config::declares_pixi;
use crate::extension::MojoExtension;
use crate::text::{
    concat3, ends_with, has_prefix, has_suffix, pairs, str_eq, trim_by, trim_matches, CharClass,
};

verus! {

/// The operating system that Zed runs on.
#[derive(Clone, Copy, Debug, PartialEq, Eq, Structural)]
pub enum Os {
    Mac,
    Linux,
    Windows,
}

/// A worktree as the extension sees it. `files` holds the text of the files
/// that could be read (a file that is absent could not), `which` the
/// executable look-ups that were made, with the path each resolved to if it
/// resolved.
pub struct WorktreeFacts {
    pub root_path: String,
    pub os: Os,
    pub shell_env: Vec<(String, String)>,
    pub files: Vec<(String, String)>,
    pub which: Vec<(String, Option<String>)>,
}

/// The value of the first pair with key `k`.
pub open spec fn pair_lookup(ps: Seq<(Seq<char>, Seq<char>)>, k: Seq<char>) -> Option<Seq<char>>
    decreases ps.len(),
{
    if ps.len() == 0 {
        None
    } else if ps[0].0 == k {
        Some(ps[0].1)
    } else {
        pair_lookup(ps.drop_first(), k)
    }
}

/// The answer of the first look-up of `q`.
pub open spec fn which_lookup(ws: Seq<(String, Option<String>)>, q: Seq<char>) -> Option<Seq<char>>
    decreases ws.len(),
{
    if ws.len() == 0 {
        None
    } else if ws[0].0@ == q {
        match ws[0].1 {
            Some(p) => Some(p@),
            None => None,
        }
    } else {
        which_lookup(ws.drop_first(), q)
    }
}

/// The directory of an environment that holds its executables.
pub open spec fn spec_platform_bin_dir(os: Os) -> Seq<char> {
    match os {
        Os::Windows => "Scripts"@,
        _ => "bin"@,
    }
}

/// The file extension of a shared library.
pub open spec fn spec_library_extension(os: Os) -> Seq<char> {
    match os {
        Os::Mac => "dylib"@,
        _ => "so"@,
    }
}

/// The separator of the entries of `PATH`.
pub open spec fn spec_path_separator(os: Os) -> Seq<char> {
    match os {
        Os::Windows => ";"@,
        _ => ":"@,
    }
}

/// The suffix of an executable file.
pub open spec fn spec_executable_suffix(os: Os) -> Seq<char> {
    match os {
        Os::Windows => ".exe"@,
        _ => ""@,
    }
}

/// The executable `command` in the environment at `root`.
pub open spec fn spec_environment_binary(os: Os, root: Seq<char>, command: Seq<char>) -> Seq<char> {
    let separator = if ends_with(root, "/"@) || ends_with(root, "\\"@) {
        ""@
    } else {
        "/"@
    };
    root + separator + spec_platform_bin_dir(os) + "/"@ + command + spec_executable_suffix(os)
}

/// An environment root: absolute, or relative to the worktree root.
pub open spec fn spec_environment_root(worktree_root: Seq<char>, environment_root: Seq<char>) -> Seq<
    char,
> {
    if starts_with_slash(environment_root) {
        environment_root
    } else {
        worktree_root + "/"@ + environment_root
    }
}

/// An absolute path begins with `/`.
pub open spec fn starts_with_slash(s: Seq<char>) -> bool {
    s.len() > 0 && s[0] == '/'
}

/// A path of the worktree: absolute, or relative to the root without
/// leading or trailing slashes.
pub open spec fn spec_resolve_worktree_path(root: Seq<char>, path: Seq<char>) -> Seq<char> {
    if starts_with_slash(path) {
        path
    } else {
        root + "/"@ + trim_by(path, CharClass::Only('/'))
    }
}

impl WorktreeFacts {
    /// The text of the file at `path`, if it could be read.
    pub open spec fn spec_read(self, path: Seq<char>) -> Option<Seq<char>> {
        pair_lookup(pairs(self.files@), path)
    }

    /// Where the look-up of `q` resolved to, if it was made and resolved.
    pub open spec fn spec_which(self, q: Seq<char>) -> Option<Seq<char>> {
        which_lookup(self.which@, q)
    }

    /// The value of the shell variable `key`.
    pub open spec fn spec_shell_env_value(self, key: Seq<char>) -> Option<Seq<char>> {
        pair_lookup(pairs(self.shell_env@), key)
    }

    /// Whether the worktree holds a Pixi project: a root `pixi.toml`, or a
    /// `pyproject.toml` that declares Pixi.
    pub open spec fn spec_is_pixi_project(self) -> bool {
        ||| self.spec_read("pixi.toml"@) is Some
        ||| (self.spec_read("pyproject.toml"@) matches Some(c) && declares_pixi(c))
    }

    /// The executable `command` of the environment at `environment_root`,
    /// if it resolved.
    pub open spec fn spec_project_binary(self, environment_root: Seq<char>, command: Seq<char>) -> Option<
        Seq<char>,
    > {
        self.spec_which(
            spec_environment_binary(
                self.os,
                spec_environment_root(self.root_path@, environment_root),
                command,
            ),
        )
    }
}

/// Pairs before the first one with key `k` do not change its value.
pub proof fn lemma_pair_lookup_skip(ps: Seq<(Seq<char>, Seq<char>)>, k: Seq<char>, i: int)
    requires
        0 <= i <= ps.len(),
        forall|j: int| 0 <= j < i ==> (#[trigger] ps[j]).0 != k,
    ensures
        pair_lookup(ps, k) == pair_lookup(ps.skip(i), k),
    decreases i,
{
    if i > 0 {
        let t = ps.drop_first();
        assert forall|j: int| 0 <= j < i - 1 implies (#[trigger] t[j]).0 != k by {
            assert(t[j] == ps[j + 1]);
        }
        lemma_pair_lookup_skip(t, k, i - 1);
        assert(t.skip(i - 1) =~= ps.skip(i));
        assert(ps[0].0 != k);
    } else {
        assert(ps.skip(0) =~= ps);
    }
}

/// The value of the first pair of `ps` whose key is `key`.
pub fn pair_value<'a>(ps: &'a [(String, String)], key: &str) -> (r: Option<&'a String>)
    ensures
        match r {
            Some(v) => pair_lookup(pairs(ps@), key@) == Some(v@),
            None => pair_lookup(pairs(ps@), key@) is None,
        },
{
    let ghost all = pairs(ps@);
    let n = ps.len();
    let mut i: usize = 0;
    while i < n
        invariant
            i <= n,
            n == ps@.len(),
            all == pairs(ps@),
            forall|j: int| 0 <= j < i ==> (#[trigger] all[j]).0 != key@,
        decreases n - i,
    {
        assert(all[i as int] == (ps@[i as int].0@, ps@[i as int].1@));
        if str_eq(ps[i].0.as_str(), key) {
            proof {
                lemma_pair_lookup_skip(all, key@, i as int);
            }
            return Some(&ps[i].1);
        }
        i += 1;
    }
    proof {
        lemma_pair_lookup_skip(all, key@, n as int);
    }
    None
}

/// Look-ups before the first one of `q` do not change its answer.
pub proof fn lemma_which_lookup_skip(ws: Seq<(String, Option<String>)>, q: Seq<char>, i: int)
    requires
        0 <= i <= ws.len(),
        forall|j: int| 0 <= j < i ==> (#[trigger] ws[j]).0@ != q,
    ensures
        which_lookup(ws, q) == which_lookup(ws.skip(i), q),
    decreases i,
{
    if i > 0 {
        let t = ws.drop_first();
        assert forall|j: int| 0 <= j < i - 1 implies (#[trigger] t[j]).0@ != q by {
            assert(t[j] == ws[j + 1]);
        }
        lemma_which_lookup_skip(t, q, i - 1);
        assert(t.skip(i - 1) =~= ws.skip(i));
        assert(ws[0].0@ != q);
    } else {
        assert(ws.skip(0) =~= ws);
    }
}

impl MojoExtension {
    /// The directory of an environment that holds its executables.
    pub fn platform_bin_dir(os: Os) -> (r: &'static str)
        ensures
            r@ == spec_platform_bin_dir(os),
    {
        match os {
            Os::Windows => "Scripts",
            _ => "bin",
        }
    }

    /// The file extension of a shared library.
    pub fn library_extension(os: Os) -> (r: &'static str)
        ensures
            r@ == spec_library_extension(os),
    {
        match os {
            Os::Mac => "dylib",
            _ => "so",
        }
    }

    /// The separator of the entries of `PATH`.
    pub fn path_separator(os: Os) -> (r: &'static str)
        ensures
            r@ == spec_path_separator(os),
    {
        match os {
            Os::Windows => ";",
            _ => ":",
        }
    }

    /// The path of the executable `command` in the environment at `root`.
    pub fn environment_binary(os: Os, root: &str, command: &str) -> (r: String)
        ensures
            r@ == spec_environment_binary(os, root@, command@),
    {
        let executable_suffix = match os {
            Os::Windows => ".exe",
            _ => "",
        };
        let separator = if has_suffix(root, "/") || has_suffix(root, "\\") {
            ""
        } else {
            "/"
        };
        let mut r = String::from_str(root);
        r.append(separator);
        r.append(Self::platform_bin_dir(os));
        r.append("/");
        r.append(command);
        r.append(executable_suffix);
        r
    }

    /// The path of an environment root of the worktree at `worktree_root`.
    pub fn environment_root(worktree_root: &str, environment_root: &str) -> (r: String)
        ensures
            r@ == spec_environment_root(worktree_root@, environment_root@),
    {
        if environment_root.unicode_len() > 0 && environment_root.get_char(0) == '/' {
            String::from_str(environment_root)
        } else {
            concat3(worktree_root, "/", environment_root)
        }
    }

    /// A worktree path, absolute or relative to the root.
    pub fn resolve_worktree_path(worktree: &WorktreeFacts, path: &str) -> (r: String)
        ensures
            r@ == spec_resolve_worktree_path(worktree.root_path@, path@),
    {
        if path.unicode_len() > 0 && path.get_char(0) == '/' {
            String::from_str(path)
        } else {
            concat3(
                worktree.root_path.as_str(),
                "/",
                trim_matches(path, &CharClass::Only('/')),
            )
        }
    }

    /// The text of the file at `path`, if it could be read.
    pub fn read_text_file<'a>(worktree: &'a WorktreeFacts, path: &str) -> (r: Option<&'a String>)
        ensures
            match r {
                Some(c) => worktree.spec_read(path@) == Some(c@),
                None => worktree.spec_read(path@) is None,
            },
    {
        pair_value(&worktree.files, path)
    }

    /// Where the look-up of `query` resolved to.
    pub fn which(worktree: &WorktreeFacts, query: &str) -> (r: Option<String>)
        ensures
            match r {
                Some(p) => worktree.spec_which(query@) == Some(p@),
                None => worktree.spec_which(query@) is None,
            },
    {
        let n = worktree.which.len();
        let mut i: usize = 0;
        while i < n
            invariant
                i <= n,
                n == worktree.which@.len(),
                forall|j: int| 0 <= j < i ==> (#[trigger] worktree.which@[j]).0@ != query@,
            decreases n - i,
        {
            if str_eq(worktree.which[i].0.as_str(), query) {
                proof {
                    lemma_which_lookup_skip(worktree.which@, query@, i as int);
                }
                return match &worktree.which[i].1 {
                    Some(p) => Some(p.clone()),
                    None => None,
                };
            }
            i += 1;
        }
        proof {
            lemma_which_lookup_skip(worktree.which@, query@, n as int);
        }
        None
    }

    /// Whether the file at `path` could be read.
    pub fn has_project_file(worktree: &WorktreeFacts, path: &str) -> (r: bool)
        ensures
            r == (worktree.spec_read(path@) is Some),
    {
        Self::read_text_file(worktree, path).is_some()
    }

    /// Whether the worktree holds a Pixi project.
    pub fn is_pixi_project(worktree: &WorktreeFacts) -> (r: bool)
        ensures
            r == worktree.spec_is_pixi_project(),
    {
        if Self::has_project_file(worktree, "pixi.toml") {
            return true;
        }
        match Self::read_text_file(worktree, "pyproject.toml") {
            Some(contents) => Self::pyproject_declares_pixi(contents.as_str()),
            None => false,
        }
    }

    /// The value of the shell variable `key`.
    pub fn shell_env_value(worktree: &WorktreeFacts, key: &str) -> (r: Option<String>)
        ensures
            match r {
                Some(v) => worktree.spec_shell_env_value(key@) == Some(v@),
                None => worktree.spec_shell_env_value(key@) is None,
            },
    {
        match pair_value(&worktree.shell_env, key) {
            Some(v) => Some(v.clone()),
            None => None,
        }
    }

    /// The value of the variable `key` in `envs`.
    pub fn env_value(envs: &[(String, String)], key: &str) -> (r: Option<String>)
        ensures
            match r {
                Some(v) => pair_lookup(pairs(envs@), key@) == Some(v@),
                None => pair_lookup(pairs(envs@), key@) is None,
            },
    {
        match pair_value(envs, key) {
            Some(v) => Some(v.clone()),
            None => None,
        }
    }

    /// The executable `command` of the environment at `environment_root`,
    /// if it resolved.
    pub fn project_binary(worktree: &WorktreeFacts, environment_root: &str, command: &str) -> (r:
        Option<String>)
        ensures
            match r {
                Some(p) => worktree.spec_project_binary(environment_root@, command@) == Some(p@),
                None => worktree.spec_project_binary(environment_root@, command@) is None,
            },
    {
        let root = Self::environment_root(worktree.root_path.as_str(), environment_root);
        let path = Self::environment_binary(worktree.os, root.as_str(), command);
        Self::which(worktree, path.as_str())
    }
}

} // verus!
