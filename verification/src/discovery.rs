//! Finding the Mojo toolchain of a worktree: the language server and
//! compiler, the debug adapter, and the environment they need. A root Pixi
//! project comes first, then a root `.venv`, then the shell `PATH`.

use vstd::prelude::*;

use crate::config::{first_version, spec_config_value};
use crate::debug::{
    adapter_envs, DebugAdapterSpec, PLUGIN_PATH_VARIABLE, VISUALIZERS_PATH_VARIABLE,
};
use crate::extension::MojoExtension;
use crate::text::{concat2, concat3, last_index_of, opt_view, pairs, split_lines, views, CharClass};
use crate::worktree::{pair_lookup, spec_environment_binary, spec_environment_root, spec_library_extension, spec_path_separator, spec_platform_bin_dir, WorktreeFacts};

verus! {

/// The name of the Mojo language server executable.
pub const LSP_BINARY: &'static str = "mojo-lsp-server";

/// The debug adapter wrapper that Mojo SDK packages ship.
pub const LEGACY_DAP_BINARY: &'static str = "mojo-lldb-dap";

/// A command to run: the executable, its arguments and its environment.
#[derive(Debug, PartialEq, Eq)]
pub struct CommandSpec {
    pub command: String,
    pub args: Vec<String>,
    pub envs: Vec<(String, String)>,
}

/// A debug adapter setting as plain values: command, environment, plugin and
/// data formatters.
pub open spec fn adapter_view(spec: DebugAdapterSpec) -> (
    Seq<char>,
    Seq<(Seq<char>, Seq<char>)>,
    Option<Seq<char>>,
    Option<Seq<char>>,
) {
    (spec.command@, pairs(spec.envs@), opt_view(spec.plugin_path), opt_view(spec.visualizers_path))
}

/// `a` if it is something, else `b`.
pub open spec fn or_else<T>(a: Option<T>, b: Option<T>) -> Option<T> {
    match a {
        Some(x) => Some(x),
        None => b,
    }
}

/// The directory part of an executable path: up to its last separator, or
/// nothing.
pub open spec fn spec_bin_dir(path: Seq<char>) -> Seq<char> {
    match last_index_of(path, CharClass::Either('/', '\\')) {
        Some(k) => path.take(k),
        None => seq![],
    }
}

impl WorktreeFacts {
    /// The default environment of a root Pixi project.
    pub open spec fn pixi_sdk_root(self) -> Seq<char> {
        self.root_path@ + "/.pixi/envs/default"@
    }

    /// A value of the `mojo-max` section of the Pixi SDK's `modular.cfg`.
    pub open spec fn spec_configured(self, key: Seq<char>) -> Option<Seq<char>> {
        match self.spec_read(".pixi/envs/default/share/max/modular.cfg"@) {
            Some(c) => spec_config_value(c, "mojo-max"@, key),
            None => None,
        }
    }

    /// The Mojo LLDB plugin at its usual place in the Pixi SDK.
    pub open spec fn spec_derived_plugin(self) -> Option<Seq<char>> {
        self.spec_which(self.pixi_sdk_root() + "/lib/libMojoLLDB."@ + spec_library_extension(self.os))
    }

    /// The data formatter directory at its usual place in the Pixi SDK.
    pub open spec fn spec_derived_visualizers(self) -> Option<Seq<char>> {
        let dir = self.pixi_sdk_root() + "/lib/lldb-visualizers"@;
        if self.spec_which(dir + "/lldbDataFormatters.py"@) is Some {
            Some(dir)
        } else {
            None
        }
    }

    /// The plugin that `modular.cfg` names, if it resolves.
    pub open spec fn spec_configured_plugin(self) -> Option<Seq<char>> {
        match self.spec_configured("lldb_plugin_path"@) {
            Some(p) => self.spec_which(p),
            None => None,
        }
    }

    /// The data formatter directory that `modular.cfg` names, if it holds
    /// the formatters.
    pub open spec fn spec_configured_visualizers(self) -> Option<Seq<char>> {
        match self.spec_configured("lldb_visualizers_path"@) {
            Some(p) => if self.spec_which(p + "/lldbDataFormatters.py"@) is Some {
                Some(p)
            } else {
                None
            },
            None => None,
        }
    }

    /// The plugin of the Pixi SDK: the configured one, else the usual one.
    pub open spec fn spec_pixi_plugin(self) -> Option<Seq<char>> {
        or_else(self.spec_configured_plugin(), self.spec_derived_plugin())
    }

    /// The data formatters of the Pixi SDK: the configured ones, else the
    /// usual ones.
    pub open spec fn spec_pixi_visualizers(self) -> Option<Seq<char>> {
        or_else(self.spec_configured_visualizers(), self.spec_derived_visualizers())
    }

    /// `PATH` with the Pixi SDK's executables first.
    pub open spec fn spec_pixi_path(self) -> Seq<char> {
        let sdk_bin = self.pixi_sdk_root() + "/"@ + spec_platform_bin_dir(self.os);
        match self.spec_shell_env_value("PATH"@) {
            Some(p) => if p.len() > 0 {
                sdk_bin + spec_path_separator(self.os) + p
            } else {
                sdk_bin
            },
            None => sdk_bin,
        }
    }

    /// The environment for tools of the Pixi SDK: its home, its prefix, its
    /// executables first on `PATH`, and its plugin and data formatters where
    /// they are found.
    pub open spec fn spec_pixi_sdk_env(self) -> Seq<(Seq<char>, Seq<char>)> {
        seq![
            ("MODULAR_HOME"@, self.pixi_sdk_root() + "/share/max"@),
            ("CONDA_PREFIX"@, self.pixi_sdk_root()),
            ("PATH"@, self.spec_pixi_path()),
        ] + adapter_envs(self.spec_pixi_plugin(), self.spec_pixi_visualizers())
    }

    /// The Python version of the root `.venv`.
    pub open spec fn spec_python_version(self) -> Option<Seq<char>> {
        match self.spec_read(".venv/pyvenv.cfg"@) {
            Some(c) => first_version(split_lines(c)),
            None => None,
        }
    }

    /// The environment for tools of a `.venv` SDK: the plugin and data
    /// formatters inside its `modular` package.
    pub open spec fn spec_venv_sdk_env(self) -> Seq<(Seq<char>, Seq<char>)> {
        match self.spec_python_version() {
            Some(v) => {
                let lib = self.root_path@ + "/.venv/lib/python"@ + v + "/site-packages/modular/lib"@;
                seq![
                    (PLUGIN_PATH_VARIABLE@, lib + "/libMojoLLDB."@ + spec_library_extension(self.os)),
                    (VISUALIZERS_PATH_VARIABLE@, lib + "/lldb-visualizers"@),
                ]
            },
            None => seq![],
        }
    }

    /// The executable `command` and its environment: from the root Pixi
    /// project's default environment, else from the root `.venv`, else from
    /// the shell `PATH` with no added environment.
    pub open spec fn spec_find_command(self, command: Seq<char>) -> Option<
        (Seq<char>, Seq<(Seq<char>, Seq<char>)>),
    > {
        if self.spec_is_pixi_project() && self.spec_project_binary(".pixi/envs/default"@, command) is Some {
            Some((self.spec_project_binary(".pixi/envs/default"@, command)->0, self.spec_pixi_sdk_env()))
        } else if self.spec_project_binary(".venv"@, command) is Some {
            Some((self.spec_project_binary(".venv"@, command)->0, self.spec_venv_sdk_env()))
        } else if self.spec_which(command) is Some {
            Some((self.spec_which(command)->0, seq![]))
        } else {
            None
        }
    }

    /// The debug adapter of a root Pixi project: the configured
    /// `lldb_vscode_path`, else `mojo-lldb-dap`, else `lldb-dap` of the
    /// default environment; only with a Mojo plugin.
    pub open spec fn spec_pixi_debug_adapter(self) -> Option<
        (Seq<char>, Seq<(Seq<char>, Seq<char>)>, Option<Seq<char>>, Option<Seq<char>>),
    > {
        let configured = match self.spec_configured("lldb_vscode_path"@) {
            Some(p) => self.spec_which(p),
            None => None,
        };
        let command = or_else(
            or_else(configured, self.spec_project_binary(".pixi/envs/default"@, LEGACY_DAP_BINARY@)),
            self.spec_project_binary(".pixi/envs/default"@, "lldb-dap"@),
        );
        if self.spec_is_pixi_project() && self.spec_pixi_plugin() is Some && command is Some {
            Some(
                (command->0, self.spec_pixi_sdk_env(), self.spec_pixi_plugin(), self.spec_pixi_visualizers()),
            )
        } else {
            None
        }
    }

    /// The debug adapter of a root `.venv`: its `lldb-dap`, with the plugin
    /// and data formatters of its `modular` package.
    pub open spec fn spec_venv_debug_adapter(self) -> Option<
        (Seq<char>, Seq<(Seq<char>, Seq<char>)>, Option<Seq<char>>, Option<Seq<char>>),
    > {
        let envs = self.spec_venv_sdk_env();
        match self.spec_project_binary(".venv"@, "lldb-dap"@) {
            Some(c) => Some(
                (c, envs, pair_lookup(envs, PLUGIN_PATH_VARIABLE@), pair_lookup(envs, VISUALIZERS_PATH_VARIABLE@)),
            ),
            None => None,
        }
    }

    /// The `lldb-dap` beside the `mojo` on the shell `PATH`, with the plugin
    /// that the shell names; only if it names one.
    pub open spec fn spec_path_debug_adapter(self) -> Option<
        (Seq<char>, Seq<(Seq<char>, Seq<char>)>, Option<Seq<char>>, Option<Seq<char>>),
    > {
        match self.spec_which("mojo"@) {
            Some(mojo) => {
                let plugin = self.spec_shell_env_value(PLUGIN_PATH_VARIABLE@);
                let visualizers = self.spec_shell_env_value(VISUALIZERS_PATH_VARIABLE@);
                match self.spec_which(spec_bin_dir(mojo) + "/lldb-dap"@) {
                    Some(dap) => if plugin is Some {
                        Some((dap, adapter_envs(plugin, visualizers), plugin, visualizers))
                    } else {
                        None
                    },
                    None => None,
                }
            },
            None => None,
        }
    }

    /// The executable look-ups that the discovery makes, given the answers
    /// so far.
    pub open spec fn spec_discovery_queries(self) -> Seq<Seq<char>> {
        let pixi = spec_environment_root(self.root_path@, ".pixi/envs/default"@);
        let venv = spec_environment_root(self.root_path@, ".venv"@);
        seq![
            spec_environment_binary(self.os, pixi, LSP_BINARY@),
            spec_environment_binary(self.os, venv, LSP_BINARY@),
            spec_environment_binary(self.os, pixi, "mojo"@),
            spec_environment_binary(self.os, venv, "mojo"@),
            spec_environment_binary(self.os, pixi, LEGACY_DAP_BINARY@),
            spec_environment_binary(self.os, venv, LEGACY_DAP_BINARY@),
            spec_environment_binary(self.os, pixi, "lldb-dap"@),
            spec_environment_binary(self.os, venv, "lldb-dap"@),
            LSP_BINARY@,
            "mojo"@,
            LEGACY_DAP_BINARY@,
            self.pixi_sdk_root() + "/lib/libMojoLLDB."@ + spec_library_extension(self.os),
            self.pixi_sdk_root() + "/lib/lldb-visualizers/lldbDataFormatters.py"@,
        ] + (match self.spec_configured("lldb_plugin_path"@) {
            Some(p) => seq![p],
            None => seq![],
        }) + (match self.spec_configured("lldb_visualizers_path"@) {
            Some(p) => seq![p + "/lldbDataFormatters.py"@],
            None => seq![],
        }) + (match self.spec_configured("lldb_vscode_path"@) {
            Some(p) => seq![p],
            None => seq![],
        }) + (match self.spec_which("mojo"@) {
            Some(mojo) => seq![spec_bin_dir(mojo) + "/lldb-dap"@],
            None => seq![],
        })
    }

    /// The debug adapter for the worktree: the Pixi project's, else the
    /// `.venv`'s, else the `lldb-dap` beside `mojo` on `PATH` with a plugin,
    /// else `mojo-lldb-dap` from `PATH`.
    pub open spec fn spec_find_debug_adapter(self) -> Option<
        (Seq<char>, Seq<(Seq<char>, Seq<char>)>, Option<Seq<char>>, Option<Seq<char>>),
    > {
        or_else(
            or_else(
                or_else(self.spec_pixi_debug_adapter(), self.spec_venv_debug_adapter()),
                self.spec_path_debug_adapter(),
            ),
            match self.spec_which(LEGACY_DAP_BINARY@) {
                Some(p) => Some((p, seq![], None, None)),
                None => None,
            },
        )
    }
}

impl MojoExtension {
    fn configured(worktree: &WorktreeFacts, key: &str) -> (r: Option<String>)
        ensures
            opt_view(r) == worktree.spec_configured(key@),
    {
        match Self::read_text_file(worktree, ".pixi/envs/default/share/max/modular.cfg") {
            Some(config) => Self::config_value(config.as_str(), "mojo-max", key),
            None => None,
        }
    }

    fn which_opt(worktree: &WorktreeFacts, query: Option<String>) -> (r: Option<String>)
        ensures
            opt_view(r) == match opt_view(query) {
                Some(q) => worktree.spec_which(q),
                None => None,
            },
    {
        match query {
            Some(q) => Self::which(worktree, q.as_str()),
            None => None,
        }
    }

    /// The Mojo LLDB plugin and data formatters at their usual places in the
    /// Pixi SDK, where they are found.
    pub fn derived_pixi_debug_paths(worktree: &WorktreeFacts) -> (r: (Option<String>, Option<String>))
        ensures
            opt_view(r.0) == worktree.spec_derived_plugin(),
            opt_view(r.1) == worktree.spec_derived_visualizers(),
    {
        let sdk_root = concat2(worktree.root_path.as_str(), "/.pixi/envs/default");
        let plugin_path = concat3(
            sdk_root.as_str(),
            "/lib/libMojoLLDB.",
            Self::library_extension(worktree.os),
        );
        let plugin = Self::which(worktree, plugin_path.as_str());
        let dir = concat2(sdk_root.as_str(), "/lib/lldb-visualizers");
        let formatters = concat2(dir.as_str(), "/lldbDataFormatters.py");
        let visualizers = if Self::which(worktree, formatters.as_str()).is_some() {
            Some(dir)
        } else {
            None
        };
        (plugin, visualizers)
    }

    fn pixi_debug_paths(worktree: &WorktreeFacts) -> (r: (Option<String>, Option<String>))
        ensures
            opt_view(r.0) == worktree.spec_pixi_plugin(),
            opt_view(r.1) == worktree.spec_pixi_visualizers(),
    {
        let (derived_plugin, derived_visualizers) = Self::derived_pixi_debug_paths(worktree);
        let configured_plugin = Self::which_opt(worktree, Self::configured(worktree, "lldb_plugin_path"));
        let configured_visualizers = match Self::configured(worktree, "lldb_visualizers_path") {
            Some(path) => {
                let formatters = concat2(path.as_str(), "/lldbDataFormatters.py");
                if Self::which(worktree, formatters.as_str()).is_some() {
                    Some(path)
                } else {
                    None
                }
            },
            None => None,
        };
        let plugin = match configured_plugin {
            Some(p) => Some(p),
            None => derived_plugin,
        };
        let visualizers = match configured_visualizers {
            Some(v) => Some(v),
            None => derived_visualizers,
        };
        (plugin, visualizers)
    }

    /// The environment for tools of the Pixi SDK.
    pub fn pixi_sdk_env(worktree: &WorktreeFacts) -> (r: Vec<(String, String)>)
        ensures
            pairs(r@) == worktree.spec_pixi_sdk_env(),
    {
        let sdk_root = concat2(worktree.root_path.as_str(), "/.pixi/envs/default");
        let sdk_bin = concat3(sdk_root.as_str(), "/", Self::platform_bin_dir(worktree.os));
        let path = match Self::shell_env_value(worktree, "PATH") {
            Some(p) => if p.as_str().unicode_len() > 0 {
                concat3(sdk_bin.as_str(), Self::path_separator(worktree.os), p.as_str())
            } else {
                sdk_bin
            },
            None => sdk_bin,
        };
        let mut envs: Vec<(String, String)> = Vec::new();
        envs.push((String::from_str("MODULAR_HOME"), concat2(sdk_root.as_str(), "/share/max")));
        envs.push((String::from_str("CONDA_PREFIX"), sdk_root));
        envs.push((String::from_str("PATH"), path));
        let ghost base = pairs(envs@);
        let (plugin, visualizers) = Self::pixi_debug_paths(worktree);
        match plugin {
            Some(p) => {
                envs.push((String::from_str(PLUGIN_PATH_VARIABLE), p));
            },
            None => {},
        }
        let ghost mid = pairs(envs@);
        match visualizers {
            Some(v) => {
                envs.push((String::from_str(VISUALIZERS_PATH_VARIABLE), v));
                assert(pairs(envs@) =~= mid.push((VISUALIZERS_PATH_VARIABLE@, v@)));
            },
            None => {},
        }
        assert(pairs(envs@) =~= worktree.spec_pixi_sdk_env());
        envs
    }

    /// The Python version of the root `.venv`.
    pub fn python_version(worktree: &WorktreeFacts) -> (r: Option<String>)
        ensures
            opt_view(r) == worktree.spec_python_version(),
    {
        match Self::read_text_file(worktree, ".venv/pyvenv.cfg") {
            Some(c) => Self::pyvenv_python_version(c.as_str()),
            None => None,
        }
    }

    /// The environment for tools of a `.venv` SDK.
    pub fn venv_sdk_env(worktree: &WorktreeFacts) -> (r: Vec<(String, String)>)
        ensures
            pairs(r@) == worktree.spec_venv_sdk_env(),
    {
        let version = match Self::python_version(worktree) {
            Some(v) => v,
            None => {
                let r: Vec<(String, String)> = Vec::new();
                assert(pairs(r@) =~= Seq::<(Seq<char>, Seq<char>)>::empty());
                return r;
            },
        };
        let mut lib = concat3(worktree.root_path.as_str(), "/.venv/lib/python", version.as_str());
        lib.append("/site-packages/modular/lib");
        let mut envs: Vec<(String, String)> = Vec::new();
        envs.push(
            (
                String::from_str(PLUGIN_PATH_VARIABLE),
                concat3(lib.as_str(), "/libMojoLLDB.", Self::library_extension(worktree.os)),
            ),
        );
        envs.push(
            (String::from_str(VISUALIZERS_PATH_VARIABLE), concat2(lib.as_str(), "/lldb-visualizers")),
        );
        assert(pairs(envs@) =~= worktree.spec_venv_sdk_env());
        envs
    }

    /// The executable `command` and the environment it needs.
    pub fn find_command(worktree: &WorktreeFacts, command: &str) -> (r: Option<CommandSpec>)
        ensures
            match r {
                Some(c) => worktree.spec_find_command(command@) == Some((c.command@, pairs(c.envs@)))
                    && c.args@.len() == 0,
                None => worktree.spec_find_command(command@) is None,
            },
    {
        if Self::is_pixi_project(worktree) {
            match Self::project_binary(worktree, ".pixi/envs/default", command) {
                Some(c) => {
                    return Some(
                        CommandSpec { command: c, args: Vec::new(), envs: Self::pixi_sdk_env(worktree) },
                    );
                },
                None => {},
            }
        }
        match Self::project_binary(worktree, ".venv", command) {
            Some(c) => {
                return Some(
                    CommandSpec { command: c, args: Vec::new(), envs: Self::venv_sdk_env(worktree) },
                );
            },
            None => {},
        }
        match Self::which(worktree, command) {
            Some(path) => {
                let envs: Vec<(String, String)> = Vec::new();
                assert(pairs(envs@) =~= Seq::<(Seq<char>, Seq<char>)>::empty());
                Some(CommandSpec { command: path, args: Vec::new(), envs })
            },
            None => None,
        }
    }

    /// The debug adapter of a root Pixi project.
    pub fn pixi_debug_adapter(worktree: &WorktreeFacts) -> (r: Option<DebugAdapterSpec>)
        ensures
            match r {
                Some(spec) => worktree.spec_pixi_debug_adapter() == Some(adapter_view(spec)),
                None => worktree.spec_pixi_debug_adapter() is None,
            },
    {
        if !Self::is_pixi_project(worktree) {
            return None;
        }
        let (plugin, visualizers) = Self::pixi_debug_paths(worktree);
        let plugin_path = match plugin {
            Some(p) => p,
            None => return None,
        };
        let configured_command = Self::which_opt(worktree, Self::configured(worktree, "lldb_vscode_path"));
        let legacy_command = Self::project_binary(worktree, ".pixi/envs/default", LEGACY_DAP_BINARY);
        let plain_command = Self::project_binary(worktree, ".pixi/envs/default", "lldb-dap");
        let command = match configured_command {
            Some(c) => c,
            None => match legacy_command {
                Some(c) => c,
                None => match plain_command {
                    Some(c) => c,
                    None => return None,
                },
            },
        };
        let mut spec = Self::debug_adapter_spec(command, Some(plugin_path), visualizers);
        spec.envs = Self::pixi_sdk_env(worktree);
        Some(spec)
    }

    /// The debug adapter of a root `.venv`.
    pub fn venv_debug_adapter(worktree: &WorktreeFacts) -> (r: Option<DebugAdapterSpec>)
        ensures
            match r {
                Some(spec) => worktree.spec_venv_debug_adapter() == Some(adapter_view(spec)),
                None => worktree.spec_venv_debug_adapter() is None,
            },
    {
        let command = match Self::project_binary(worktree, ".venv", "lldb-dap") {
            Some(c) => c,
            None => return None,
        };
        let envs = Self::venv_sdk_env(worktree);
        let plugin_path = Self::env_value(&envs, PLUGIN_PATH_VARIABLE);
        let visualizers_path = Self::env_value(&envs, VISUALIZERS_PATH_VARIABLE);
        let mut spec = Self::debug_adapter_spec(command, plugin_path, visualizers_path);
        spec.envs = envs;
        Some(spec)
    }

    /// The directory part of an executable path.
    pub fn bin_dir(path: &str) -> (r: &str)
        ensures
            r@ == spec_bin_dir(path@),
    {
        match crate::text::find_last(path, &CharClass::Either('/', '\\')) {
            Some(k) => {
                proof {
                    crate::text::lemma_last_index_of(path@, CharClass::Either('/', '\\'));
                }
                path.substring_char(0, k)
            },
            None => {
                let e = path.substring_char(0, 0);
                assert(e@ =~= Seq::<char>::empty());
                e
            },
        }
    }

    /// The debug adapter for the worktree.
    pub fn find_debug_adapter(worktree: &WorktreeFacts) -> (r: Option<DebugAdapterSpec>)
        ensures
            match r {
                Some(spec) => worktree.spec_find_debug_adapter() == Some(adapter_view(spec)),
                None => worktree.spec_find_debug_adapter() is None,
            },
    {
        match Self::pixi_debug_adapter(worktree) {
            Some(spec) => return Some(spec),
            None => {},
        }
        match Self::venv_debug_adapter(worktree) {
            Some(spec) => return Some(spec),
            None => {},
        }
        match Self::which(worktree, "mojo") {
            Some(mojo) => {
                let bin_dir = Self::bin_dir(mojo.as_str());
                let plugin_path = Self::shell_env_value(worktree, PLUGIN_PATH_VARIABLE);
                let visualizers_path = Self::shell_env_value(worktree, VISUALIZERS_PATH_VARIABLE);
                let dap_path = concat2(bin_dir, "/lldb-dap");
                let dap = Self::which(worktree, dap_path.as_str());
                if plugin_path.is_some() {
                    match dap {
                        Some(dap) => {
                            return Some(Self::debug_adapter_spec(dap, plugin_path, visualizers_path));
                        },
                        None => {},
                    }
                }
            },
            None => {},
        }
        match Self::which(worktree, LEGACY_DAP_BINARY) {
            Some(path) => {
                let spec = Self::debug_adapter_spec(path, None, None);
                assert(adapter_envs(None, None) =~= Seq::<(Seq<char>, Seq<char>)>::empty());
                Some(spec)
            },
            None => None,
        }
    }

    fn push_project_queries(
        worktree: &WorktreeFacts,
        queries: &mut Vec<String>,
        command: &str,
    )
        ensures
            views(final(queries)@) == views(old(queries)@) + seq![
                spec_environment_binary(
                    worktree.os,
                    spec_environment_root(worktree.root_path@, ".pixi/envs/default"@),
                    command@,
                ),
                spec_environment_binary(
                    worktree.os,
                    spec_environment_root(worktree.root_path@, ".venv"@),
                    command@,
                ),
            ],
    {
        let ghost before = views(queries@);
        let pixi = Self::environment_root(worktree.root_path.as_str(), ".pixi/envs/default");
        let venv = Self::environment_root(worktree.root_path.as_str(), ".venv");
        let a = Self::environment_binary(worktree.os, pixi.as_str(), command);
        let b = Self::environment_binary(worktree.os, venv.as_str(), command);
        let ghost av = a@;
        let ghost bv = b@;
        queries.push(a);
        queries.push(b);
        assert(views(queries@) =~= before + seq![av, bv]);
    }

    /// The worktree files whose text the discovery reads: the Pixi
    /// manifests, the `modular.cfg` of the Pixi SDK and the `pyvenv.cfg` of
    /// the `.venv`.
    pub fn project_files() -> (r: Vec<String>)
        ensures
            views(r@) == seq![
                "pixi.toml"@,
                "pyproject.toml"@,
                ".pixi/envs/default/share/max/modular.cfg"@,
                ".venv/pyvenv.cfg"@,
            ],
    {
        let r = vec![
            String::from_str("pixi.toml"),
            String::from_str("pyproject.toml"),
            String::from_str(".pixi/envs/default/share/max/modular.cfg"),
            String::from_str(".venv/pyvenv.cfg"),
        ];
        assert(views(r@) =~= seq![
            "pixi.toml"@,
            "pyproject.toml"@,
            ".pixi/envs/default/share/max/modular.cfg"@,
            ".venv/pyvenv.cfg"@,
        ]);
        r
    }

    /// The executable look-ups that finding the language server, the
    /// compiler and the debug adapter make, given the look-ups answered so
    /// far: the environment executables of the Pixi project and the `.venv`,
    /// the bare commands, the plugin, data formatters and adapter that
    /// `modular.cfg` names or that the Pixi SDK holds at their usual places,
    /// and the `lldb-dap` beside a `mojo` found on `PATH`.
    pub fn discovery_queries(worktree: &WorktreeFacts) -> (r: Vec<String>)
        ensures
            views(r@) == worktree.spec_discovery_queries(),
    {
        let mut queries: Vec<String> = Vec::new();
        Self::push_project_queries(worktree, &mut queries, LSP_BINARY);
        Self::push_project_queries(worktree, &mut queries, "mojo");
        Self::push_project_queries(worktree, &mut queries, LEGACY_DAP_BINARY);
        Self::push_project_queries(worktree, &mut queries, "lldb-dap");
        let sdk_root = concat2(worktree.root_path.as_str(), "/.pixi/envs/default");
        let fixed = vec![
            String::from_str(LSP_BINARY),
            String::from_str("mojo"),
            String::from_str(LEGACY_DAP_BINARY),
            concat3(sdk_root.as_str(), "/lib/libMojoLLDB.", Self::library_extension(worktree.os)),
            concat2(sdk_root.as_str(), "/lib/lldb-visualizers/lldbDataFormatters.py"),
        ];
        let mut optional: Vec<String> = Vec::new();
        let ghost mut opt_views: Seq<Seq<char>> = seq![];
        match Self::configured(worktree, "lldb_plugin_path") {
            Some(p) => {
                proof {
                    opt_views = opt_views.push(p@);
                }
                optional.push(p);
            },
            None => {},
        }
        assert(views(optional@) =~= opt_views);
        match Self::configured(worktree, "lldb_visualizers_path") {
            Some(p) => {
                let q = concat2(p.as_str(), "/lldbDataFormatters.py");
                proof {
                    opt_views = opt_views.push(q@);
                }
                optional.push(q);
            },
            None => {},
        }
        assert(views(optional@) =~= opt_views);
        match Self::configured(worktree, "lldb_vscode_path") {
            Some(p) => {
                proof {
                    opt_views = opt_views.push(p@);
                }
                optional.push(p);
            },
            None => {},
        }
        assert(views(optional@) =~= opt_views);
        match Self::which(worktree, "mojo") {
            Some(mojo) => {
                let q = concat2(Self::bin_dir(mojo.as_str()), "/lldb-dap");
                proof {
                    opt_views = opt_views.push(q@);
                }
                optional.push(q);
            },
            None => {},
        }
        assert(views(optional@) =~= opt_views);
        let ghost q0 = views(queries@);
        let ghost f = views(fixed@);
        let mut fixed = fixed;
        queries.append(&mut fixed);
        queries.append(&mut optional);
        assert(views(queries@) =~= q0 + f + opt_views);
        assert(views(queries@) =~= worktree.spec_discovery_queries());
        queries
    }
}

} // verus!
