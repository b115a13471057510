//! Starting a language server or a debug session: the decisions between the
//! look-ups and processes that the host performs.

use vstd::prelude::*;

use crate::args::{filter_build_args, spec_is_mojo_source};
use crate::debug::{
    debugger_configured, mojo_init_commands, spec_build_argument_list, spec_build_cwd,
    spec_config_environment, unsupported_server_message, DebugAdapterSpec, DebugRequestKind,
};
use crate::discovery::{adapter_view, CommandSpec, LSP_BINARY};
use crate::extension::MojoExtension;
use crate::json::{keys_unique, lookup, object_insert, object_remove, JsonValue};
use crate::process::{plan_view, BUILD_SCRIPT};
use crate::text::{concat3, opt_view, pairs, str_eq, views};
use crate::worktree::{pair_lookup, WorktreeFacts};

verus! {

/// A source build for debugging: the compiler and its environment, the
/// directory to build in, the compiler options and the environment that the
/// configuration adds.
pub struct SourceBuild {
    pub mojo: CommandSpec,
    pub cwd: String,
    pub build_args: Vec<String>,
    pub env: Vec<(String, String)>,
}

/// How to start the debug adapter and what to ask it.
#[derive(Debug)]
pub struct DebugAdapterBinary {
    pub command: Option<String>,
    pub arguments: Vec<String>,
    pub envs: Vec<(String, String)>,
    pub cwd: Option<String>,
    pub configuration: JsonValue,
    pub request: DebugRequestKind,
}

/// The Mojo source that a launch configuration asks to build, if it names
/// one in `mojoFile`.
pub open spec fn spec_source_debug_file(config: JsonValue) -> Result<Option<Seq<char>>, Seq<char>> {
    match config.spec_get("mojoFile"@) {
        Some(v) => match v.spec_as_str() {
            Some(s) => if spec_is_mojo_source(s) {
                Ok(Some(s))
            } else {
                Err("`mojoFile` must point to a `.mojo` or `.🔥` source file"@)
            },
            None => Ok(None),
        },
        None => Ok(None),
    }
}

/// The adapter settings to use: the discovered ones, with the user's
/// adapter path as the command where one is given.
pub open spec fn spec_selected_adapter(
    discovered: Option<(Seq<char>, Seq<(Seq<char>, Seq<char>)>, Option<Seq<char>>, Option<Seq<char>>)>,
    user_path: Option<Seq<char>>,
) -> Option<(Seq<char>, Seq<(Seq<char>, Seq<char>)>, Option<Seq<char>>, Option<Seq<char>>)> {
    match user_path {
        Some(p) => match discovered {
            Some(d) => Some((p, d.1, d.2, d.3)),
            None => Some((p, seq![], None, None)),
        },
        None => discovered,
    }
}

/// `envs` with the first value of `key` set to `value`, or with the pair
/// added at the end if there is none.
pub open spec fn set_first(
    envs: Seq<(Seq<char>, Seq<char>)>,
    key: Seq<char>,
    value: Seq<char>,
) -> Seq<(Seq<char>, Seq<char>)>
    decreases envs.len(),
{
    if envs.len() == 0 {
        seq![(key, value)]
    } else if envs[0].0 == key {
        envs.update(0, (key, value))
    } else {
        seq![envs[0]] + set_first(envs.drop_first(), key, value)
    }
}

/// Whether the user's `initCommands`, if any, is an array.
pub open spec fn init_commands_usable(members: Seq<(String, JsonValue)>) -> bool {
    match lookup(members, "initCommands"@) {
        Some(v) => v is Array,
        None => true,
    }
}

/// A local adapter binary: the adapter's command in variable REPL mode with
/// its environment, at the worktree root, with the configuration set up for
/// Mojo.
pub open spec fn is_local_binary(
    b: DebugAdapterBinary,
    root: Seq<char>,
    request: DebugRequestKind,
    before: Seq<(String, JsonValue)>,
    adapter: (Seq<char>, Seq<(Seq<char>, Seq<char>)>, Option<Seq<char>>, Option<Seq<char>>),
) -> bool {
    &&& opt_view(b.command) == Some(adapter.0)
    &&& views(b.arguments@) == seq!["--repl-mode"@, "variable"@]
    &&& pairs(b.envs@) == adapter.1
    &&& opt_view(b.cwd) == Some(root)
    &&& b.request == request
    &&& b.configuration matches JsonValue::Object(after) && debugger_configured(
        before,
        after@,
        mojo_init_commands(adapter.2, adapter.3),
        true,
    )
}

/// The error for a debug session without a debug adapter.
pub open spec fn not_found_debugger_message() -> Seq<char> {
    "A Mojo SDK debugger was not found. Activate a Mojo/MAX environment, use a root Pixi/.venv worktree, or configure a debug adapter path."@
}

/// The error for a language server that was not found.
pub open spec fn server_not_found_message() -> Seq<char> {
    "`mojo-lsp-server` was not found. Install Mojo/MAX and activate it on PATH, use a root Pixi/uv worktree, or configure `lsp.mojo-lsp-server.binary.path`."@
}

/// The error for a stdlib source without an SDK home to copy.
pub open spec fn stdlib_home_missing_message() -> Seq<char> {
    "stdlib_source needs a detected SDK home (MODULAR_HOME); use a root Pixi project or activate the SDK environment"@
}

/// The error for a `stdlib_source` setting that could not be applied.
pub open spec fn stdlib_message(stdlib_source: Seq<char>, error: Seq<char>) -> Seq<char> {
    "stdlib_source `"@ + stdlib_source + "`: "@ + error
}

/// The `stdlib_source` of the language server settings, if it is a
/// non-empty string.
pub open spec fn configured_stdlib_source(settings: Option<&JsonValue>) -> Option<Seq<char>> {
    match settings {
        Some(s) => match s.spec_get("stdlib_source"@) {
            Some(v) => match v.spec_as_str() {
                Some(t) => if t.len() > 0 {
                    Some(t)
                } else {
                    None
                },
                None => None,
            },
            None => None,
        },
        None => None,
    }
}

/// The SDK home that a stdlib-source home copies: the server's
/// `MODULAR_HOME`, else the shell's.
pub open spec fn spec_stdlib_home(worktree: WorktreeFacts, server_envs: Seq<(Seq<char>, Seq<char>)>) -> Option<
    Seq<char>,
> {
    match pair_lookup(server_envs, "MODULAR_HOME"@) {
        Some(h) => Some(h),
        None => worktree.spec_shell_env_value("MODULAR_HOME"@),
    }
}

/// Why a source build cannot be set up, checked in this order: no compiler,
/// then a bad `cwd`, `buildArgs` or `env`.
pub open spec fn build_settings_error(worktree: WorktreeFacts, config: JsonValue) -> Option<Seq<char>> {
    if worktree.spec_find_command("mojo"@) is None {
        Some(
            "The Mojo compiler was not found for source debugging; activate an SDK or configure a project Pixi/uv environment"@,
        )
    } else if spec_build_cwd(worktree.root_path@, config) is Err {
        Some(spec_build_cwd(worktree.root_path@, config)->Err_0)
    } else if spec_build_argument_list(config) is Err {
        Some(spec_build_argument_list(config)->Err_0)
    } else if spec_config_environment(config) is Err {
        Some(spec_config_environment(config)->Err_0)
    } else {
        None
    }
}

/// The settings of a source build for `config`: the compiler that was
/// found, the build directory, the compiler options without level options
/// and the configuration's environment.
pub open spec fn build_settings_fit(worktree: WorktreeFacts, config: JsonValue, b: SourceBuild) -> bool {
    &&& worktree.spec_find_command("mojo"@) == Some((b.mojo.command@, pairs(b.mojo.envs@)))
    &&& spec_build_cwd(worktree.root_path@, config) == Ok::<Seq<char>, Seq<char>>(b.cwd@)
    &&& spec_build_argument_list(config) matches Ok(list) && views(b.build_args@) == filter_build_args(list)
    &&& spec_config_environment(config) == Ok::<Seq<(Seq<char>, Seq<char>)>, Seq<char>>(pairs(b.env@))
}

/// The build of `source` into `binary` for debugging: without optimization
/// and with full debug information, with the task's compiler options before
/// the source, in the build directory, and with the shell environment, then
/// the SDK's, then the configuration's.
pub open spec fn spec_build_plan(worktree: WorktreeFacts, build: SourceBuild, source: Seq<char>, binary: Seq<char>) -> (
    Seq<char>,
    Seq<Seq<char>>,
    Seq<(Seq<char>, Seq<char>)>,
) {
    (
        "/bin/sh"@,
        seq![
            "-c"@,
            BUILD_SCRIPT@,
            "zed-mojo-build"@,
            build.cwd@,
            build.mojo.command@,
            "build"@,
            "--no-optimization"@,
            "--debug-level"@,
            "full"@,
        ] + views(build.build_args@) + seq![source, "-o"@, binary],
        pairs(worktree.shell_env@) + pairs(build.mojo.envs@) + pairs(build.env@),
    )
}

/// A launch configuration pointed at its built `binary`: `program` is the
/// binary, `mojoFile` and `buildArgs` are gone, every other member stays.
pub open spec fn source_built(
    before: Seq<(String, JsonValue)>,
    after: Seq<(String, JsonValue)>,
    binary: Seq<char>,
) -> bool {
    &&& keys_unique(after)
    &&& lookup(after, "program"@) matches Some(JsonValue::Str(p)) && p@ == binary
    &&& lookup(after, "mojoFile"@) is None
    &&& lookup(after, "buildArgs"@) is None
    &&& forall|k: Seq<char>|
        k != "program"@ && k != "mojoFile"@ && k != "buildArgs"@ ==> #[trigger] lookup(after, k)
            == lookup(before, k)
}

/// The outcome for an adapter reached over TCP: nothing to start and nothing
/// to build.
pub open spec fn tcp_binary_outcome(
    worktree: WorktreeFacts,
    config: JsonValue,
    request: DebugRequestKind,
    r: Result<DebugAdapterBinary, String>,
) -> bool {
    &&& config.spec_get("mojoFile"@) is Some ==> (r matches Err(e)
        && e@ == "`mojoFile` cannot be built for an external TCP adapter; build a `program` that is accessible to the adapter"@)
    &&& config.spec_get("mojoFile"@) is None ==> (r matches Ok(b) && b.command is None && b.arguments@.len() == 0
        && b.envs@.len() == 0 && opt_view(b.cwd) == Some(worktree.root_path@) && b.configuration == config
        && b.request == request)
}

/// The outcome for a local adapter: the discovered adapter (or the user's),
/// or why there is none or the configuration cannot be set up.
pub open spec fn local_binary_outcome(
    worktree: WorktreeFacts,
    config: JsonValue,
    request: DebugRequestKind,
    user_path: Option<Seq<char>>,
    r: Result<DebugAdapterBinary, String>,
) -> bool {
    match spec_selected_adapter(worktree.spec_find_debug_adapter(), user_path) {
        None => r matches Err(e) && e@ == not_found_debugger_message(),
        Some(adapter) => match config {
            JsonValue::Object(before) => {
                &&& init_commands_usable(before@) ==> r is Ok
                &&& !init_commands_usable(before@) ==> (r matches Err(e)
                    && e@ == "Mojo debug `initCommands` must be an array of strings"@)
                &&& r matches Ok(b) ==> is_local_binary(b, worktree.root_path@, request, before@, adapter)
            },
            _ => r matches Err(e) && e@ == "Mojo debug configuration must be a JSON object"@,
        },
    }
}

impl MojoExtension {
    /// The Mojo source that a launch configuration asks to build.
    pub fn source_debug_file(config: &JsonValue) -> (r: Result<Option<String>, String>)
        ensures
            match spec_source_debug_file(*config) {
                Ok(s) => r matches Ok(v) && opt_view(v) == s,
                Err(m) => r matches Err(e) && e@ == m,
            },
    {
        let source = match config.get("mojoFile") {
            Some(v) => match v.as_str() {
                Some(s) => s,
                None => return Ok(None),
            },
            None => return Ok(None),
        };
        if !Self::is_mojo_source(source) {
            return Err(String::from_str("`mojoFile` must point to a `.mojo` or `.🔥` source file"));
        }
        Ok(Some(String::from_str(source)))
    }

    /// What a source build needs, in the order the checks are made: the
    /// compiler, the build directory, the compiler options and the added
    /// environment.
    pub fn source_build_settings(worktree: &WorktreeFacts, config: &JsonValue) -> (r: Result<SourceBuild, String>)
        ensures
            match build_settings_error(*worktree, *config) {
                Some(m) => r matches Err(e) && e@ == m,
                None => r matches Ok(b) && build_settings_fit(*worktree, *config, b),
            },
    {
        let mojo = match Self::find_command(worktree, "mojo") {
            Some(mojo) => mojo,
            None => {
                return Err(String::from_str("The Mojo compiler was not found for source debugging; activate an SDK or configure a project Pixi/uv environment"));
            },
        };
        let cwd = match Self::build_cwd(worktree.root_path.as_str(), config) {
            Ok(cwd) => cwd,
            Err(e) => return Err(e),
        };
        let build_args = match Self::build_arguments(config) {
            Ok(a) => a,
            Err(e) => return Err(e),
        };
        let env = match Self::config_environment(config) {
            Ok(env) => env,
            Err(e) => return Err(e),
        };
        Ok(SourceBuild { mojo, cwd, build_args, env })
    }

    fn push_strs(v: &mut Vec<String>, items: &Vec<String>)
        ensures
            views(final(v)@) == views(old(v)@) + views(items@),
    {
        let n = items.len();
        let mut i: usize = 0;
        while i < n
            invariant
                i <= n,
                n == items@.len(),
                views(v@) == views(old(v)@) + views(items@).take(i as int),
            decreases n - i,
        {
            let ghost before = views(v@);
            let s = items[i].clone();
            v.push(s);
            assert(views(v@) =~= before.push(items@[i as int]@));
            assert(views(items@).take(i + 1) =~= views(items@).take(i as int).push(items@[i as int]@));
            i += 1;
        }
        assert(views(items@).take(n as int) =~= views(items@));
    }

    fn push_pairs(v: &mut Vec<(String, String)>, items: &Vec<(String, String)>)
        ensures
            pairs(final(v)@) == pairs(old(v)@) + pairs(items@),
    {
        let n = items.len();
        let mut i: usize = 0;
        while i < n
            invariant
                i <= n,
                n == items@.len(),
                pairs(v@) == pairs(old(v)@) + pairs(items@).take(i as int),
            decreases n - i,
        {
            let ghost before = pairs(v@);
            let p = (items[i].0.clone(), items[i].1.clone());
            v.push(p);
            assert(pairs(v@) =~= before.push((items@[i as int].0@, items@[i as int].1@)));
            assert(pairs(items@).take(i + 1) =~= pairs(items@).take(i as int).push(
                (items@[i as int].0@, items@[i as int].1@),
            ));
            i += 1;
        }
        assert(pairs(items@).take(n as int) =~= pairs(items@));
    }

    /// The command that builds `source` into `binary` for debugging: without
    /// optimization and with full debug information, with the task's compiler
    /// options before the source, in the build directory, and with the shell
    /// environment, then the SDK's, then the configuration's.
    pub fn source_build_command(worktree: &WorktreeFacts, build: &SourceBuild, source: &str, binary: &str) -> (r: CommandSpec)
        ensures
            plan_view(r) == spec_build_plan(*worktree, *build, source@, binary@),
    {
        let mut args = vec![
            String::from_str("-c"),
            String::from_str(BUILD_SCRIPT),
            String::from_str("zed-mojo-build"),
            build.cwd.clone(),
            build.mojo.command.clone(),
            String::from_str("build"),
            String::from_str("--no-optimization"),
            String::from_str("--debug-level"),
            String::from_str("full"),
        ];
        Self::push_strs(&mut args, &build.build_args);
        let tail = vec![String::from_str(source), String::from_str("-o"), String::from_str(binary)];
        Self::push_strs(&mut args, &tail);
        let mut envs: Vec<(String, String)> = Vec::new();
        Self::push_pairs(&mut envs, &worktree.shell_env);
        Self::push_pairs(&mut envs, &build.mojo.envs);
        Self::push_pairs(&mut envs, &build.env);
        assert(views(args@) =~= seq![
            "-c"@,
            BUILD_SCRIPT@,
            "zed-mojo-build"@,
            build.cwd@,
            build.mojo.command@,
            "build"@,
            "--no-optimization"@,
            "--debug-level"@,
            "full"@,
        ] + views(build.build_args@) + seq![source@, "-o"@, binary@]);
        assert(pairs(envs@) =~= pairs(worktree.shell_env@) + pairs(build.mojo.envs@) + pairs(build.env@));
        CommandSpec { command: String::from_str("/bin/sh"), args, envs }
    }

    /// Points a launch configuration at the built `binary`: `program` is set
    /// to it, `mojoFile` and `buildArgs` are removed, every other member
    /// stays.
    pub fn finish_source_debug(config: &mut JsonValue, binary: String) -> (r: Result<(), String>)
        requires
            old(config).top_keys_unique(),
        ensures
            match *old(config) {
                JsonValue::Object(before) => r is Ok && (*final(config) matches JsonValue::Object(after)
                    && source_built(before@, after@, binary@)),
                _ => *final(config) == *old(config) && (r matches Err(e) && e@ == "Mojo debug configuration must be a JSON object"@),
            },
    {
        match config {
            JsonValue::Object(members) => {
                proof {
                    crate::scenario::lemma_member_keys_distinct();
                }
                let _ = object_remove(members, "mojoFile");
                let _ = object_remove(members, "buildArgs");
                object_insert(members, String::from_str("program"), JsonValue::Str(binary));
                Ok(())
            },
            _ => Err(String::from_str("Mojo debug configuration must be a JSON object")),
        }
    }

    /// The adapter binary for an adapter that is already running and is
    /// reached over TCP: nothing to start, and no source that could be built
    /// for it.
    pub fn tcp_adapter_binary(worktree: &WorktreeFacts, config: JsonValue, request: DebugRequestKind) -> (r: Result<DebugAdapterBinary, String>)
        ensures
            tcp_binary_outcome(*worktree, config, request, r),
    {
        if config.get("mojoFile").is_some() {
            return Err(String::from_str("`mojoFile` cannot be built for an external TCP adapter; build a `program` that is accessible to the adapter"));
        }
        Ok(DebugAdapterBinary {
            command: None,
            arguments: Vec::new(),
            envs: Vec::new(),
            cwd: Some(worktree.root_path.clone()),
            configuration: config,
            request,
        })
    }

    /// The adapter settings to use, from those discovered and the adapter
    /// path that the user gave.
    pub fn select_debug_adapter(discovered: Option<DebugAdapterSpec>, user_path: Option<String>) -> (r: Result<DebugAdapterSpec, String>)
        ensures
            match spec_selected_adapter(
                match discovered {
                    Some(d) => Some(adapter_view(d)),
                    None => None,
                },
                opt_view(user_path),
            ) {
                Some(v) => r matches Ok(s) && adapter_view(s) == v,
                None => r matches Err(e) && e@ == not_found_debugger_message(),
            },
    {
        match user_path {
            Some(path) => {
                let mut spec = match discovered {
                    Some(spec) => spec,
                    None => {
                        let s = Self::debug_adapter_spec(path.clone(), None, None);
                        assert(pairs(s.envs@) =~= Seq::<(Seq<char>, Seq<char>)>::empty());
                        s
                    },
                };
                spec.command = path;
                Ok(spec)
            },
            None => match discovered {
                Some(spec) => Ok(spec),
                None => Err(String::from_str("A Mojo SDK debugger was not found. Activate a Mojo/MAX environment, use a root Pixi/.venv worktree, or configure a debug adapter path.")),
            },
        }
    }

    /// The adapter binary for a local adapter: the discovered adapter (or
    /// the user's), started in variable REPL mode at the worktree root, with
    /// the configuration set up for Mojo.
    pub fn local_adapter_binary(
        worktree: &WorktreeFacts,
        config: JsonValue,
        request: DebugRequestKind,
        user_path: Option<String>,
    ) -> (r: Result<DebugAdapterBinary, String>)
        requires
            config.top_keys_unique(),
        ensures
            local_binary_outcome(*worktree, config, request, opt_view(user_path), r),
    {
        let discovered = Self::find_debug_adapter(worktree);
        let spec = match Self::select_debug_adapter(discovered, user_path) {
            Ok(spec) => spec,
            Err(e) => return Err(e),
        };
        let mut config = config;
        match Self::configure_mojo_debugger(&mut config, &spec) {
            Ok(()) => {},
            Err(e) => return Err(e),
        }
        let arguments = vec![String::from_str("--repl-mode"), String::from_str("variable")];
        assert(views(arguments@) =~= seq!["--repl-mode"@, "variable"@]);
        Ok(DebugAdapterBinary {
            command: Some(spec.command),
            arguments,
            envs: spec.envs,
            cwd: Some(worktree.root_path.clone()),
            configuration: config,
            request,
        })
    }

    /// The language server command for `language_server_id`, found in the
    /// worktree's SDK.
    pub fn language_server_spec(worktree: &WorktreeFacts, language_server_id: &str) -> (r: Result<CommandSpec, String>)
        ensures
            language_server_id@ != "mojo-lsp-server"@ ==> (r matches Err(e) && e@ == unsupported_server_message(language_server_id@)),
            language_server_id@ == "mojo-lsp-server"@ ==> match worktree.spec_find_command(LSP_BINARY@) {
                Some(found) => r matches Ok(c) && (c.command@, pairs(c.envs@)) == found && c.args@.len() == 0,
                None => r matches Err(e) && e@ == server_not_found_message(),
            },
    {
        match Self::validate_language_server(language_server_id) {
            Ok(()) => {},
            Err(e) => return Err(e),
        }
        match Self::find_command(worktree, LSP_BINARY) {
            Some(spec) => Ok(spec),
            None => Err(String::from_str("`mojo-lsp-server` was not found. Install Mojo/MAX and activate it on PATH, use a root Pixi/uv worktree, or configure `lsp.mojo-lsp-server.binary.path`.")),
        }
    }

    /// The `stdlib_source` setting of the language server, if it is a
    /// non-empty string.
    pub fn stdlib_source_setting(settings: Option<&JsonValue>) -> (r: Option<String>)
        ensures
            opt_view(r) == configured_stdlib_source(settings),
    {
        match settings {
            Some(s) => match s.get("stdlib_source") {
                Some(v) => match v.as_str() {
                    Some(t) => if t.unicode_len() > 0 {
                        Some(String::from_str(t))
                    } else {
                        None
                    },
                    None => None,
                },
                None => None,
            },
            None => None,
        }
    }

    /// The SDK home whose `modular.cfg` a stdlib-source home copies: the
    /// server's `MODULAR_HOME`, else the shell's.
    pub fn stdlib_home(worktree: &WorktreeFacts, spec: &CommandSpec) -> (r: Result<String, String>)
        ensures
            match spec_stdlib_home(*worktree, pairs(spec.envs@)) {
                Some(h) => r matches Ok(v) && v@ == h,
                None => r matches Err(e) && e@ == stdlib_home_missing_message(),
            },
    {
        match Self::env_value(&spec.envs, "MODULAR_HOME") {
            Some(h) => Ok(h),
            None => match Self::shell_env_value(worktree, "MODULAR_HOME") {
                Some(h) => Ok(h),
                None => Err(String::from_str("stdlib_source needs a detected SDK home (MODULAR_HOME); use a root Pixi project or activate the SDK environment")),
            },
        }
    }

    /// Points the server at a new SDK home: the first `MODULAR_HOME` of its
    /// environment is set to `directory`, or one is added.
    pub fn set_modular_home(spec: &mut CommandSpec, directory: String)
        ensures
            final(spec).command == old(spec).command,
            final(spec).args == old(spec).args,
            pairs(final(spec).envs@) == set_first(pairs(old(spec).envs@), "MODULAR_HOME"@, directory@),
    {
        let ghost all = pairs(spec.envs@);
        let n = spec.envs.len();
        let mut i: usize = 0;
        while i < n
            invariant
                i <= n,
                n == spec.envs@.len(),
                all == pairs(spec.envs@),
                spec.command == old(spec).command,
                spec.args == old(spec).args,
                spec.envs@ == old(spec).envs@,
                forall|j: int| 0 <= j < i ==> (#[trigger] all[j]).0 != "MODULAR_HOME"@,
            decreases n - i,
        {
            assert(all[i as int] == (spec.envs@[i as int].0@, spec.envs@[i as int].1@));
            if str_eq(spec.envs[i].0.as_str(), "MODULAR_HOME") {
                let ghost value = directory@;
                let key = spec.envs[i].0.clone();
                spec.envs.set(i, (key, directory));
                proof {
                    Self::lemma_set_first_at(all, "MODULAR_HOME"@, value, i as int);
                }
                assert(pairs(spec.envs@) =~= all.update(i as int, ("MODULAR_HOME"@, value)));
                return;
            }
            i += 1;
        }
        let ghost value = directory@;
        spec.envs.push((String::from_str("MODULAR_HOME"), directory));
        proof {
            Self::lemma_set_first_absent(all, "MODULAR_HOME"@, value);
        }
        assert(pairs(spec.envs@) =~= all.push(("MODULAR_HOME"@, value)));
    }

    proof fn lemma_set_first_at(envs: Seq<(Seq<char>, Seq<char>)>, key: Seq<char>, value: Seq<char>, i: int)
        requires
            0 <= i < envs.len(),
            envs[i].0 == key,
            forall|j: int| 0 <= j < i ==> (#[trigger] envs[j]).0 != key,
        ensures
            set_first(envs, key, value) == envs.update(i, (key, value)),
        decreases i,
    {
        if i > 0 {
            let t = envs.drop_first();
            assert forall|j: int| 0 <= j < i - 1 implies (#[trigger] t[j]).0 != key by {
                assert(t[j] == envs[j + 1]);
            }
            Self::lemma_set_first_at(t, key, value, i - 1);
            assert(envs[0].0 != key);
            assert(seq![envs[0]] + t.update(i - 1, (key, value)) =~= envs.update(i, (key, value)));
        }
    }

    proof fn lemma_set_first_absent(envs: Seq<(Seq<char>, Seq<char>)>, key: Seq<char>, value: Seq<char>)
        requires
            forall|j: int| 0 <= j < envs.len() ==> (#[trigger] envs[j]).0 != key,
        ensures
            set_first(envs, key, value) == envs.push((key, value)),
        decreases envs.len(),
    {
        if envs.len() > 0 {
            let t = envs.drop_first();
            assert forall|j: int| 0 <= j < t.len() implies (#[trigger] t[j]).0 != key by {
                assert(t[j] == envs[j + 1]);
            }
            Self::lemma_set_first_absent(t, key, value);
            assert(envs[0].0 != key);
            assert(seq![envs[0]] + t.push((key, value)) =~= envs.push((key, value)));
        }
    }

    /// The error for a `stdlib_source` setting that could not be applied.
    pub fn stdlib_error(stdlib_source: &str, error: &str) -> (r: String)
        ensures
            r@ == stdlib_message(stdlib_source@, error@),
    {
        let mut r = concat3("stdlib_source `", stdlib_source, "`: ");
        r.append(error);
        r
    }
}

} // verus!
