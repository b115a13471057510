use zed_mojo::args::TaskTemplate;
use zed_mojo::debug::DebugRequestKind;
use zed_mojo::discovery::CommandSpec;
use zed_mojo::json::{JsonNumber, JsonValue};
use zed_mojo::scenario::{AttachRequest, DebugConfig, DebugRequest, LaunchRequest};
use zed_mojo::worktree::{Os, WorktreeFacts};
use zed_mojo::MojoExtension;

fn s(text: &str) -> String {
    text.to_string()
}

fn text(value: &str) -> JsonValue {
    JsonValue::Str(s(value))
}

fn texts(values: &[&str]) -> JsonValue {
    JsonValue::Array(values.iter().map(|v| text(v)).collect())
}

fn object(members: Vec<(&str, JsonValue)>) -> JsonValue {
    JsonValue::Object(members.into_iter().map(|(k, v)| (s(k), v)).collect())
}

fn strings(values: &[&str]) -> Vec<String> {
    values.iter().map(|v| s(v)).collect()
}

fn pairs(values: &[(&str, &str)]) -> Vec<(String, String)> {
    values.iter().map(|(k, v)| (s(k), s(v))).collect()
}

fn worktree(files: &[(&str, &str)], which: &[(&str, Option<&str>)], shell: &[(&str, &str)]) -> WorktreeFacts {
    WorktreeFacts {
        root_path: s("/w"),
        os: Os::Linux,
        shell_env: pairs(shell),
        files: pairs(files),
        which: which.iter().map(|(q, a)| (s(q), a.map(s))).collect(),
    }
}

fn launch_config(program: &str) -> DebugConfig {
    DebugConfig {
        label: s("debug"),
        adapter: s("mojo-lldb"),
        request: DebugRequest::Launch(LaunchRequest {
            program: s(program),
            cwd: Some(s("/w/sub")),
            args: strings(&["--fast"]),
            envs: pairs(&[("A", "1")]),
        }),
        stop_on_entry: Some(true),
    }
}

// Laws on concrete values.

#[test]
fn debug_build_drops_only_level_options() {
    let kept = MojoExtension::debug_build_arguments(&strings(&[
        "-O", "2", "-I", "lib", "-g", "-Xlinker", "--debug-level=full", "-D", "X=1",
    ]));
    assert_eq!(kept, strings(&["-I", "lib", "-Xlinker", "-D", "X=1"]));
    assert_eq!(MojoExtension::debug_build_arguments(&kept), kept);
    assert_eq!(MojoExtension::debug_build_arguments(&strings(&["--debug-level"])), Vec::<String>::new());
    let first = strings(&["-I", "lib", "-g0"]);
    let rest = strings(&["-O", "2", "-Xlinker", "-lm"]);
    let mut whole = first.clone();
    whole.extend(rest.clone());
    let mut parts = MojoExtension::debug_build_arguments(&first);
    parts.extend(MojoExtension::debug_build_arguments(&rest));
    assert_eq!(MojoExtension::debug_build_arguments(&whole), parts);
}

#[test]
fn locator_scenario_reads_back_as_a_source_launch() {
    let task = TaskTemplate {
        label: s("run"),
        command: s("mojo"),
        args: strings(&["run", "-O3", "-I", "lib", "main.mojo", "arg"]),
        env: pairs(&[("A", "1"), ("B", "2"), ("A", "3")]),
        cwd: None,
    };
    let scenario = MojoExtension::dap_locator_create_scenario(s("mojo-source"), task, s("label"), s("mojo-lldb")).unwrap();
    let config = &scenario.config;
    assert_eq!(scenario.adapter, "mojo-lldb");
    assert_eq!(scenario.label, "label");
    assert_eq!(MojoExtension::request_kind(config), Ok(DebugRequestKind::Launch));
    assert_eq!(MojoExtension::source_debug_file(config), Ok(Some(s("main.mojo"))));
    assert_eq!(MojoExtension::build_arguments(config), Ok(strings(&["-I", "lib"])));
    let mut env = MojoExtension::config_environment(config).unwrap();
    env.sort();
    assert_eq!(env, pairs(&[("A", "3"), ("B", "2")]));
}

#[test]
fn locator_declines_other_locators_adapters_and_tasks() {
    let run = TaskTemplate { label: s("run"), command: s("mojo"), args: strings(&["run", "main.mojo"]), env: vec![], cwd: None };
    assert!(MojoExtension::dap_locator_create_scenario(s("other"), run.clone(), s("l"), s("mojo-lldb")).is_none());
    assert!(MojoExtension::dap_locator_create_scenario(s("mojo-source"), run.clone(), s("l"), s("gdb")).is_none());
    let build = TaskTemplate { args: strings(&["build", "main.mojo"]), ..run };
    assert!(MojoExtension::dap_locator_create_scenario(s("mojo-source"), build, s("l"), s("mojo-lldb")).is_none());
}

#[test]
fn dialog_scenarios_ask_for_their_request_kind() {
    let launch = MojoExtension::dap_config_to_scenario(launch_config("/w/app")).unwrap();
    assert_eq!(MojoExtension::request_kind(&launch.config), Ok(DebugRequestKind::Launch));
    let attach = MojoExtension::dap_config_to_scenario(DebugConfig {
        label: s("attach"),
        adapter: s("mojo-lldb"),
        request: DebugRequest::Attach(AttachRequest { process_id: Some(42) }),
        stop_on_entry: None,
    })
    .unwrap();
    assert_eq!(MojoExtension::request_kind(&attach.config), Ok(DebugRequestKind::Attach));
    assert_eq!(attach.config.get("pid"), Some(&JsonValue::Number(JsonNumber::PosInt(42))));
    assert_eq!(attach.label, "attach");
}

#[test]
fn dialog_launch_builds_only_mojo_sources() {
    let source = MojoExtension::dap_config_to_scenario(launch_config("src/main.🔥")).unwrap();
    assert_eq!(MojoExtension::source_debug_file(&source.config), Ok(Some(s("src/main.🔥"))));
    assert!(source.config.get("program").is_none());
    let program = MojoExtension::dap_config_to_scenario(launch_config("/w/app")).unwrap();
    assert_eq!(MojoExtension::source_debug_file(&program.config), Ok(None));
    assert_eq!(program.config.get("program"), Some(&text("/w/app")));
    assert_eq!(program.config.get("args"), Some(&texts(&["--fast"])));
    assert_eq!(program.config.get("env"), Some(&object(vec![("A", text("1"))])));
    assert_eq!(program.config.get("stopOnEntry"), Some(&JsonValue::Bool(true)));
    assert_eq!(program.config.get("cwd"), Some(&text("/w/sub")));
    let empty = MojoExtension::dap_config_to_scenario(launch_config("")).unwrap();
    assert!(empty.config.get("program").is_none());
    assert!(empty.config.get("mojoFile").is_none());
}

#[test]
fn dialog_rejects_other_adapters() {
    let mut config = launch_config("main.mojo");
    config.adapter = s("gdb");
    assert_eq!(
        MojoExtension::dap_config_to_scenario(config).err(),
        Some(s("Mojo extension does not support debug adapter `gdb` (supported: `mojo-lldb`)"))
    );
}

#[test]
fn debugger_setup_keeps_request_and_source() {
    let spec = MojoExtension::debug_adapter_spec(s("/d"), None, None);
    let mut config = object(vec![("request", text("launch")), ("mojoFile", text("a.mojo"))]);
    MojoExtension::configure_mojo_debugger(&mut config, &spec).unwrap();
    assert_eq!(MojoExtension::request_kind(&config), Ok(DebugRequestKind::Launch));
    assert_eq!(MojoExtension::source_debug_file(&config), Ok(Some(s("a.mojo"))));
}

#[test]
fn built_configuration_points_at_binary() {
    let mut config = object(vec![
        ("request", text("launch")),
        ("mojoFile", text("a.mojo")),
        ("buildArgs", texts(&["-I", "lib"])),
        ("program", text("stale")),
        ("cwd", text("sub")),
    ]);
    MojoExtension::finish_source_debug(&mut config, s("/tmp/zed-mojo.x/a")).unwrap();
    assert_eq!(config.get("program"), Some(&text("/tmp/zed-mojo.x/a")));
    assert!(config.get("mojoFile").is_none());
    assert!(config.get("buildArgs").is_none());
    assert_eq!(config.get("cwd"), Some(&text("sub")));
    assert_eq!(MojoExtension::source_debug_file(&config), Ok(None));
    assert_eq!(MojoExtension::request_kind(&config), Ok(DebugRequestKind::Launch));
    let mut not_object = texts(&["a"]);
    assert_eq!(
        MojoExtension::finish_source_debug(&mut not_object, s("b")).err(),
        Some(s("Mojo debug configuration must be a JSON object"))
    );
}

#[test]
fn modular_home_reads_back_after_it_is_set() {
    let mut spec = CommandSpec {
        command: s("/lsp"),
        args: vec![],
        envs: pairs(&[("PATH", "/bin"), ("MODULAR_HOME", "/old"), ("MODULAR_HOME", "/older")]),
    };
    MojoExtension::set_modular_home(&mut spec, s("/tmp/zed-mojo.h"));
    assert_eq!(spec.envs, pairs(&[("PATH", "/bin"), ("MODULAR_HOME", "/tmp/zed-mojo.h"), ("MODULAR_HOME", "/older")]));
    assert_eq!(MojoExtension::env_value(&spec.envs, "MODULAR_HOME"), Some(s("/tmp/zed-mojo.h")));
    let mut bare = CommandSpec { command: s("/lsp"), args: vec![], envs: pairs(&[("PATH", "/bin")]) };
    MojoExtension::set_modular_home(&mut bare, s("/h"));
    assert_eq!(bare.envs, pairs(&[("PATH", "/bin"), ("MODULAR_HOME", "/h")]));
}

#[test]
fn discovery_prefers_pixi_then_venv_then_path() {
    let which = [
        ("/w/.pixi/envs/default/bin/mojo", Some("/w/.pixi/envs/default/bin/mojo")),
        ("/w/.venv/bin/mojo", Some("/w/.venv/bin/mojo")),
        ("mojo", Some("/usr/local/bin/mojo")),
    ];
    let pixi = worktree(&[("pixi.toml", "")], &which, &[("PATH", "/usr/bin")]);
    let found = MojoExtension::find_command(&pixi, "mojo").unwrap();
    assert_eq!(found.command, "/w/.pixi/envs/default/bin/mojo");
    assert_eq!(
        found.envs,
        pairs(&[
            ("MODULAR_HOME", "/w/.pixi/envs/default/share/max"),
            ("CONDA_PREFIX", "/w/.pixi/envs/default"),
            ("PATH", "/w/.pixi/envs/default/bin:/usr/bin"),
        ])
    );
    let venv = worktree(&[(".venv/pyvenv.cfg", "home = /usr\nversion = 3.12.4\n")], &which, &[]);
    let found = MojoExtension::find_command(&venv, "mojo").unwrap();
    assert_eq!(found.command, "/w/.venv/bin/mojo");
    assert_eq!(
        found.envs,
        pairs(&[
            ("MODULAR_MOJO_MAX_LLDB_PLUGIN_PATH", "/w/.venv/lib/python3.12/site-packages/modular/lib/libMojoLLDB.so"),
            ("MODULAR_MOJO_MAX_LLDB_VISUALIZERS_PATH", "/w/.venv/lib/python3.12/site-packages/modular/lib/lldb-visualizers"),
        ])
    );
    let path = worktree(&[], &which[2..], &[]);
    let found = MojoExtension::find_command(&path, "mojo").unwrap();
    assert_eq!(found.command, "/usr/local/bin/mojo");
    assert!(found.envs.is_empty() && found.args.is_empty());
    assert!(MojoExtension::find_command(&worktree(&[], &[], &[]), "mojo").is_none());
}

// Worktree facts and discovery.

#[test]
fn pixi_projects_are_recognised() {
    assert!(MojoExtension::is_pixi_project(&worktree(&[("pixi.toml", "[workspace]")], &[], &[])));
    assert!(MojoExtension::is_pixi_project(&worktree(&[("pyproject.toml", "[project]\n  [tool.pixi.workspace]\n")], &[], &[])));
    assert!(!MojoExtension::is_pixi_project(&worktree(&[("pyproject.toml", "# [tool.pixi]\n")], &[], &[])));
    assert!(!MojoExtension::is_pixi_project(&worktree(&[], &[], &[])));
    assert!(MojoExtension::pyproject_declares_pixi("x = 1\n[tool.pixi.dependencies]"));
    assert!(!MojoExtension::pyproject_declares_pixi("[tool.uv]\n"));
}

#[test]
fn platform_paths_follow_the_os() {
    assert_eq!(MojoExtension::platform_bin_dir(Os::Windows), "Scripts");
    assert_eq!(MojoExtension::platform_bin_dir(Os::Mac), "bin");
    assert_eq!(MojoExtension::library_extension(Os::Mac), "dylib");
    assert_eq!(MojoExtension::library_extension(Os::Linux), "so");
    assert_eq!(MojoExtension::path_separator(Os::Windows), ";");
    assert_eq!(MojoExtension::path_separator(Os::Linux), ":");
    assert_eq!(MojoExtension::environment_binary(Os::Windows, "C:\\env\\", "mojo"), "C:\\env\\Scripts/mojo.exe");
    assert_eq!(MojoExtension::environment_binary(Os::Linux, "/env", "mojo"), "/env/bin/mojo");
    assert_eq!(MojoExtension::environment_root("/w", ".venv"), "/w/.venv");
    assert_eq!(MojoExtension::environment_root("/w", "/opt/env"), "/opt/env");
}

#[test]
fn worktree_paths_resolve_against_the_root() {
    let w = worktree(&[], &[], &[]);
    assert_eq!(MojoExtension::resolve_worktree_path(&w, "/abs/std"), "/abs/std");
    assert_eq!(MojoExtension::resolve_worktree_path(&w, "//lib/std//"), "//lib/std//");
    assert_eq!(MojoExtension::resolve_worktree_path(&w, "lib/std/"), "/w/lib/std");
}

#[test]
fn pixi_environment_names_the_debug_plugin() {
    let cfg = "[mojo-max]\nlldb_plugin_path = /sdk/libMojoLLDB.so\nlldb_visualizers_path = \"/sdk/vis\"\n";
    let w = worktree(
        &[("pixi.toml", ""), (".pixi/envs/default/share/max/modular.cfg", cfg)],
        &[
            ("/sdk/libMojoLLDB.so", Some("/sdk/libMojoLLDB.so")),
            ("/sdk/vis/lldbDataFormatters.py", Some("/sdk/vis/lldbDataFormatters.py")),
            ("/w/.pixi/envs/default/bin/mojo-lldb-dap", Some("/w/.pixi/envs/default/bin/mojo-lldb-dap")),
            ("/w/.pixi/envs/default/bin/lldb-dap", Some("/w/.pixi/envs/default/bin/lldb-dap")),
        ],
        &[],
    );
    let env = MojoExtension::pixi_sdk_env(&w);
    assert_eq!(
        env,
        pairs(&[
            ("MODULAR_HOME", "/w/.pixi/envs/default/share/max"),
            ("CONDA_PREFIX", "/w/.pixi/envs/default"),
            ("PATH", "/w/.pixi/envs/default/bin"),
            ("MODULAR_MOJO_MAX_LLDB_PLUGIN_PATH", "/sdk/libMojoLLDB.so"),
            ("MODULAR_MOJO_MAX_LLDB_VISUALIZERS_PATH", "/sdk/vis"),
        ])
    );
    let adapter = MojoExtension::pixi_debug_adapter(&w).unwrap();
    assert_eq!(adapter.command, "/w/.pixi/envs/default/bin/mojo-lldb-dap");
    assert_eq!(adapter.plugin_path, Some(s("/sdk/libMojoLLDB.so")));
    assert_eq!(adapter.visualizers_path, Some(s("/sdk/vis")));
    assert_eq!(adapter.envs, env);
    assert_eq!(MojoExtension::find_debug_adapter(&w), Some(adapter));
}

#[test]
fn pixi_debug_paths_fall_back_to_the_sdk_layout() {
    let w = worktree(
        &[("pixi.toml", "")],
        &[
            ("/w/.pixi/envs/default/lib/libMojoLLDB.so", Some("/w/.pixi/envs/default/lib/libMojoLLDB.so")),
            (
                "/w/.pixi/envs/default/lib/lldb-visualizers/lldbDataFormatters.py",
                Some("/w/.pixi/envs/default/lib/lldb-visualizers/lldbDataFormatters.py"),
            ),
        ],
        &[],
    );
    assert_eq!(
        MojoExtension::derived_pixi_debug_paths(&w),
        (Some(s("/w/.pixi/envs/default/lib/libMojoLLDB.so")), Some(s("/w/.pixi/envs/default/lib/lldb-visualizers")))
    );
    assert!(MojoExtension::pixi_debug_adapter(&w).is_none());
}

#[test]
fn debug_adapter_comes_from_venv_path_or_legacy_wrapper() {
    let venv = worktree(
        &[(".venv/pyvenv.cfg", "version=3.11\n")],
        &[("/w/.venv/bin/lldb-dap", Some("/w/.venv/bin/lldb-dap"))],
        &[],
    );
    let adapter = MojoExtension::venv_debug_adapter(&venv).unwrap();
    assert_eq!(adapter.command, "/w/.venv/bin/lldb-dap");
    assert_eq!(
        adapter.plugin_path,
        Some(s("/w/.venv/lib/python3.11/site-packages/modular/lib/libMojoLLDB.so"))
    );
    let path = worktree(
        &[],
        &[("mojo", Some("/opt/mojo/bin/mojo")), ("/opt/mojo/bin/lldb-dap", Some("/opt/mojo/bin/lldb-dap"))],
        &[("MODULAR_MOJO_MAX_LLDB_PLUGIN_PATH", "/opt/mojo/lib/libMojoLLDB.so")],
    );
    let adapter = MojoExtension::find_debug_adapter(&path).unwrap();
    assert_eq!(adapter.command, "/opt/mojo/bin/lldb-dap");
    assert_eq!(adapter.envs, pairs(&[("MODULAR_MOJO_MAX_LLDB_PLUGIN_PATH", "/opt/mojo/lib/libMojoLLDB.so")]));
    let no_plugin = worktree(
        &[],
        &[
            ("mojo", Some("/opt/mojo/bin/mojo")),
            ("/opt/mojo/bin/lldb-dap", Some("/opt/mojo/bin/lldb-dap")),
            ("mojo-lldb-dap", Some("/usr/bin/mojo-lldb-dap")),
        ],
        &[],
    );
    let adapter = MojoExtension::find_debug_adapter(&no_plugin).unwrap();
    assert_eq!(adapter.command, "/usr/bin/mojo-lldb-dap");
    assert!(adapter.envs.is_empty() && adapter.plugin_path.is_none());
    assert!(MojoExtension::find_debug_adapter(&worktree(&[], &[], &[])).is_none());
}

#[test]
fn discovery_lists_the_lookups_it_needs() {
    let w = worktree(&[], &[("mojo", Some("/opt/bin/mojo"))], &[]);
    let queries = MojoExtension::discovery_queries(&w);
    assert_eq!(
        queries,
        strings(&[
            "/w/.pixi/envs/default/bin/mojo-lsp-server",
            "/w/.venv/bin/mojo-lsp-server",
            "/w/.pixi/envs/default/bin/mojo",
            "/w/.venv/bin/mojo",
            "/w/.pixi/envs/default/bin/mojo-lldb-dap",
            "/w/.venv/bin/mojo-lldb-dap",
            "/w/.pixi/envs/default/bin/lldb-dap",
            "/w/.venv/bin/lldb-dap",
            "mojo-lsp-server",
            "mojo",
            "mojo-lldb-dap",
            "/w/.pixi/envs/default/lib/libMojoLLDB.so",
            "/w/.pixi/envs/default/lib/lldb-visualizers/lldbDataFormatters.py",
            "/opt/bin/lldb-dap",
        ])
    );
}

#[test]
fn python_version_takes_major_and_minor() {
    assert_eq!(MojoExtension::pyvenv_python_version("home = /usr/bin\nversion = 3.12.4\n"), Some(s("3.12")));
    assert_eq!(MojoExtension::pyvenv_python_version("version = 3\nversion = 3.10\n"), Some(s("3.10")));
    assert_eq!(MojoExtension::pyvenv_python_version("version_info = 3.9.1\n"), None);
    let w = worktree(&[(".venv/pyvenv.cfg", "version = 3.13.0")], &[], &[]);
    assert_eq!(MojoExtension::python_version(&w), Some(s("3.13")));
    assert!(MojoExtension::venv_sdk_env(&worktree(&[], &[], &[])).is_empty());
}

#[test]
fn config_values_skip_comments_and_other_sections() {
    let cfg = "; note\n[mojo-max]\n# x = 1\nbare line\n x = ' quoted ' \n[ other ]\nx = 2\n";
    assert_eq!(MojoExtension::config_value(cfg, "mojo-max", "x"), Some(s(" quoted ")));
    assert_eq!(MojoExtension::config_value(cfg, "other", "x"), Some(s("2")));
    assert_eq!(MojoExtension::config_value(cfg, "mojo-max", "y"), None);
}

#[test]
fn shell_and_environment_values_take_the_first_match() {
    let w = worktree(&[], &[], &[("A", "1"), ("A", "2")]);
    assert_eq!(MojoExtension::shell_env_value(&w, "A"), Some(s("1")));
    assert_eq!(MojoExtension::shell_env_value(&w, "B"), None);
    assert_eq!(MojoExtension::env_value(&pairs(&[("K", "v")]), "K"), Some(s("v")));
    assert!(MojoExtension::has_project_file(&worktree(&[("x", "")], &[], &[]), "x"));
    assert_eq!(MojoExtension::which(&w, "anything"), None);
    assert_eq!(MojoExtension::bin_dir("/opt/mojo/bin/mojo"), "/opt/mojo/bin");
    assert_eq!(MojoExtension::bin_dir("C:\\mojo\\mojo.exe"), "C:\\mojo");
    assert_eq!(MojoExtension::bin_dir("mojo"), "");
}

// Task arguments.

#[test]
fn task_arguments_are_read_as_sources_and_names() {
    assert_eq!(MojoExtension::command_name("/opt/bin/mojo.exe"), "mojo");
    assert_eq!(MojoExtension::command_name("C:\\tools\\pixi"), "pixi");
    assert_eq!(MojoExtension::task_source_argument("\"main.mojo\""), Some(s("main.mojo")));
    assert_eq!(MojoExtension::task_source_argument("${ZED_FILE}"), Some(s("${ZED_FILE}")));
    assert_eq!(MojoExtension::task_source_argument("main.py"), None);
    assert!(MojoExtension::is_zed_file_variable("\"\"$ZED_RELATIVE_FILE\""));
    assert!(!MojoExtension::is_zed_file_variable("$ZED_DIRNAME"));
    let t = TaskTemplate { label: s("r"), command: s("uv"), args: strings(&["run", "--frozen", "mojo", "run", "x"]), env: vec![], cwd: None };
    assert_eq!(MojoExtension::task_mojo_run_args(&t), Some(&t.args[4..]));
    let quoted = TaskTemplate { args: strings(&["run", "\"a b.mojo\""]), command: s("mojo"), ..t.clone() };
    assert_eq!(MojoExtension::task_mojo_run(&quoted).unwrap().source, "a b.mojo");
}

// Debug configurations.

#[test]
fn quoting_escapes_for_lldb_and_python() {
    assert_eq!(MojoExtension::quoted_lldb_path("C:\\x'y"), "C:\\\\x\\'y");
    assert_eq!(MojoExtension::quoted_python_string("/a\"b\\c"), "\"/a\\\"b\\\\c\"");
    assert_eq!(MojoExtension::quoted_python_string("tab\there\u{1}"), "\"tab\\there\\u0001\"");
}

#[test]
fn debugger_commands_and_defaults() {
    let spec = MojoExtension::debug_adapter_spec(s("/d"), Some(s("/p/it's.so")), Some(s("/v")));
    assert_eq!(
        spec.envs,
        pairs(&[("MODULAR_MOJO_MAX_LLDB_PLUGIN_PATH", "/p/it's.so"), ("MODULAR_MOJO_MAX_LLDB_VISUALIZERS_PATH", "/v")])
    );
    let mut config = object(vec![("enableSyntheticChildDebugging", JsonValue::Bool(false))]);
    MojoExtension::configure_mojo_debugger(&mut config, &spec).unwrap();
    assert_eq!(config.get("enableSyntheticChildDebugging"), Some(&JsonValue::Bool(false)));
    assert_eq!(config.get("enableAutoVariableSummaries"), Some(&JsonValue::Bool(true)));
    assert_eq!(
        config.get("initCommands"),
        Some(&texts(&[
            "?!plugin load '/p/it\\'s.so'",
            "?settings set target.show-hex-variable-values-with-leading-zeroes false",
            "?settings set target.process.optimization-warnings false",
            "?script import glob, lldb; [lldb.debugger.HandleCommand('command script import ' + repr(file)) for file in glob.glob(\"/v\" + '/*')]",
        ]))
    );
}

#[test]
fn debugger_setup_rejects_bad_configurations() {
    let spec = MojoExtension::debug_adapter_spec(s("/d"), None, None);
    let mut not_object = text("x");
    assert_eq!(
        MojoExtension::configure_mojo_debugger(&mut not_object, &spec),
        Err(s("Mojo debug configuration must be a JSON object"))
    );
    let mut bad = object(vec![("initCommands", text("x"))]);
    assert_eq!(
        MojoExtension::configure_mojo_debugger(&mut bad, &spec),
        Err(s("Mojo debug `initCommands` must be an array of strings"))
    );
}

#[test]
fn configuration_errors_name_the_member() {
    assert_eq!(
        MojoExtension::build_arguments(&object(vec![("buildArgs", JsonValue::Bool(true))])),
        Err(s("Mojo `buildArgs` must be a string or array of strings"))
    );
    assert_eq!(
        MojoExtension::build_arguments(&object(vec![("buildArgs", JsonValue::Array(vec![JsonValue::Null]))])),
        Err(s("Every Mojo `buildArgs` entry must be a string"))
    );
    assert_eq!(MojoExtension::build_arguments(&object(vec![])), Ok(vec![]));
    assert_eq!(
        MojoExtension::config_environment(&object(vec![("env", text("A=1"))])),
        Err(s("Mojo debug `env` must be an object of string values"))
    );
    assert_eq!(
        MojoExtension::config_environment(&object(vec![("env", object(vec![("A", JsonValue::Null)]))])),
        Err(s("Every Mojo debug `env` value must be a string"))
    );
    assert_eq!(
        MojoExtension::request_kind(&object(vec![])),
        Err(s("Invalid request: expected `request` to be `launch` or `attach`"))
    );
}

#[test]
fn build_directory_resolves_against_the_root() {
    assert_eq!(MojoExtension::build_cwd("/w", &object(vec![])), Ok(s("/w")));
    assert_eq!(MojoExtension::build_cwd("/w", &object(vec![("cwd", text(""))])), Ok(s("/w")));
    assert_eq!(MojoExtension::build_cwd("/w", &object(vec![("cwd", text("/abs"))])), Ok(s("/abs")));
    assert_eq!(MojoExtension::build_cwd("/w", &object(vec![("cwd", text("sub"))])), Ok(s("/w/sub")));
    assert_eq!(
        MojoExtension::build_cwd("/w", &object(vec![("cwd", JsonValue::Null)])),
        Err(s("Mojo debug `cwd` must be a string"))
    );
}

#[test]
fn only_this_extensions_server_and_adapter_are_served() {
    assert_eq!(MojoExtension::validate_language_server("mojo-lsp-server"), Ok(()));
    assert_eq!(
        MojoExtension::validate_language_server("pyright"),
        Err(s("Mojo extension does not support language server `pyright`"))
    );
    assert_eq!(MojoExtension::validate_debug_adapter("mojo-lldb"), Ok(()));
    assert_eq!(
        MojoExtension::dap_request_kind(s("gdb"), object(vec![("request", text("launch"))])),
        Err(s("Mojo extension does not support debug adapter `gdb` (supported: `mojo-lldb`)"))
    );
    assert_eq!(
        MojoExtension::dap_request_kind(s("mojo-lldb"), object(vec![("request", text("attach"))])),
        Ok(DebugRequestKind::Attach)
    );
}

// Sessions.

#[test]
fn source_debug_file_checks_the_suffix() {
    assert_eq!(
        MojoExtension::source_debug_file(&object(vec![("mojoFile", text("main.py"))])),
        Err(s("`mojoFile` must point to a `.mojo` or `.🔥` source file"))
    );
    assert_eq!(MojoExtension::source_debug_file(&object(vec![("mojoFile", JsonValue::Null)])), Ok(None));
    assert_eq!(MojoExtension::source_debug_file(&texts(&[])), Ok(None));
}

#[test]
fn source_build_collects_compiler_directory_options_and_environment() {
    let missing = worktree(&[], &[], &[]);
    assert_eq!(
        MojoExtension::source_build_settings(&missing, &object(vec![])).err(),
        Some(s("The Mojo compiler was not found for source debugging; activate an SDK or configure a project Pixi/uv environment"))
    );
    let w = worktree(&[], &[("mojo", Some("/opt/bin/mojo"))], &[("HOME", "/home/u")]);
    assert_eq!(
        MojoExtension::source_build_settings(&w, &object(vec![("cwd", JsonValue::Bool(false))])).err(),
        Some(s("Mojo debug `cwd` must be a string"))
    );
    let config = object(vec![
        ("buildArgs", texts(&["-O3", "-I", "lib"])),
        ("env", object(vec![("A", text("1"))])),
        ("cwd", text("sub")),
    ]);
    let build = MojoExtension::source_build_settings(&w, &config).unwrap();
    assert_eq!(build.mojo.command, "/opt/bin/mojo");
    assert_eq!(build.cwd, "/w/sub");
    assert_eq!(build.build_args, strings(&["-I", "lib"]));
    assert_eq!(build.env, pairs(&[("A", "1")]));
    let command = MojoExtension::source_build_command(&w, &build, "main.mojo", "/tmp/zed-mojo.x/main");
    assert_eq!(command.command, "/bin/sh");
    assert_eq!(
        command.args,
        strings(&[
            "-c",
            "set -eu\ncd \"$1\"\nshift\nexec \"$@\"",
            "zed-mojo-build",
            "/w/sub",
            "/opt/bin/mojo",
            "build",
            "--no-optimization",
            "--debug-level",
            "full",
            "-I",
            "lib",
            "main.mojo",
            "-o",
            "/tmp/zed-mojo.x/main",
        ])
    );
    assert_eq!(command.envs, pairs(&[("HOME", "/home/u"), ("A", "1")]));
}

#[test]
fn adapters_over_tcp_build_nothing() {
    let w = worktree(&[], &[], &[]);
    let config = object(vec![("request", text("attach"))]);
    let binary = MojoExtension::tcp_adapter_binary(&w, config, DebugRequestKind::Attach).unwrap();
    assert!(binary.command.is_none() && binary.arguments.is_empty() && binary.envs.is_empty());
    assert_eq!(binary.cwd, Some(s("/w")));
    assert_eq!(binary.request, DebugRequestKind::Attach);
    assert_eq!(
        MojoExtension::tcp_adapter_binary(&w, object(vec![("mojoFile", text("a.mojo"))]), DebugRequestKind::Launch).err(),
        Some(s("`mojoFile` cannot be built for an external TCP adapter; build a `program` that is accessible to the adapter"))
    );
}

#[test]
fn adapter_selection_prefers_the_users_path() {
    let not_found = "A Mojo SDK debugger was not found. Activate a Mojo/MAX environment, use a root Pixi/.venv worktree, or configure a debug adapter path.";
    assert_eq!(MojoExtension::select_debug_adapter(None, None).err(), Some(s(not_found)));
    let user = MojoExtension::select_debug_adapter(None, Some(s("/my/dap"))).unwrap();
    assert_eq!(user, MojoExtension::debug_adapter_spec(s("/my/dap"), None, None));
    let found = MojoExtension::debug_adapter_spec(s("/sdk/dap"), Some(s("/p.so")), None);
    let chosen = MojoExtension::select_debug_adapter(Some(found), Some(s("/my/dap"))).unwrap();
    assert_eq!(chosen.command, "/my/dap");
    assert_eq!(chosen.plugin_path, Some(s("/p.so")));
    let w = worktree(&[], &[], &[]);
    assert_eq!(
        MojoExtension::local_adapter_binary(&w, object(vec![]), DebugRequestKind::Launch, None).err(),
        Some(s(not_found))
    );
}

#[test]
fn local_adapter_runs_in_variable_repl_mode() {
    let w = worktree(&[], &[("mojo-lldb-dap", Some("/usr/bin/mojo-lldb-dap"))], &[]);
    let config = object(vec![("request", text("launch")), ("program", text("/w/app"))]);
    let binary = MojoExtension::local_adapter_binary(&w, config, DebugRequestKind::Launch, None).unwrap();
    assert_eq!(binary.command, Some(s("/usr/bin/mojo-lldb-dap")));
    assert_eq!(binary.arguments, strings(&["--repl-mode", "variable"]));
    assert_eq!(binary.cwd, Some(s("/w")));
    assert_eq!(binary.configuration.get("commandEscapePrefix"), Some(&text(":")));
    assert_eq!(binary.configuration.get("program"), Some(&text("/w/app")));
    assert_eq!(
        MojoExtension::local_adapter_binary(&w, texts(&[]), DebugRequestKind::Launch, None).err(),
        Some(s("Mojo debug configuration must be a JSON object"))
    );
}

#[test]
fn language_server_comes_from_the_sdk() {
    let w = worktree(&[], &[("mojo-lsp-server", Some("/opt/bin/mojo-lsp-server"))], &[]);
    assert_eq!(MojoExtension::language_server_spec(&w, "mojo-lsp-server").unwrap().command, "/opt/bin/mojo-lsp-server");
    assert_eq!(
        MojoExtension::language_server_spec(&w, "other").err(),
        Some(s("Mojo extension does not support language server `other`"))
    );
    assert_eq!(
        MojoExtension::language_server_spec(&worktree(&[], &[], &[]), "mojo-lsp-server").err(),
        Some(s("`mojo-lsp-server` was not found. Install Mojo/MAX and activate it on PATH, use a root Pixi/uv worktree, or configure `lsp.mojo-lsp-server.binary.path`."))
    );
}

#[test]
fn stdlib_source_needs_a_setting_and_a_home() {
    let settings = object(vec![("stdlib_source", text("std/src"))]);
    assert_eq!(MojoExtension::stdlib_source_setting(Some(&settings)), Some(s("std/src")));
    assert_eq!(MojoExtension::stdlib_source_setting(Some(&object(vec![("stdlib_source", text(""))]))), None);
    assert_eq!(MojoExtension::stdlib_source_setting(None), None);
    let spec = CommandSpec { command: s("/lsp"), args: vec![], envs: pairs(&[("MODULAR_HOME", "/sdk/share/max")]) };
    let w = worktree(&[], &[], &[("MODULAR_HOME", "/shell/home")]);
    assert_eq!(MojoExtension::stdlib_home(&w, &spec), Ok(s("/sdk/share/max")));
    let bare = CommandSpec { command: s("/lsp"), args: vec![], envs: vec![] };
    assert_eq!(MojoExtension::stdlib_home(&w, &bare), Ok(s("/shell/home")));
    assert_eq!(
        MojoExtension::stdlib_home(&worktree(&[], &[], &[]), &bare),
        Err(s("stdlib_source needs a detected SDK home (MODULAR_HOME); use a root Pixi project or activate the SDK environment"))
    );
    assert_eq!(MojoExtension::stdlib_error("std", "boom"), "stdlib_source `std`: boom");
    let command = MojoExtension::stdlib_home_command("/tmp/zed-mojo.h", "/sdk/share/max", "/w/std");
    assert_eq!(command.command, "/bin/sh");
    assert_eq!(&command.args[2..], &strings(&["zed-mojo-stdlib-home", "/tmp/zed-mojo.h", "/sdk/share/max/modular.cfg", "/w/std"])[..]);
}

// Processes.

#[test]
fn process_results_report_status_and_output() {
    assert_eq!(MojoExtension::status_text(Some(-3)), "Some(-3)");
    assert_eq!(MojoExtension::status_text(Some(127)), "Some(127)");
    assert_eq!(MojoExtension::status_text(Some(i32::MIN)), "Some(-2147483648)");
    assert_eq!(MojoExtension::status_text(None), "None");
    assert_eq!(MojoExtension::process_result("p", Some(0), "", "x"), Ok(()));
    assert_eq!(
        MojoExtension::process_result("building", Some(1), " out ", "  err \n"),
        Err(s("building failed with status Some(1): err"))
    );
    assert_eq!(
        MojoExtension::process_result("building", None, " out ", ""),
        Err(s("building failed with status None: out"))
    );
}

#[test]
fn temporary_directories_are_checked() {
    let command = MojoExtension::temp_directory_command();
    assert_eq!(command.command, "/usr/bin/mktemp");
    assert_eq!(command.args, strings(&["-d", "/tmp/zed-mojo.XXXXXXXXXX"]));
    assert_eq!(
        MojoExtension::checked_temp_directory("x", Some(0), "/tmp/zed-mojo.abc\n", ""),
        Ok(s("/tmp/zed-mojo.abc"))
    );
    assert_eq!(
        MojoExtension::checked_temp_directory("x", Some(0), "/var/tmp/y", ""),
        Err(s("`mktemp` returned an unexpected directory for x"))
    );
    assert_eq!(
        MojoExtension::checked_temp_directory("x", Some(0), "/tmp/zed-mojo.a\nb", ""),
        Err(s("`mktemp` returned an unexpected directory for x"))
    );
    assert_eq!(
        MojoExtension::checked_temp_directory("x", Some(2), "", " boom "),
        Err(s("creating a temporary directory for x failed with status Some(2): boom"))
    );
}

#[test]
fn debug_binaries_are_named_after_the_source() {
    assert_eq!(MojoExtension::debug_binary_stem("src/main.🔥"), "main");
    assert_eq!(MojoExtension::debug_binary_stem("C:\\x\\tool.mojo"), "tool");
    assert_eq!(MojoExtension::debug_binary_stem("dir/.mojo"), "program");
    assert_eq!(MojoExtension::debug_binary_file("/tmp/zed-mojo.a", "app.mojo"), "/tmp/zed-mojo.a/app");
    assert!(MojoExtension::codesign_command(Os::Linux, "/b").is_none());
    let sign = MojoExtension::codesign_command(Os::Mac, "/b").unwrap();
    assert_eq!(sign.command, "/bin/sh");
    assert_eq!(sign.args[2..], strings(&["zed-mojo-codesign", "/b"])[..]);
}

#[test]
fn json_objects_keep_one_member_per_key() {
    let mut members = vec![(s("a"), text("1"))];
    zed_mojo::json::object_insert(&mut members, s("a"), text("2"));
    zed_mojo::json::object_insert(&mut members, s("b"), text("3"));
    assert_eq!(members.len(), 2);
    assert_eq!(zed_mojo::json::find_member(&members, "a"), Some(0));
    assert_eq!(zed_mojo::json::object_remove(&mut members, "a"), Some(text("2")));
    assert_eq!(zed_mojo::json::object_remove(&mut members, "a"), None);
    assert_eq!(JsonValue::Object(members).get("b").and_then(|v| v.as_str()), Some("3"));
    assert!(object(vec![("a", text("1")), ("b", text("1"))]).has_unique_keys());
    assert!(!object(vec![("a", text("1")), ("a", text("2"))]).has_unique_keys());
    assert!(texts(&["a", "a"]).has_unique_keys());
    let env = MojoExtension::env_object(&pairs(&[("K", "1"), ("K", "2")]));
    assert_eq!(env, vec![(s("K"), text("2"))]);
}

#[test]
fn discovery_reads_the_project_files() {
    assert_eq!(
        MojoExtension::project_files(),
        strings(&["pixi.toml", "pyproject.toml", ".pixi/envs/default/share/max/modular.cfg", ".venv/pyvenv.cfg"])
    );
}

#[test]
fn discovery_depends_only_on_listed_lookups() {
    let answers = [
        ("/w/.pixi/envs/default/bin/mojo-lsp-server", Some("/w/.pixi/envs/default/bin/mojo-lsp-server")),
        ("mojo-lldb-dap", Some("/usr/bin/mojo-lldb-dap")),
    ];
    let listed = worktree(&[("pixi.toml", "")], &answers, &[]);
    let mut extra = worktree(&[("pixi.toml", "")], &answers, &[]);
    extra.which.push((s("/elsewhere/lldb-dap"), Some(s("/elsewhere/lldb-dap"))));
    assert!(MojoExtension::discovery_queries(&extra).iter().all(|q| q != "/elsewhere/lldb-dap"));
    assert_eq!(
        MojoExtension::find_command(&listed, "mojo-lsp-server"),
        MojoExtension::find_command(&extra, "mojo-lsp-server")
    );
    assert_eq!(MojoExtension::find_debug_adapter(&listed), MojoExtension::find_debug_adapter(&extra));
}

#[test]
fn debug_task_checks_adapter_then_parse_then_request() {
    let launch = object(vec![("request", text("launch"))]);
    assert_eq!(
        MojoExtension::debug_task_request("gdb", Err(s("expected value"))),
        Err(s("Mojo extension does not support debug adapter `gdb` (supported: `mojo-lldb`)"))
    );
    assert_eq!(
        MojoExtension::debug_task_request("mojo-lldb", Err(s("expected value at line 1 column 1"))),
        Err(s("Invalid Mojo debug configuration: expected value at line 1 column 1"))
    );
    assert_eq!(
        MojoExtension::debug_task_request("mojo-lldb", Ok(object(vec![]))),
        Err(s("Invalid request: expected `request` to be `launch` or `attach`"))
    );
    assert_eq!(
        MojoExtension::debug_task_request("mojo-lldb", Ok(launch)),
        Ok((object(vec![("request", text("launch"))]), DebugRequestKind::Launch))
    );
}

#[test]
fn nested_objects_are_checked_for_repeated_keys() {
    let nested = object(vec![("env", object(vec![("A", text("1")), ("A", text("2"))]))]);
    assert!(!nested.has_unique_keys());
    let listed = JsonValue::Array(vec![object(vec![("k", text("1")), ("k", text("2"))])]);
    assert!(!listed.has_unique_keys());
    let fine = object(vec![("env", object(vec![("A", text("1")), ("B", text("2"))])), ("args", texts(&["x"]))]);
    assert!(fine.has_unique_keys());
}

#[test]
fn lldb_paths_grow_by_one_per_escaped_character() {
    let path = "C:\\a'b\\c.so";
    let quoted = MojoExtension::quoted_lldb_path(path);
    assert_eq!(quoted, "C:\\\\a\\'b\\\\c.so");
    assert_eq!(quoted.chars().count(), path.chars().count() + 3);
}
