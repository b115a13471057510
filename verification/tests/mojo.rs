use zed_mojo::args::{MojoRunTask, TaskTemplate};
use zed_mojo::debug::DebugRequestKind;
use zed_mojo::json::{JsonNumber, JsonValue};
use zed_mojo::MojoExtension;

fn s(text: &str) -> String {
    text.to_string()
}

fn text(value: &str) -> JsonValue {
    JsonValue::Str(s(value))
}

fn texts(values: &[&str]) -> JsonValue {
    JsonValue::Array(values.iter().map(|v| text(v)).collect())
}

fn object(members: Vec<(&str, JsonValue)>) -> JsonValue {
    JsonValue::Object(members.into_iter().map(|(k, v)| (s(k), v)).collect())
}

fn member<'a>(value: &'a JsonValue, key: &str) -> &'a JsonValue {
    value.get(key).unwrap()
}

#[test]
fn parses_launch_and_attach_requests() {
    assert_eq!(
        MojoExtension::request_kind(&object(vec![("request", text("launch"))])),
        Ok(DebugRequestKind::Launch)
    );
    assert_eq!(
        MojoExtension::request_kind(&object(vec![("request", text("attach"))])),
        Ok(DebugRequestKind::Attach)
    );
}

#[test]
fn rejects_missing_or_unknown_requests() {
    assert!(MojoExtension::request_kind(&object(vec![])).is_err());
    assert!(MojoExtension::request_kind(&object(vec![("request", text("restart"))])).is_err());
    assert!(MojoExtension::request_kind(&object(vec![(
        "request",
        JsonValue::Number(JsonNumber::PosInt(1))
    )]))
    .is_err());
}

#[test]
fn parses_modular_config_values() {
    let config = r#"
            [max]
            version = 1.0

            [mojo-max]
            lldb_vscode_path = "/sdk/bin/lldb-dap"
            lldb_plugin_path='/sdk/lib/libMojoLLDB.so'
        "#;
    assert_eq!(
        MojoExtension::config_value(config, "mojo-max", "lldb_vscode_path"),
        Some("/sdk/bin/lldb-dap".into())
    );
    assert_eq!(
        MojoExtension::config_value(config, "mojo-max", "lldb_plugin_path"),
        Some("/sdk/lib/libMojoLLDB.so".into())
    );
    assert_eq!(
        MojoExtension::config_value(config, "max", "lldb_plugin_path"),
        None
    );
}

#[test]
fn validates_build_arguments() {
    assert_eq!(
        MojoExtension::build_arguments(&object(vec![("buildArgs", text("-Ilib"))])),
        Ok(vec!["-Ilib".into()])
    );
    assert_eq!(
        MojoExtension::build_arguments(&object(vec![("buildArgs", texts(&["-I", "lib"]))])),
        Ok(vec!["-I".into(), "lib".into()])
    );
    assert_eq!(
        MojoExtension::build_arguments(&object(vec![(
            "buildArgs",
            texts(&[
                "-O",
                "1",
                "-O3",
                "--optimization-level",
                "2",
                "--optimization-level=1",
                "--no-optimization",
                "-g",
                "-g0",
                "--debug-level",
                "line-tables",
                "--debug-level=none",
                "-optimization-level=3",
                "-debug-level",
                "none",
                "-no-optimization",
                "-I",
                "lib",
            ])
        )])),
        Ok(vec!["-I".into(), "lib".into()])
    );
    assert!(MojoExtension::build_arguments(&object(vec![(
        "buildArgs",
        JsonValue::Array(vec![JsonValue::Number(JsonNumber::PosInt(1))])
    )]))
    .is_err());
}

#[test]
fn validates_debug_environment() {
    assert_eq!(
        MojoExtension::config_environment(&object(vec![(
            "env",
            object(vec![("MOJO_ENABLE_ASSERTIONS", text("1"))])
        )])),
        Ok(vec![("MOJO_ENABLE_ASSERTIONS".into(), "1".into())])
    );
    assert!(
        MojoExtension::config_environment(&object(vec![("env", JsonValue::Array(vec![]))])).is_err()
    );
    assert!(MojoExtension::config_environment(&object(vec![(
        "env",
        object(vec![("KEY", JsonValue::Number(JsonNumber::PosInt(1)))])
    )]))
    .is_err());
}

#[test]
fn configures_plugin_before_user_commands() {
    let spec = MojoExtension::debug_adapter_spec(
        "/sdk/bin/lldb-dap".into(),
        Some("/sdk/lib/libMojoLLDB.so".into()),
        Some("/sdk/lib/lldb-visualizers".into()),
    );
    let mut config = object(vec![
        ("request", text("launch")),
        ("program", text("/tmp/program")),
        ("initCommands", texts(&["settings set stop-disassembly-count 0"])),
    ]);
    MojoExtension::configure_mojo_debugger(&mut config, &spec).unwrap();

    let commands = match member(&config, "initCommands") {
        JsonValue::Array(items) => items,
        other => panic!("initCommands is not an array: {:?}", other),
    };
    assert!(commands[0].as_str().unwrap().contains("plugin load"));
    assert_eq!(
        commands.last().and_then(|c| c.as_str()),
        Some("settings set stop-disassembly-count 0")
    );
    assert_eq!(member(&config, "commandEscapePrefix"), &text(":"));
    assert_eq!(member(&config, "enableSyntheticChildDebugging"), &JsonValue::Bool(true));
}

#[test]
fn recognizes_current_mojo_source_suffixes() {
    assert!(MojoExtension::is_mojo_source("main.mojo"));
    assert!(MojoExtension::is_mojo_source("main.🔥"));
    assert!(!MojoExtension::is_mojo_source("main"));
}

fn task(command: &str, args: &[&str]) -> TaskTemplate {
    TaskTemplate {
        label: "run".into(),
        command: command.into(),
        args: args.iter().map(|arg| (*arg).into()).collect(),
        env: Vec::new(),
        cwd: None,
    }
}

#[test]
fn extracts_mojo_run_tasks_for_debugging() {
    assert_eq!(
        MojoExtension::task_mojo_run(&task("mojo", &["run", "main.mojo"])),
        Some(MojoRunTask {
            source: "main.mojo".into(),
            build_args: Vec::new(),
            program_args: Vec::new(),
        })
    );
    assert_eq!(
        MojoExtension::task_mojo_run(&task(
            "pixi",
            &[
                "run",
                "--frozen",
                "--no-progress",
                "--executable",
                "mojo",
                "run",
                "-O3",
                "--debug-level",
                "none",
                "-I",
                "/project/package",
                "$ZED_RELATIVE_FILE",
                "--only",
                "selected_test",
            ],
        )),
        Some(MojoRunTask {
            source: "$ZED_RELATIVE_FILE".into(),
            build_args: vec!["-I".into(), "/project/package".into()],
            program_args: vec!["--only".into(), "selected_test".into()],
        })
    );
    assert_eq!(
        MojoExtension::task_mojo_run(&task(
            "/usr/local/bin/uv",
            &["run", "--frozen", "mojo", "run", "-Ilib", "main.🔥", "first", "--flag"],
        )),
        Some(MojoRunTask {
            source: "main.🔥".into(),
            build_args: vec!["-Ilib".into()],
            program_args: vec!["first".into(), "--flag".into()],
        })
    );
    assert_eq!(
        MojoExtension::task_mojo_run(&task(
            "/opt/mojo/bin/mojo.exe",
            &["run", "-I", "looks-like.mojo", "$ZED_FILE"],
        )),
        Some(MojoRunTask {
            source: "$ZED_FILE".into(),
            build_args: vec!["-I".into(), "looks-like.mojo".into()],
            program_args: Vec::new(),
        })
    );
    assert!(MojoExtension::task_mojo_run(&task("python", &["mojo", "run", "main.mojo"])).is_none());
    assert!(MojoExtension::task_mojo_run(&task(
        "pixi",
        &[
            "run",
            "--manifest-path",
            "/project/pixi.toml",
            "--frozen",
            "--no-progress",
            "--executable",
            "mojo",
            "run",
            "main.mojo",
        ],
    ))
    .is_none());
    assert!(MojoExtension::task_mojo_run(&task(
        "uv",
        &["run", "--frozen", "--project", "/project", "mojo", "run", "main.mojo"],
    ))
    .is_none());
    assert!(MojoExtension::task_mojo_run(&task("mojo", &["run", "--help"])).is_none());
}

#[test]
fn locator_preserves_compiler_and_program_arguments() {
    let scenario = MojoExtension::dap_locator_create_scenario(
        "mojo-source".into(),
        TaskTemplate {
            label: "run".into(),
            command: "pixi".into(),
            args: [
                "run",
                "--frozen",
                "--no-progress",
                "--executable",
                "mojo",
                "run",
                "-I",
                "/project/package",
                "$ZED_FILE",
                "--mode",
                "fast",
            ]
            .into_iter()
            .map(str::to_string)
            .collect(),
            env: vec![("EXAMPLE".into(), "value".into())],
            cwd: Some("$ZED_WORKTREE_ROOT".into()),
        },
        "debug".into(),
        "mojo-lldb".into(),
    )
    .unwrap();
    let config = &scenario.config;
    assert_eq!(member(config, "mojoFile"), &text("$ZED_FILE"));
    assert_eq!(member(config, "buildArgs"), &texts(&["-I", "/project/package"]));
    assert_eq!(member(config, "args"), &texts(&["--mode", "fast"]));
    assert_eq!(member(config, "cwd"), &text("$ZED_WORKTREE_ROOT"));
    assert_eq!(member(member(config, "env"), "EXAMPLE"), &text("value"));
}
