use zed_mojo::debug::DebugRequestKind;
use zed_mojo::discovery::CommandSpec;
use zed_mojo::json::JsonValue;
use zed_mojo::session::DebugAdapterBinary;
use zed_mojo::startup::{HomeStage, LaunchStage, ProcessOutput, SourceLaunch, Step, StdlibHome};
use zed_mojo::worktree::{Os, WorktreeFacts};
use zed_mojo::MojoExtension;

fn s(text: &str) -> String {
    text.to_string()
}

fn text(value: &str) -> JsonValue {
    JsonValue::Str(s(value))
}

fn object(members: Vec<(&str, JsonValue)>) -> JsonValue {
    JsonValue::Object(members.into_iter().map(|(k, v)| (s(k), v)).collect())
}

fn pairs(values: &[(&str, &str)]) -> Vec<(String, String)> {
    values.iter().map(|(k, v)| (s(k), s(v))).collect()
}

fn tools(os: Os) -> WorktreeFacts {
    WorktreeFacts {
        root_path: s("/w"),
        os,
        shell_env: pairs(&[("HOME", "/home/u")]),
        files: vec![],
        which: vec![
            (s("mojo"), Some(s("/opt/bin/mojo"))),
            (s("mojo-lldb-dap"), Some(s("/opt/bin/mojo-lldb-dap"))),
            (s("mojo-lsp-server"), Some(s("/opt/bin/mojo-lsp-server"))),
        ],
    }
}

fn ran(status: i32, stdout: &str, stderr: &str) -> Result<ProcessOutput, String> {
    Ok(ProcessOutput { status: Some(status), stdout: s(stdout), stderr: s(stderr) })
}

fn command<S, T>(step: Step<S, T>) -> (S, CommandSpec) {
    match step {
        Step::Run(state, c) => (state, c),
        Step::Finish(_) => panic!("expected a command to run"),
    }
}

fn finished<S, T>(step: Step<S, T>) -> Result<T, String> {
    match step {
        Step::Run(_, c) => panic!("expected the end, got {:?}", c),
        Step::Finish(r) => r,
    }
}

fn source_launch() -> JsonValue {
    object(vec![
        ("request", text("launch")),
        ("mojoFile", text("src/main.mojo")),
        ("buildArgs", JsonValue::Array(vec![text("-I"), text("lib")])),
    ])
}

fn launched(os: Os) -> (WorktreeFacts, SourceLaunch) {
    let w = tools(os);
    let step = MojoExtension::start_debug_adapter(&w, source_launch(), DebugRequestKind::Launch, false, None);
    let (launch, mktemp) = command(step);
    assert_eq!(mktemp.command, "/usr/bin/mktemp");
    assert_eq!(launch.stage, LaunchStage::MakingDirectory);
    (w, launch)
}

fn built(os: Os) -> (WorktreeFacts, SourceLaunch) {
    let (w, launch) = launched(os);
    let step = MojoExtension::resume_debug_adapter(&w, launch, ran(0, "/tmp/zed-mojo.abc\n", ""));
    let (launch, build) = command(step);
    assert_eq!(build.args[4], "/opt/bin/mojo");
    assert_eq!(build.args[9..], [s("-I"), s("lib"), s("src/main.mojo"), s("-o"), s("/tmp/zed-mojo.abc/main")]);
    assert_eq!(build.envs, pairs(&[("HOME", "/home/u")]));
    assert_eq!(launch.stage, LaunchStage::Building);
    assert_eq!(launch.binary, "/tmp/zed-mojo.abc/main");
    (w, launch)
}

fn check_built_binary(binary: DebugAdapterBinary) {
    assert_eq!(binary.command, Some(s("/opt/bin/mojo-lldb-dap")));
    assert_eq!(binary.request, DebugRequestKind::Launch);
    assert_eq!(binary.configuration.get("program"), Some(&text("/tmp/zed-mojo.abc/main")));
    assert!(binary.configuration.get("mojoFile").is_none());
    assert!(binary.configuration.get("buildArgs").is_none());
    assert!(binary.configuration.get("initCommands").is_some());
}

#[test]
fn tcp_sessions_end_at_once() {
    let w = tools(Os::Linux);
    let step =
        MojoExtension::start_debug_adapter(&w, object(vec![("request", text("attach"))]), DebugRequestKind::Attach, true, None);
    let binary = finished(step).unwrap();
    assert!(binary.command.is_none());
    assert_eq!(binary.configuration, object(vec![("request", text("attach"))]));
    let step = MojoExtension::start_debug_adapter(&w, source_launch(), DebugRequestKind::Launch, true, None);
    assert!(finished(step).unwrap_err().starts_with("`mojoFile` cannot be built for an external TCP adapter"));
}

#[test]
fn attach_and_plain_launch_set_up_the_adapter_at_once() {
    let w = tools(Os::Linux);
    let step =
        MojoExtension::start_debug_adapter(&w, object(vec![("request", text("attach"))]), DebugRequestKind::Attach, false, None);
    assert_eq!(finished(step).unwrap().arguments, vec![s("--repl-mode"), s("variable")]);
    let program = object(vec![("request", text("launch")), ("program", text("/w/app"))]);
    let step = MojoExtension::start_debug_adapter(&w, program, DebugRequestKind::Launch, false, Some(s("/my/dap")));
    assert_eq!(finished(step).unwrap().command, Some(s("/my/dap")));
}

#[test]
fn source_launch_fails_early_on_bad_sources_and_settings() {
    let w = tools(Os::Linux);
    let python = object(vec![("request", text("launch")), ("mojoFile", text("main.py"))]);
    let step = MojoExtension::start_debug_adapter(&w, python, DebugRequestKind::Launch, false, None);
    assert_eq!(finished(step).unwrap_err(), "`mojoFile` must point to a `.mojo` or `.🔥` source file");
    let bare = WorktreeFacts { which: vec![], ..tools(Os::Linux) };
    let step = MojoExtension::start_debug_adapter(&bare, source_launch(), DebugRequestKind::Launch, false, None);
    assert_eq!(
        finished(step).unwrap_err(),
        "The Mojo compiler was not found for source debugging; activate an SDK or configure a project Pixi/uv environment"
    );
}

#[test]
fn source_launch_builds_then_starts_the_adapter() {
    let (w, launch) = built(Os::Linux);
    let step = MojoExtension::resume_debug_adapter(&w, launch, ran(0, "", ""));
    check_built_binary(finished(step).unwrap());
}

#[test]
fn source_launch_signs_the_binary_on_macos() {
    let (w, launch) = built(Os::Mac);
    let step = MojoExtension::resume_debug_adapter(&w, launch, ran(0, "", ""));
    let (launch, sign) = command(step);
    assert_eq!(sign.args[2..], [s("zed-mojo-codesign"), s("/tmp/zed-mojo.abc/main")]);
    assert_eq!(launch.stage, LaunchStage::Signing);
    let step = MojoExtension::resume_debug_adapter(&w, launch, ran(0, "", ""));
    check_built_binary(finished(step).unwrap());
}

#[test]
fn source_launch_reports_failed_processes() {
    let (w, launch) = launched(Os::Linux);
    let step = MojoExtension::resume_debug_adapter(&w, launch, ran(1, "", "no space"));
    assert_eq!(
        finished(step).unwrap_err(),
        "creating a temporary directory for the Mojo debug binary failed with status Some(1): no space"
    );
    let (w, launch) = built(Os::Linux);
    let step = MojoExtension::resume_debug_adapter(&w, launch, ran(1, "", "error: bad\n"));
    assert_eq!(finished(step).unwrap_err(), "building the Mojo debug target failed with status Some(1): error: bad");
    let (w, launch) = built(Os::Mac);
    let (launch, _) = command(MojoExtension::resume_debug_adapter(&w, launch, ran(0, "", "")));
    let step = MojoExtension::resume_debug_adapter(&w, launch, Err(s("no codesign")));
    assert_eq!(finished(step).unwrap_err(), "no codesign");
}

#[test]
fn language_server_without_stdlib_source_starts_at_once() {
    let w = tools(Os::Linux);
    let step = MojoExtension::start_language_server(&w, "mojo-lsp-server", None);
    assert_eq!(
        finished(step),
        Ok(CommandSpec { command: s("/opt/bin/mojo-lsp-server"), args: vec![], envs: vec![] })
    );
    let step = MojoExtension::start_language_server(&w, "other", None);
    assert_eq!(finished(step).unwrap_err(), "Mojo extension does not support language server `other`");
}

#[test]
fn language_server_gets_a_stdlib_source_home() {
    let w = WorktreeFacts { shell_env: pairs(&[("MODULAR_HOME", "/sdk/share/max")]), ..tools(Os::Linux) };
    let settings = object(vec![("stdlib_source", text("std/src/"))]);
    let (home, mktemp): (StdlibHome, CommandSpec) =
        command(MojoExtension::start_language_server(&w, "mojo-lsp-server", Some(&settings)));
    assert_eq!(mktemp.command, "/usr/bin/mktemp");
    assert_eq!(home.stage, HomeStage::MakingDirectory);
    assert_eq!(home.home, "/sdk/share/max");
    assert_eq!(home.import_path, "/w/std/src");
    let (home, write) = command(MojoExtension::resume_language_server(home, ran(0, "/tmp/zed-mojo.h\n", "")));
    assert_eq!(write.args[2..], [s("zed-mojo-stdlib-home"), s("/tmp/zed-mojo.h"), s("/sdk/share/max/modular.cfg"), s("/w/std/src")]);
    assert_eq!(home.stage, HomeStage::WritingHome);
    let step = MojoExtension::resume_language_server(home, ran(0, "", ""));
    let server = finished(step).unwrap();
    assert_eq!(server.command, "/opt/bin/mojo-lsp-server");
    assert_eq!(server.envs, pairs(&[("MODULAR_HOME", "/tmp/zed-mojo.h")]));
}

#[test]
fn stdlib_source_failures_name_the_setting() {
    let settings = object(vec![("stdlib_source", text("std"))]);
    let step = MojoExtension::start_language_server(&tools(Os::Linux), "mojo-lsp-server", Some(&settings));
    assert_eq!(
        finished(step).unwrap_err(),
        "stdlib_source `std`: stdlib_source needs a detected SDK home (MODULAR_HOME); use a root Pixi project or activate the SDK environment"
    );
    let w = WorktreeFacts { shell_env: pairs(&[("MODULAR_HOME", "/sdk")]), ..tools(Os::Linux) };
    let (home, _) = command(MojoExtension::start_language_server(&w, "mojo-lsp-server", Some(&settings)));
    let step = MojoExtension::resume_language_server(home, ran(1, "", "nope"));
    assert_eq!(
        finished(step).unwrap_err(),
        "stdlib_source `std`: creating a temporary directory for the stdlib-source SDK home failed with status Some(1): nope"
    );
    let (home, _) = command(MojoExtension::start_language_server(&w, "mojo-lsp-server", Some(&settings)));
    let (home, _) = command(MojoExtension::resume_language_server(home, ran(0, "/tmp/zed-mojo.q", "")));
    let step = MojoExtension::resume_language_server(home, ran(2, "sed: x", ""));
    assert_eq!(
        finished(step).unwrap_err(),
        "stdlib_source `std`: writing the stdlib-source shadow SDK home failed with status Some(2): sed: x"
    );
}
