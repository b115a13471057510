//! Starting a debug session or the language server when processes must run
//! first: each step tells the host what to run next, and what the start
//! becomes once the host hands back what the process did.

use vstd::prelude::*;

use crate::debug::{unsupported_server_message, DebugRequestKind};
use crate::discovery::{CommandSpec, LSP_BINARY};
use crate::extension::MojoExtension;
use crate::json::JsonValue;
use crate::process::{
    codesign_plan, plan_view, process_failure, spec_checked_temp_directory, spec_debug_binary_stem,
    stdlib_home_plan, temp_directory_plan,
};
use crate::session::{
    build_settings_error, build_settings_fit, configured_stdlib_source, local_binary_outcome,
    server_not_found_message, set_first, source_built, spec_build_plan, spec_source_debug_file,
    spec_stdlib_home, stdlib_home_missing_message, stdlib_message, tcp_binary_outcome,
    DebugAdapterBinary, SourceBuild,
};
use crate::text::{opt_view, pairs};
use crate::worktree::{spec_resolve_worktree_path, Os, WorktreeFacts};

verus! {

/// What a process that the host ran handed back.
pub struct ProcessOutput {
    pub status: Option<i32>,
    pub stdout: String,
    pub stderr: String,
}

/// What the host is to do next.
pub enum Step<S, T> {
    /// Run the command and hand its output, or why it could not run, back
    /// together with this state.
    Run(S, CommandSpec),
    /// Stop with this result.
    Finish(Result<T, String>),
}

/// Where a launch that builds its Mojo source stands.
#[derive(Clone, Copy, Debug, PartialEq, Eq, Structural)]
pub enum LaunchStage {
    /// Waiting for the temporary directory of the binary.
    MakingDirectory,
    /// Waiting for the build of the binary.
    Building,
    /// Waiting for the signature of the binary.
    Signing,
}

/// A launch whose Mojo source is built before the adapter starts.
pub struct SourceLaunch {
    pub stage: LaunchStage,
    pub config: JsonValue,
    pub request: DebugRequestKind,
    pub user_path: Option<String>,
    pub source: String,
    pub build: SourceBuild,
    pub binary: String,
}

/// Where the making of a stdlib-source SDK home stands.
#[derive(Clone, Copy, Debug, PartialEq, Eq, Structural)]
pub enum HomeStage {
    /// Waiting for the temporary directory of the home.
    MakingDirectory,
    /// Waiting for the home's `modular.cfg` to be written.
    WritingHome,
}

/// A language server start that first makes an SDK home whose `import_path`
/// is the user's stdlib source tree.
pub struct StdlibHome {
    pub stage: HomeStage,
    pub server: CommandSpec,
    pub stdlib_source: String,
    pub home: String,
    pub import_path: String,
    pub directory: String,
}

/// Whether a process ran to exit status 0, and the error if not.
pub open spec fn process_outcome(purpose: Seq<char>, output: Result<ProcessOutput, String>) -> Result<
    (),
    Seq<char>,
> {
    match output {
        Ok(o) => if o.status == Some(0i32) {
            Ok(())
        } else {
            Err(process_failure(purpose, o.status, o.stdout@, o.stderr@))
        },
        Err(e) => Err(e@),
    }
}

/// The temporary directory that a `mktemp` run made, or the error.
pub open spec fn directory_outcome(purpose: Seq<char>, output: Result<ProcessOutput, String>) -> Result<
    Seq<char>,
    Seq<char>,
> {
    match output {
        Ok(o) => spec_checked_temp_directory(purpose, o.status, o.stdout@, o.stderr@),
        Err(e) => Err(e@),
    }
}

/// The step stops with this error.
pub open spec fn fails<S, T>(step: Step<S, T>, message: Seq<char>) -> bool {
    step matches Step::Finish(Err(e)) && e@ == message
}

/// Two stages of one launch: only the stage and the binary differ.
pub open spec fn same_launch(a: SourceLaunch, b: SourceLaunch) -> bool {
    &&& a.config == b.config
    &&& a.request == b.request
    &&& a.user_path == b.user_path
    &&& a.source == b.source
    &&& a.build == b.build
}

/// How a launch ends once `binary` is built: the configuration is pointed at
/// the binary and the local adapter is set up for it.
pub open spec fn built_launch_outcome(
    worktree: WorktreeFacts,
    config: JsonValue,
    request: DebugRequestKind,
    user_path: Option<Seq<char>>,
    binary: Seq<char>,
    step: Step<SourceLaunch, DebugAdapterBinary>,
) -> bool {
    match config {
        JsonValue::Object(before) => step matches Step::Finish(r) && exists|after: Vec<(String, JsonValue)>|
            source_built(before@, after@, binary) && #[trigger] local_binary_outcome(
                worktree,
                JsonValue::Object(after),
                request,
                user_path,
                r,
            ),
        _ => fails(step, "Mojo debug configuration must be a JSON object"@),
    }
}

/// The server command as it was found, with no arguments.
pub open spec fn server_found(c: CommandSpec, found: (Seq<char>, Seq<(Seq<char>, Seq<char>)>)) -> bool {
    (c.command@, pairs(c.envs@)) == found && c.args@.len() == 0
}

impl MojoExtension {
    /// Whether a process ran to exit status 0, and the error if not.
    fn run_outcome(purpose: &str, output: Result<ProcessOutput, String>) -> (r: Result<(), String>)
        ensures
            match process_outcome(purpose@, output) {
                Ok(_) => r is Ok,
                Err(m) => r matches Err(e) && e@ == m,
            },
    {
        match output {
            Ok(o) => Self::process_result(purpose, o.status, o.stdout.as_str(), o.stderr.as_str()),
            Err(e) => Err(e),
        }
    }

    /// The temporary directory that a `mktemp` run made, or the error.
    fn made_directory(purpose: &str, output: Result<ProcessOutput, String>) -> (r: Result<String, String>)
        ensures
            match directory_outcome(purpose@, output) {
                Ok(d) => r matches Ok(v) && v@ == d,
                Err(m) => r matches Err(e) && e@ == m,
            },
    {
        match output {
            Ok(o) => Self::checked_temp_directory(purpose, o.status, o.stdout.as_str(), o.stderr.as_str()),
            Err(e) => Err(e),
        }
    }

    /// Points the configuration at the built `binary` and sets the local
    /// adapter up for it.
    fn finish_launch(
        worktree: &WorktreeFacts,
        config: JsonValue,
        request: DebugRequestKind,
        user_path: Option<String>,
        binary: String,
    ) -> (r: Step<SourceLaunch, DebugAdapterBinary>)
        requires
            config.top_keys_unique(),
        ensures
            built_launch_outcome(*worktree, config, request, opt_view(user_path), binary@, r),
    {
        let ghost before_build = config;
        let ghost binary_view = binary@;
        let ghost user_view = opt_view(user_path);
        let mut config = config;
        match Self::finish_source_debug(&mut config, binary) {
            Ok(()) => {},
            Err(e) => return Step::Finish(Err(e)),
        }
        let ghost finished = config;
        let r = Self::local_adapter_binary(worktree, config, request, user_path);
        proof {
            match (before_build, finished) {
                (JsonValue::Object(before), JsonValue::Object(after)) => {
                    assert(source_built(before@, after@, binary_view));
                    assert(local_binary_outcome(*worktree, JsonValue::Object(after), request, user_view, r));
                },
                _ => {},
            }
        }
        Step::Finish(r)
    }

    /// The first step of a debug session: the adapter binary at once, or,
    /// for a launch that names a Mojo source, the making of a directory for
    /// the binary that is to be built from it.
    pub fn start_debug_adapter(
        worktree: &WorktreeFacts,
        config: JsonValue,
        request: DebugRequestKind,
        over_tcp: bool,
        user_path: Option<String>,
    ) -> (r: Step<SourceLaunch, DebugAdapterBinary>)
        requires
            config.top_keys_unique(),
        ensures
            over_tcp ==> (r matches Step::Finish(b) && tcp_binary_outcome(*worktree, config, request, b)),
            !over_tcp && request == DebugRequestKind::Attach ==> (r matches Step::Finish(b)
                && local_binary_outcome(*worktree, config, request, opt_view(user_path), b)),
            !over_tcp && request == DebugRequestKind::Launch ==> match spec_source_debug_file(config) {
                Err(m) => fails(r, m),
                Ok(None) => r matches Step::Finish(b) && local_binary_outcome(
                    *worktree,
                    config,
                    request,
                    opt_view(user_path),
                    b,
                ),
                Ok(Some(source)) => match build_settings_error(*worktree, config) {
                    Some(m) => fails(r, m),
                    None => r matches Step::Run(l, c) && l.stage == LaunchStage::MakingDirectory
                        && l.config == config && l.request == request && l.user_path == user_path
                        && l.source@ == source && build_settings_fit(*worktree, config, l.build)
                        && plan_view(c) == temp_directory_plan(),
                },
            },
    {
        if over_tcp {
            return Step::Finish(Self::tcp_adapter_binary(worktree, config, request));
        }
        if request == DebugRequestKind::Launch {
            match Self::source_debug_file(&config) {
                Err(e) => return Step::Finish(Err(e)),
                Ok(Some(source)) => {
                    return match Self::source_build_settings(worktree, &config) {
                        Err(e) => Step::Finish(Err(e)),
                        Ok(build) => Step::Run(
                            SourceLaunch {
                                stage: LaunchStage::MakingDirectory,
                                config,
                                request,
                                user_path,
                                source,
                                build,
                                binary: String::new(),
                            },
                            Self::temp_directory_command(),
                        ),
                    };
                },
                Ok(None) => {},
            }
        }
        Step::Finish(Self::local_adapter_binary(worktree, config, request, user_path))
    }

    /// The next step of a launch that builds its source, given what the last
    /// process did: build into the new directory, sign the binary on macOS,
    /// then point the configuration at the binary and set up the adapter.
    pub fn resume_debug_adapter(
        worktree: &WorktreeFacts,
        launch: SourceLaunch,
        output: Result<ProcessOutput, String>,
    ) -> (r: Step<SourceLaunch, DebugAdapterBinary>)
        requires
            launch.config.top_keys_unique(),
        ensures
            launch.stage == LaunchStage::MakingDirectory ==> match directory_outcome(
                "the Mojo debug binary"@,
                output,
            ) {
                Err(m) => fails(r, m),
                Ok(d) => r matches Step::Run(next, c) && next.stage == LaunchStage::Building && same_launch(
                    next,
                    launch,
                ) && next.binary@ == d + "/"@ + spec_debug_binary_stem(launch.source@) && plan_view(c)
                    == spec_build_plan(*worktree, launch.build, launch.source@, next.binary@),
            },
            launch.stage == LaunchStage::Building ==> match process_outcome(
                "building the Mojo debug target"@,
                output,
            ) {
                Err(m) => fails(r, m),
                Ok(_) => if worktree.os == Os::Mac {
                    r matches Step::Run(next, c) && next.stage == LaunchStage::Signing && same_launch(
                        next,
                        launch,
                    ) && next.binary == launch.binary && plan_view(c) == codesign_plan(launch.binary@)
                } else {
                    built_launch_outcome(
                        *worktree,
                        launch.config,
                        launch.request,
                        opt_view(launch.user_path),
                        launch.binary@,
                        r,
                    )
                },
            },
            launch.stage == LaunchStage::Signing ==> match process_outcome(
                "codesigning the Mojo debug binary"@,
                output,
            ) {
                Err(m) => fails(r, m),
                Ok(_) => built_launch_outcome(
                    *worktree,
                    launch.config,
                    launch.request,
                    opt_view(launch.user_path),
                    launch.binary@,
                    r,
                ),
            },
    {
        let SourceLaunch { stage, config, request, user_path, source, build, binary } = launch;
        match stage {
            LaunchStage::MakingDirectory => {
                let directory = match Self::made_directory("the Mojo debug binary", output) {
                    Ok(d) => d,
                    Err(e) => return Step::Finish(Err(e)),
                };
                let binary = Self::debug_binary_file(directory.as_str(), source.as_str());
                let command = Self::source_build_command(worktree, &build, source.as_str(), binary.as_str());
                Step::Run(
                    SourceLaunch { stage: LaunchStage::Building, config, request, user_path, source, build, binary },
                    command,
                )
            },
            LaunchStage::Building => {
                match Self::run_outcome("building the Mojo debug target", output) {
                    Ok(()) => {},
                    Err(e) => return Step::Finish(Err(e)),
                }
                match Self::codesign_command(worktree.os, binary.as_str()) {
                    Some(command) => Step::Run(
                        SourceLaunch { stage: LaunchStage::Signing, config, request, user_path, source, build, binary },
                        command,
                    ),
                    None => Self::finish_launch(worktree, config, request, user_path, binary),
                }
            },
            LaunchStage::Signing => {
                match Self::run_outcome("codesigning the Mojo debug binary", output) {
                    Ok(()) => {},
                    Err(e) => return Step::Finish(Err(e)),
                }
                Self::finish_launch(worktree, config, request, user_path, binary)
            },
        }
    }

    /// The first step of a language server start: the server command at
    /// once, or, where a `stdlib_source` is set, the making of a directory
    /// for an SDK home that imports the standard library from that source.
    pub fn start_language_server(
        worktree: &WorktreeFacts,
        language_server_id: &str,
        settings: Option<&JsonValue>,
    ) -> (r: Step<StdlibHome, CommandSpec>)
        ensures
            language_server_id@ != "mojo-lsp-server"@ ==> fails(r, unsupported_server_message(language_server_id@)),
            language_server_id@ == "mojo-lsp-server"@ ==> match worktree.spec_find_command(LSP_BINARY@) {
                None => fails(r, server_not_found_message()),
                Some(found) => match configured_stdlib_source(settings) {
                    None => r matches Step::Finish(Ok(c)) && server_found(c, found),
                    Some(source) => match spec_stdlib_home(*worktree, found.1) {
                        None => fails(r, stdlib_message(source, stdlib_home_missing_message())),
                        Some(h) => r matches Step::Run(home, c) && home.stage == HomeStage::MakingDirectory
                            && server_found(home.server, found) && home.stdlib_source@ == source
                            && home.home@ == h && home.import_path@ == spec_resolve_worktree_path(
                            worktree.root_path@,
                            source,
                        ) && plan_view(c) == temp_directory_plan(),
                    },
                },
            },
    {
        let server = match Self::language_server_spec(worktree, language_server_id) {
            Ok(server) => server,
            Err(e) => return Step::Finish(Err(e)),
        };
        let source = match Self::stdlib_source_setting(settings) {
            Some(source) => source,
            None => return Step::Finish(Ok(server)),
        };
        let import_path = Self::resolve_worktree_path(worktree, source.as_str());
        let home = match Self::stdlib_home(worktree, &server) {
            Ok(home) => home,
            Err(e) => return Step::Finish(Err(Self::stdlib_error(source.as_str(), e.as_str()))),
        };
        Step::Run(
            StdlibHome {
                stage: HomeStage::MakingDirectory,
                server,
                stdlib_source: source,
                home,
                import_path,
                directory: String::new(),
            },
            Self::temp_directory_command(),
        )
    }

    /// The next step of a language server start with a stdlib source, given
    /// what the last process did: write the home into the new directory,
    /// then point the server's `MODULAR_HOME` at it.
    pub fn resume_language_server(home: StdlibHome, output: Result<ProcessOutput, String>) -> (r: Step<
        StdlibHome,
        CommandSpec,
    >)
        ensures
            home.stage == HomeStage::MakingDirectory ==> match directory_outcome(
                "the stdlib-source SDK home"@,
                output,
            ) {
                Err(m) => fails(r, stdlib_message(home.stdlib_source@, m)),
                Ok(d) => r matches Step::Run(next, c) && next.stage == HomeStage::WritingHome
                    && next.directory@ == d && next.server == home.server && next.stdlib_source
                    == home.stdlib_source && next.home == home.home && next.import_path
                    == home.import_path && plan_view(c) == stdlib_home_plan(d, home.home@, home.import_path@),
            },
            home.stage == HomeStage::WritingHome ==> match process_outcome(
                "writing the stdlib-source shadow SDK home"@,
                output,
            ) {
                Err(m) => fails(r, stdlib_message(home.stdlib_source@, m)),
                Ok(_) => r matches Step::Finish(Ok(c)) && c.command == home.server.command && c.args
                    == home.server.args && pairs(c.envs@) == set_first(
                    pairs(home.server.envs@),
                    "MODULAR_HOME"@,
                    home.directory@,
                ),
            },
    {
        let StdlibHome { stage, server, stdlib_source, home, import_path, directory } = home;
        match stage {
            HomeStage::MakingDirectory => {
                let directory = match Self::made_directory("the stdlib-source SDK home", output) {
                    Ok(d) => d,
                    Err(e) => {
                        return Step::Finish(Err(Self::stdlib_error(stdlib_source.as_str(), e.as_str())));
                    },
                };
                let command = Self::stdlib_home_command(directory.as_str(), home.as_str(), import_path.as_str());
                Step::Run(
                    StdlibHome { stage: HomeStage::WritingHome, server, stdlib_source, home, import_path, directory },
                    command,
                )
            },
            HomeStage::WritingHome => {
                match Self::run_outcome("writing the stdlib-source shadow SDK home", output) {
                    Ok(()) => {},
                    Err(e) => {
                        return Step::Finish(Err(Self::stdlib_error(stdlib_source.as_str(), e.as_str())));
                    },
                }
                let mut server = server;
                Self::set_modular_home(&mut server, directory);
                Step::Finish(Ok(server))
            },
        }
    }
}

} // verus!
