//! Properties that relate the functions of the crate to each other.

use vstd::prelude::*;

use crate::args::{
    count_char, filter_build_args, lldb_escape, lldb_escape_char, lldb_unescape, quotes_escaped, sets_level,
    spec_is_mojo_source, spec_is_zed_file_variable, spec_run_args, spec_task_mojo_run,
    spec_task_source_argument, takes_value, TaskTemplate,
};
use crate::debug::{debugger_configured, spec_build_argument_list, spec_config_environment, spec_request_kind, str_text, DebugRequestKind};
use crate::json::{keys_unique, lookup, JsonValue};
use crate::scenario::{is_attach_config, is_launch_config, is_locator_config, last_value, lemma_member_keys_distinct, AttachRequest, LaunchRequest};
use crate::session::{set_first, source_built, spec_build_plan, spec_selected_adapter, spec_source_debug_file, SourceBuild};
use crate::text::{pairs, trim_by, trim_end_by, trim_start_by, views, CharClass};
use crate::discovery::{spec_bin_dir, LEGACY_DAP_BINARY, LSP_BINARY};
use crate::debug::PLUGIN_PATH_VARIABLE;
use crate::config::spec_config_value;
use crate::text::ends_with;
use crate::worktree::{Os, pair_lookup, spec_environment_binary, spec_environment_root, spec_library_extension, WorktreeFacts};

verus! {

/// The options that a debug build keeps never set the optimization or debug
/// level, nor take such a level as their value.
pub proof fn law_debug_build_drops_level_options(args: Seq<Seq<char>>)
    ensures
        forall|i: int|
            0 <= i < filter_build_args(args).len() ==> !takes_value(
                #[trigger] filter_build_args(args)[i],
            ) && !sets_level(filter_build_args(args)[i]),
    decreases args.len(),
{
    if args.len() > 0 {
        if takes_value(args[0]) {
            if args.len() >= 2 {
                law_debug_build_drops_level_options(args.skip(2));
                assert(filter_build_args(args) == filter_build_args(args.skip(2)));
            } else {
                assert(filter_build_args(args).len() == 0);
            }
        } else if sets_level(args[0]) {
            law_debug_build_drops_level_options(args.drop_first());
            assert(filter_build_args(args) == filter_build_args(args.drop_first()));
        } else {
            law_debug_build_drops_level_options(args.drop_first());
            let rest = filter_build_args(args.drop_first());
            assert(filter_build_args(args) == seq![args[0]] + rest);
            assert forall|i: int| 0 <= i < filter_build_args(args).len() implies !takes_value(
                #[trigger] filter_build_args(args)[i],
            ) && !sets_level(filter_build_args(args)[i]) by {
                if i > 0 {
                    assert(filter_build_args(args)[i] == rest[i - 1]);
                }
            }
        }
    }
}

/// Options none of which concerns the optimization or debug level are all
/// kept, in their order.
pub proof fn law_debug_build_keeps_other_options(args: Seq<Seq<char>>)
    requires
        forall|i: int| 0 <= i < args.len() ==> !takes_value(#[trigger] args[i]) && !sets_level(args[i]),
    ensures
        filter_build_args(args) == args,
    decreases args.len(),
{
    if args.len() > 0 {
        let t = args.drop_first();
        assert forall|i: int| 0 <= i < t.len() implies !takes_value(#[trigger] t[i]) && !sets_level(t[i]) by {
            assert(t[i] == args[i + 1]);
        }
        law_debug_build_keeps_other_options(t);
        assert(seq![args[0]] + t =~= args);
    }
}

/// Options are judged one at a time: where the first options take no value,
/// the options kept of the whole are those kept of the first part followed
/// by those kept of the rest.
pub proof fn law_debug_build_splits(a: Seq<Seq<char>>, b: Seq<Seq<char>>)
    requires
        forall|i: int| 0 <= i < a.len() ==> !takes_value(#[trigger] a[i]),
    ensures
        filter_build_args(a + b) == filter_build_args(a) + filter_build_args(b),
    decreases a.len(),
{
    if a.len() == 0 {
        assert(a + b =~= b);
        assert(filter_build_args(a) + filter_build_args(b) =~= filter_build_args(b));
    } else {
        let t = a.drop_first();
        assert forall|i: int| 0 <= i < t.len() implies !takes_value(#[trigger] t[i]) by {
            assert(t[i] == a[i + 1]);
        }
        law_debug_build_splits(t, b);
        assert((a + b).drop_first() =~= t + b);
        assert((a + b)[0] == a[0]);
        if !sets_level(a[0]) {
            assert(seq![a[0]] + (filter_build_args(t) + filter_build_args(b)) =~= (seq![a[0]]
                + filter_build_args(t)) + filter_build_args(b));
        }
    }
}

/// Dropping the level options twice drops nothing more.
pub proof fn law_debug_build_idempotent(args: Seq<Seq<char>>)
    ensures
        filter_build_args(filter_build_args(args)) == filter_build_args(args),
{
    law_debug_build_drops_level_options(args);
    law_debug_build_keeps_other_options(filter_build_args(args));
}

proof fn lemma_str_items(items: Seq<JsonValue>, texts: Seq<Seq<char>>)
    requires
        crate::json::are_strs(items, texts),
    ensures
        crate::debug::all_strs(items),
        items.map_values(|v: JsonValue| str_text(v)) == texts,
{
    assert(items.map_values(|v: JsonValue| str_text(v)) =~= texts);
}

proof fn lemma_env_lookup(members: Seq<(String, JsonValue)>, k: Seq<char>)
    ensures
        pair_lookup(members.map_values(|m: (String, JsonValue)| (m.0@, str_text(m.1))), k)
            == match lookup(members, k) {
            Some(v) => Some(str_text(v)),
            None => None,
        },
    decreases members.len(),
{
    let f = |m: (String, JsonValue)| (m.0@, str_text(m.1));
    if members.len() > 0 {
        lemma_env_lookup(members.drop_first(), k);
        assert(members.map_values(f).drop_first() =~= members.drop_first().map_values(f));
    }
}

/// What a `mojo run` task's debug scenario asks of the source debug that
/// follows: a launch, a build of the task's source (where it names a Mojo
/// file) with the task's compiler options, and the task's environment with
/// the last value of each variable.
pub proof fn law_locator_scenario_round_trip(members: Vec<(String, JsonValue)>, task: TaskTemplate)
    requires
        spec_task_mojo_run(task.command@, views(task.args@)) is Some,
        is_locator_config(members@, task, spec_task_mojo_run(task.command@, views(task.args@))->0),
    ensures
        ({
            let run = spec_task_mojo_run(task.command@, views(task.args@))->0;
            let config = JsonValue::Object(members);
            &&& spec_request_kind(config) == Some(DebugRequestKind::Launch)
            &&& spec_is_mojo_source(run.0) ==> spec_source_debug_file(config) == Ok::<
                Option<Seq<char>>,
                Seq<char>,
            >(Some(run.0))
            &&& spec_build_argument_list(config) matches Ok(list) && filter_build_args(list)
                == run.1
            &&& spec_config_environment(config) matches Ok(env) && forall|k: Seq<char>|
                #[trigger] pair_lookup(env, k) == last_value(pairs(task.env@), k)
        }),
{
    lemma_member_keys_distinct();
    let run = spec_task_mojo_run(task.command@, views(task.args@))->0;
    let config = JsonValue::Object(members);
    reveal_strlit("launch");
    match lookup(members@, "buildArgs"@) {
        Some(JsonValue::Array(items)) => {
            lemma_str_items(items@, run.1);
        },
        _ => {},
    }
    let args = task.args@;
    let m = spec_task_mojo_run(task.command@, views(args));
    assert(filter_build_args(run.1) == run.1) by {
        let r = crate::args::spec_run_args(task.command@, views(args))->0;
        let k = crate::args::source_index(r)->0;
        law_debug_build_idempotent(r.take(k));
    }
    if pairs(task.env@).len() > 0 {
        let em = lookup(members@, "env"@)->0->Object_0@;
        let env = em.map_values(|m: (String, JsonValue)| (m.0@, str_text(m.1)));
        assert forall|i: int| 0 <= i < em.len() implies (#[trigger] em[i]).1 is Str by {
            let key = em[i].0@;
            crate::json::lemma_lookup(em, key);
        }
        assert forall|k: Seq<char>| #[trigger] pair_lookup(env, k) == last_value(pairs(task.env@), k) by {
            lemma_env_lookup(em, k);
        }
    } else {
        assert forall|k: Seq<char>| #[trigger] pair_lookup(Seq::<(Seq<char>, Seq<char>)>::empty(), k)
            == last_value(pairs(task.env@), k) by {}
    }
}

/// A scenario from Zed's launch dialog asks for a launch, and one from its
/// attach dialog for an attach.
pub proof fn law_dialog_scenario_request_kind(
    members: Vec<(String, JsonValue)>,
    launch: LaunchRequest,
    stop_on_entry: Option<bool>,
    attached: Vec<(String, JsonValue)>,
    attach: AttachRequest,
)
    ensures
        is_launch_config(members@, launch, stop_on_entry) ==> spec_request_kind(
            JsonValue::Object(members),
        ) == Some(DebugRequestKind::Launch),
        is_attach_config(attached@, attach) ==> spec_request_kind(JsonValue::Object(attached))
            == Some(DebugRequestKind::Attach),
{
    reveal_strlit("launch");
    reveal_strlit("attach");
    assert("launch"@[0] != "attach"@[0]);
}

/// A launch from Zed's dialog of a Mojo source asks the source debug to build
/// that source; of any other program, to build nothing.
pub proof fn law_dialog_launch_source(
    members: Vec<(String, JsonValue)>,
    launch: LaunchRequest,
    stop_on_entry: Option<bool>,
)
    requires
        is_launch_config(members@, launch, stop_on_entry),
    ensures
        launch.program@.len() > 0 && spec_is_mojo_source(launch.program@) ==> spec_source_debug_file(
            JsonValue::Object(members),
        ) == Ok::<Option<Seq<char>>, Seq<char>>(Some(launch.program@)),
        !(launch.program@.len() > 0 && spec_is_mojo_source(launch.program@))
            ==> spec_source_debug_file(JsonValue::Object(members)) == Ok::<
            Option<Seq<char>>,
            Seq<char>,
        >(None),
{
}

/// Setting the debugger up never changes what a configuration asks for, nor
/// the source it builds.
pub proof fn law_debugger_setup_keeps_request(
    before: Vec<(String, JsonValue)>,
    after: Vec<(String, JsonValue)>,
    commands: Seq<Seq<char>>,
    ok: bool,
)
    requires
        debugger_configured(before@, after@, commands, ok),
    ensures
        spec_request_kind(JsonValue::Object(after)) == spec_request_kind(JsonValue::Object(before)),
        spec_source_debug_file(JsonValue::Object(after)) == spec_source_debug_file(
            JsonValue::Object(before),
        ),
{
    reveal_strlit("request");
    reveal_strlit("mojoFile");
    reveal_strlit("enableSyntheticChildDebugging");
    reveal_strlit("enableAutoVariableSummaries");
    reveal_strlit("commandEscapePrefix");
    reveal_strlit("initCommands");
    assert("request"@[0] != "enableSyntheticChildDebugging"@[0]);
    assert("request"@[0] != "enableAutoVariableSummaries"@[0]);
    assert("request"@[0] != "commandEscapePrefix"@[0]);
    assert("request"@[0] != "initCommands"@[0]);
    assert("mojoFile"@[0] != "enableSyntheticChildDebugging"@[0]);
    assert("mojoFile"@[0] != "enableAutoVariableSummaries"@[0]);
    assert("mojoFile"@[0] != "commandEscapePrefix"@[0]);
    assert("mojoFile"@[0] != "initCommands"@[0]);
    assert(lookup(after@, "request"@) == lookup(before@, "request"@));
    assert(lookup(after@, "mojoFile"@) == lookup(before@, "mojoFile"@));
}

/// Once a configuration points at its built binary it asks for no further
/// build, and it still makes the same request.
pub proof fn law_built_configuration_builds_nothing(
    before: Vec<(String, JsonValue)>,
    after: Vec<(String, JsonValue)>,
    binary: Seq<char>,
)
    requires
        source_built(before@, after@, binary),
    ensures
        spec_source_debug_file(JsonValue::Object(after)) == Ok::<Option<Seq<char>>, Seq<char>>(None),
        spec_request_kind(JsonValue::Object(after)) == spec_request_kind(JsonValue::Object(before)),
{
    lemma_member_keys_distinct();
    assert(lookup(after@, "request"@) == lookup(before@, "request"@));
}

/// After the SDK home of an environment is set, it reads back as the value
/// set, and every other variable reads as before.
pub proof fn law_set_home_read_back(envs: Seq<(Seq<char>, Seq<char>)>, key: Seq<char>, value: Seq<char>, other: Seq<char>)
    requires
        other != key,
    ensures
        pair_lookup(set_first(envs, key, value), key) == Some(value),
        pair_lookup(set_first(envs, key, value), other) == pair_lookup(envs, other),
    decreases envs.len(),
{
    if envs.len() == 0 {
        assert(seq![(key, value)].drop_first() =~= envs);
    } else {
        if envs[0].0 != key {
            law_set_home_read_back(envs.drop_first(), key, value, other);
            assert((seq![envs[0]] + set_first(envs.drop_first(), key, value)).drop_first()
                =~= set_first(envs.drop_first(), key, value));
        } else {
            assert(envs.update(0, (key, value)).drop_first() =~= envs.drop_first());
        }
    }
}

/// The language server and compiler come from the root Pixi project's
/// default environment whenever it has them, else from the root `.venv`
/// whenever it has them, and only otherwise from the shell `PATH`.
pub proof fn law_discovery_order(worktree: WorktreeFacts, command: Seq<char>)
    ensures
        worktree.spec_is_pixi_project() && worktree.spec_project_binary(".pixi/envs/default"@, command) is Some
            ==> worktree.spec_find_command(command) is Some && (worktree.spec_find_command(command)->0).0
            == worktree.spec_project_binary(".pixi/envs/default"@, command)->0,
        !(worktree.spec_is_pixi_project() && worktree.spec_project_binary(".pixi/envs/default"@, command) is Some)
            && worktree.spec_project_binary(".venv"@, command) is Some
            ==> worktree.spec_find_command(command) is Some && (worktree.spec_find_command(command)->0).0
            == worktree.spec_project_binary(".venv"@, command)->0,
        worktree.spec_find_command(command) is None ==> worktree.spec_which(command) is None,
{
}

proof fn lemma_in_concat(a: Seq<Seq<char>>, b: Seq<Seq<char>>, x: Seq<char>)
    ensures
        a.contains(x) ==> (a + b).contains(x),
        b.contains(x) ==> (a + b).contains(x),
{
    if a.contains(x) {
        let i = choose|i: int| 0 <= i < a.len() && a[i] == x;
        assert((a + b)[i] == x);
    }
    if b.contains(x) {
        let j = choose|j: int| 0 <= j < b.len() && b[j] == x;
        assert((a + b)[a.len() + j] == x);
    }
}

proof fn lemma_in_parts(
    fixed: Seq<Seq<char>>,
    a: Seq<Seq<char>>,
    b: Seq<Seq<char>>,
    c: Seq<Seq<char>>,
    d: Seq<Seq<char>>,
    x: Seq<char>,
)
    requires
        (a.len() > 0 && a[0] == x) || (b.len() > 0 && b[0] == x) || (c.len() > 0 && c[0] == x) || (d.len()
            > 0 && d[0] == x),
    ensures
        (fixed + a + b + c + d).contains(x),
{
    if a.len() > 0 && a[0] == x {
        assert(a.contains(x));
    }
    if b.len() > 0 && b[0] == x {
        assert(b.contains(x));
    }
    if c.len() > 0 && c[0] == x {
        assert(c.contains(x));
    }
    if d.len() > 0 && d[0] == x {
        assert(d.contains(x));
    }
    lemma_in_concat(fixed, a, x);
    lemma_in_concat(fixed + a, b, x);
    lemma_in_concat(fixed + a + b, c, x);
    lemma_in_concat(fixed + a + b + c, d, x);
}

/// Answering the look-ups that `discovery_queries` lists is enough: two
/// worktrees with the same root, platform, shell environment and files whose
/// answers agree on those look-ups find the same language server, compiler
/// and debug adapter.
pub proof fn law_queries_decide_discovery(w1: WorktreeFacts, w2: WorktreeFacts)
    requires
        w1.root_path@ == w2.root_path@,
        w1.os == w2.os,
        pairs(w1.shell_env@) == pairs(w2.shell_env@),
        pairs(w1.files@) == pairs(w2.files@),
        forall|q: Seq<char>| #[trigger] w1.spec_discovery_queries().contains(q) ==> w1.spec_which(q) == w2.spec_which(q),
    ensures
        w1.spec_find_command(LSP_BINARY@) == w2.spec_find_command(LSP_BINARY@),
        w1.spec_find_command("mojo"@) == w2.spec_find_command("mojo"@),
        w1.spec_find_debug_adapter() == w2.spec_find_debug_adapter(),
{
    let q = w1.spec_discovery_queries();
    let pixi = spec_environment_root(w1.root_path@, ".pixi/envs/default"@);
    let venv = spec_environment_root(w1.root_path@, ".venv"@);
    let fixed = seq![
        spec_environment_binary(w1.os, pixi, LSP_BINARY@),
        spec_environment_binary(w1.os, venv, LSP_BINARY@),
        spec_environment_binary(w1.os, pixi, "mojo"@),
        spec_environment_binary(w1.os, venv, "mojo"@),
        spec_environment_binary(w1.os, pixi, LEGACY_DAP_BINARY@),
        spec_environment_binary(w1.os, venv, LEGACY_DAP_BINARY@),
        spec_environment_binary(w1.os, pixi, "lldb-dap"@),
        spec_environment_binary(w1.os, venv, "lldb-dap"@),
        LSP_BINARY@,
        "mojo"@,
        LEGACY_DAP_BINARY@,
        w1.pixi_sdk_root() + "/lib/libMojoLLDB."@ + spec_library_extension(w1.os),
        w1.pixi_sdk_root() + "/lib/lldb-visualizers/lldbDataFormatters.py"@,
    ];
    let a = match w1.spec_configured("lldb_plugin_path"@) {
        Some(p) => seq![p],
        None => seq![],
    };
    let b = match w1.spec_configured("lldb_visualizers_path"@) {
        Some(p) => seq![p + "/lldbDataFormatters.py"@],
        None => seq![],
    };
    let c = match w1.spec_configured("lldb_vscode_path"@) {
        Some(p) => seq![p],
        None => seq![],
    };
    let d = match w1.spec_which("mojo"@) {
        Some(mojo) => seq![spec_bin_dir(mojo) + "/lldb-dap"@],
        None => seq![],
    };
    assert(q == fixed + a + b + c + d);
    assert forall|k: int| 0 <= k < fixed.len() implies #[trigger] q.contains(fixed[k]) by {
        assert(q[k] == fixed[k]);
    }
    assert forall|k: int| 0 <= k < fixed.len() implies w1.spec_which(#[trigger] fixed[k]) == w2.spec_which(
        fixed[k],
    ) by {
        assert(q.contains(fixed[k]));
    }
    assert forall|path: Seq<char>| #[trigger] w1.spec_read(path) == w2.spec_read(path) by {}
    assert forall|key: Seq<char>| #[trigger] w1.spec_shell_env_value(key) == w2.spec_shell_env_value(key) by {}
    assert forall|key: Seq<char>| #[trigger] w1.spec_configured(key) == w2.spec_configured(key) by {
        assert(w1.spec_read(".pixi/envs/default/share/max/modular.cfg"@) == w2.spec_read(
            ".pixi/envs/default/share/max/modular.cfg"@,
        ));
    }
    // The look-ups that depend on `modular.cfg` and on `mojo`.
    match w1.spec_configured("lldb_plugin_path"@) {
        Some(p) => {
            assert(a[0] == p);
            lemma_in_parts(fixed, a, b, c, d, p);
        },
        None => {},
    }
    match w1.spec_configured("lldb_visualizers_path"@) {
        Some(p) => {
            assert(b[0] == p + "/lldbDataFormatters.py"@);
            lemma_in_parts(fixed, a, b, c, d, p + "/lldbDataFormatters.py"@);
        },
        None => {},
    }
    match w1.spec_configured("lldb_vscode_path"@) {
        Some(p) => {
            assert(c[0] == p);
            lemma_in_parts(fixed, a, b, c, d, p);
        },
        None => {},
    }
    match w1.spec_which("mojo"@) {
        Some(mojo) => {
            assert(d[0] == spec_bin_dir(mojo) + "/lldb-dap"@);
            lemma_in_parts(fixed, a, b, c, d, spec_bin_dir(mojo) + "/lldb-dap"@);
        },
        None => {},
    }
    assert(w1.pixi_sdk_root() + "/lib/lldb-visualizers"@ + "/lldbDataFormatters.py"@ =~= fixed[12]) by {
        reveal_strlit("/lib/lldb-visualizers");
        reveal_strlit("/lldbDataFormatters.py");
        reveal_strlit("/lib/lldb-visualizers/lldbDataFormatters.py");
    }
    assert(w1.spec_derived_visualizers() == w2.spec_derived_visualizers());
    assert(w1.spec_configured_plugin() == w2.spec_configured_plugin());
    assert(w1.spec_configured_visualizers() == w2.spec_configured_visualizers());
    assert(w1.spec_pixi_plugin() == w2.spec_pixi_plugin());
    assert(w1.spec_pixi_visualizers() == w2.spec_pixi_visualizers());
    assert(w1.spec_is_pixi_project() == w2.spec_is_pixi_project());
    assert(w1.spec_pixi_sdk_env() == w2.spec_pixi_sdk_env());
    assert(w1.spec_venv_sdk_env() == w2.spec_venv_sdk_env());
    assert(w1.spec_pixi_debug_adapter() == w2.spec_pixi_debug_adapter());
    assert(w1.spec_venv_debug_adapter() == w2.spec_venv_debug_adapter());
    assert(w1.spec_path_debug_adapter() == w2.spec_path_debug_adapter());
}

proof fn lemma_lldb_escape_front(s: Seq<char>)
    requires
        s.len() > 0,
    ensures
        lldb_escape(s) == lldb_escape_char(s[0]) + lldb_escape(s.drop_first()),
    decreases s.len(),
{
    if s.len() == 1 {
        assert(lldb_escape(s.drop_last()) =~= Seq::<char>::empty());
        assert(lldb_escape(s.drop_first()) =~= Seq::<char>::empty());
        assert(s.last() == s[0]);
        assert(lldb_escape(s) =~= lldb_escape_char(s[0]));
        assert(lldb_escape_char(s[0]) + lldb_escape(s.drop_first()) =~= lldb_escape_char(s[0]));
    } else {
        let d = s.drop_last();
        lemma_lldb_escape_front(d);
        assert(d.drop_first() =~= s.drop_first().drop_last());
        assert(s.drop_first().last() == s.last());
        assert(d[0] == s[0]);
        assert(lldb_escape(s) =~= lldb_escape_char(s[0]) + lldb_escape(s.drop_first()));
    }
}

/// Writing a path for LLDB loses nothing: reading the escaped text left to
/// right gives the path back, every quote in it is escaped, and it is longer
/// by one character for each backslash and each quote of the path.
pub proof fn law_lldb_escape_reads_back(s: Seq<char>)
    ensures
        lldb_unescape(lldb_escape(s)) == s,
        quotes_escaped(lldb_escape(s)),
        lldb_escape(s).len() == s.len() + count_char(s, '\\') + count_char(s, '\''),
    decreases s.len(),
{
    if s.len() > 0 {
        let rest = s.drop_first();
        law_lldb_escape_reads_back(rest);
        law_lldb_escape_reads_back(s.drop_last());
        lemma_lldb_escape_front(s);
        let c = s[0];
        let t = lldb_escape(s);
        let tail = lldb_escape(rest);
        if c == '\\' || c == '\'' {
            assert(t =~= seq!['\\', c] + tail);
            assert(t.skip(2) =~= tail);
        } else {
            assert(t =~= seq![c] + tail);
            assert(t.skip(1) =~= tail);
        }
        assert(seq![c] + rest =~= s);
    } else {
        assert(lldb_escape(s) =~= Seq::<char>::empty());
    }
}

/// Setting the debugger up puts the Mojo commands first in `initCommands`,
/// in their order, and the user's own commands after them, all of them kept.
pub proof fn law_mojo_commands_first(
    before: Vec<(String, JsonValue)>,
    after: Vec<(String, JsonValue)>,
    commands: Seq<Seq<char>>,
)
    requires
        debugger_configured(before@, after@, commands, true),
    ensures
        lookup(after@, "initCommands"@) matches Some(JsonValue::Array(items)) && {
            let user = match lookup(before@, "initCommands"@) {
                Some(JsonValue::Array(u)) => u@,
                _ => Seq::<JsonValue>::empty(),
            };
            &&& items@.len() == commands.len() + user.len()
            &&& forall|i: int|
                0 <= i < commands.len() ==> (#[trigger] items@[i] matches JsonValue::Str(t) && t@
                    == commands[i])
            &&& forall|j: int| 0 <= j < user.len() ==> #[trigger] items@[commands.len() + j] == user[j]
        },
{
    match lookup(before@, "initCommands"@) {
        Some(JsonValue::Array(u)) => {
            let items = lookup(after@, "initCommands"@)->0->Array_0@;
            assert forall|i: int| 0 <= i < commands.len() implies (#[trigger] items[i] matches JsonValue::Str(
                t,
            ) && t@ == commands[i]) by {
                assert(items.take(commands.len() as int)[i] == items[i]);
            }
            assert forall|j: int| 0 <= j < u@.len() implies #[trigger] items[commands.len() + j] == u@[j] by {
                assert(items.skip(commands.len() as int)[j] == items[commands.len() + j]);
            }
        },
        _ => {},
    }
}

/// Each of Zed's current-file variables, standing first among the arguments
/// of a recognised `mojo run`, is the task's source: nothing is built with
/// options before it, and everything after it goes to the program.
pub proof fn law_file_variables_are_sources(
    command: Seq<char>,
    args: Seq<Seq<char>>,
    variable: Seq<char>,
    rest: Seq<Seq<char>>,
)
    requires
        variable == "$ZED_FILE"@ || variable == "${ZED_FILE}"@ || variable == "$ZED_RELATIVE_FILE"@
            || variable == "${ZED_RELATIVE_FILE}"@,
        spec_run_args(command, args) == Some(seq![variable] + rest),
    ensures
        spec_is_zed_file_variable(variable),
        spec_task_source_argument(variable) == Some(variable),
        spec_task_mojo_run(command, args) == Some((variable, Seq::<Seq<char>>::empty(), rest)),
{
    reveal_strlit("$ZED_FILE");
    reveal_strlit("${ZED_FILE}");
    reveal_strlit("$ZED_RELATIVE_FILE");
    reveal_strlit("${ZED_RELATIVE_FILE}");
    let q = CharClass::Only('"');
    assert(variable[0] == '$');
    assert(variable.last() != '"');
    assert(trim_start_by(variable, q) == variable);
    assert(trim_end_by(variable, q) == variable);
    assert(trim_by(variable, q) == variable);
    let run = seq![variable] + rest;
    assert(run[0] == variable);
    assert(run.take(0) =~= Seq::<Seq<char>>::empty());
    assert(run.skip(1) =~= rest);
    assert(filter_build_args(Seq::<Seq<char>>::empty()) == Seq::<Seq<char>>::empty());
}

/// A user's adapter path replaces only the command of the discovered
/// adapter: its environment, plugin and data formatters stay. Without a user
/// path the discovered adapter is taken as it is; without one discovered,
/// the user's path runs bare.
pub proof fn law_user_adapter_path_keeps_discovery(
    discovered: Option<(Seq<char>, Seq<(Seq<char>, Seq<char>)>, Option<Seq<char>>, Option<Seq<char>>)>,
    user_path: Option<Seq<char>>,
)
    ensures
        discovered is Some && user_path is Some ==> (spec_selected_adapter(discovered, user_path) matches Some(
            a,
        ) && a.0 == user_path->0 && a.1 == (discovered->0).1 && a.2 == (discovered->0).2 && a.3
            == (discovered->0).3),
        user_path is None ==> spec_selected_adapter(discovered, user_path) == discovered,
        (discovered is None && user_path is Some) ==> spec_selected_adapter(discovered, user_path) == Some(
            (user_path->0, Seq::<(Seq<char>, Seq<char>)>::empty(), None::<Seq<char>>, None::<Seq<char>>),
        ),
{
}

proof fn lemma_last_value_concat(a: Seq<(Seq<char>, Seq<char>)>, b: Seq<(Seq<char>, Seq<char>)>, k: Seq<char>)
    ensures
        last_value(a + b, k) == match last_value(b, k) {
            Some(v) => Some(v),
            None => last_value(a, k),
        },
    decreases b.len(),
{
    if b.len() == 0 {
        assert(a + b =~= a);
    } else {
        lemma_last_value_concat(a, b.drop_last(), k);
        assert((a + b).drop_last() =~= a + b.drop_last());
        assert((a + b).last() == b.last());
    }
}

/// The environment that a source build runs in gives each variable the
/// configuration's value if it sets one, else the value of the compiler's
/// SDK environment, else the shell's: the last pair of a variable is the one
/// that applies.
pub proof fn law_build_environment_precedence(
    worktree: WorktreeFacts,
    build: SourceBuild,
    source: Seq<char>,
    binary: Seq<char>,
    k: Seq<char>,
)
    ensures
        last_value(spec_build_plan(worktree, build, source, binary).2, k) == match last_value(
            pairs(build.env@),
            k,
        ) {
            Some(v) => Some(v),
            None => match last_value(pairs(build.mojo.envs@), k) {
                Some(v) => Some(v),
                None => last_value(pairs(worktree.shell_env@), k),
            },
        },
{
    let shell = pairs(worktree.shell_env@);
    let sdk = pairs(build.mojo.envs@);
    let config = pairs(build.env@);
    lemma_last_value_concat(shell + sdk, config, k);
    lemma_last_value_concat(shell, sdk, k);
}

/// The `.venv` SDK environment names the Mojo plugin with the platform's
/// shared-library extension, `dylib` on macOS and `so` elsewhere, whenever
/// the `.venv` names its Python version; the `.venv` adapter loads that
/// plugin.
pub proof fn law_venv_plugin_extension(worktree: WorktreeFacts)
    ensures
        worktree.spec_python_version() is Some ==> pair_lookup(
            worktree.spec_venv_sdk_env(),
            "MODULAR_MOJO_MAX_LLDB_PLUGIN_PATH"@,
        ) is Some,
        pair_lookup(worktree.spec_venv_sdk_env(), "MODULAR_MOJO_MAX_LLDB_PLUGIN_PATH"@) matches Some(v) ==> ends_with(
            v,
            if worktree.os == Os::Mac {
                "/libMojoLLDB.dylib"@
            } else {
                "/libMojoLLDB.so"@
            },
        ),
        worktree.spec_venv_debug_adapter() matches Some(a) ==> a.2 == pair_lookup(
            worktree.spec_venv_sdk_env(),
            "MODULAR_MOJO_MAX_LLDB_PLUGIN_PATH"@,
        ),
{
    match worktree.spec_python_version() {
        Some(version) => {
            reveal_strlit("/libMojoLLDB.");
            reveal_strlit("dylib");
            reveal_strlit("so");
            reveal_strlit("/libMojoLLDB.dylib");
            reveal_strlit("/libMojoLLDB.so");
            let lib = worktree.root_path@ + "/.venv/lib/python"@ + version + "/site-packages/modular/lib"@;
            let ext = spec_library_extension(worktree.os);
            let v = lib + "/libMojoLLDB."@ + ext;
            let suffix = if worktree.os == Os::Mac {
                "/libMojoLLDB.dylib"@
            } else {
                "/libMojoLLDB.so"@
            };
            assert("/libMojoLLDB."@ + ext =~= suffix);
            assert(v == lib + suffix);
            assert(v.skip(v.len() - suffix.len()) =~= suffix);
            assert(worktree.spec_venv_sdk_env()[0] == (PLUGIN_PATH_VARIABLE@, v));
            assert(PLUGIN_PATH_VARIABLE@ == "MODULAR_MOJO_MAX_LLDB_PLUGIN_PATH"@);
        },
        None => {
            assert(worktree.spec_venv_sdk_env() =~= Seq::<(Seq<char>, Seq<char>)>::empty());
        },
    }
}

/// A root Pixi project whose `modular.cfg` names no plugin or adapter that
/// resolves still debugs with its SDK's own plugin: when the SDK holds
/// `lib/libMojoLLDB.<dylib or so>` and `mojo-lldb-dap`, the debug adapter
/// found is that `mojo-lldb-dap`, loading that plugin, with the plugin named
/// in its environment.
pub proof fn law_pixi_sdk_plugin_is_used(worktree: WorktreeFacts, plugin: Seq<char>, dap: Seq<char>)
    requires
        worktree.spec_read("pixi.toml"@) is Some,
        match worktree.spec_read(".pixi/envs/default/share/max/modular.cfg"@) {
            Some(c) => {
                &&& spec_config_value(c, "mojo-max"@, "lldb_plugin_path"@) matches Some(p) ==> worktree.spec_which(p)
                    is None
                &&& spec_config_value(c, "mojo-max"@, "lldb_vscode_path"@) matches Some(p) ==> worktree.spec_which(p)
                    is None
            },
            None => true,
        },
        worktree.spec_which(
            worktree.root_path@ + "/.pixi/envs/default/lib/libMojoLLDB."@ + if worktree.os == Os::Mac {
                "dylib"@
            } else {
                "so"@
            },
        ) == Some(plugin),
        worktree.spec_project_binary(".pixi/envs/default"@, "mojo-lldb-dap"@) == Some(dap),
    ensures
        worktree.spec_find_debug_adapter() matches Some(a) && a.0 == dap && a.2 == Some(plugin) && pair_lookup(
            a.1,
            "MODULAR_MOJO_MAX_LLDB_PLUGIN_PATH"@,
        ) == Some(plugin),
        pair_lookup(worktree.spec_pixi_sdk_env(), "MODULAR_MOJO_MAX_LLDB_PLUGIN_PATH"@) == Some(plugin),
{
    reveal_strlit("/.pixi/envs/default");
    reveal_strlit("/lib/libMojoLLDB.");
    reveal_strlit("/.pixi/envs/default/lib/libMojoLLDB.");
    reveal_strlit("dylib");
    reveal_strlit("so");
    reveal_strlit("MODULAR_HOME");
    reveal_strlit("CONDA_PREFIX");
    reveal_strlit("PATH");
    reveal_strlit("MODULAR_MOJO_MAX_LLDB_PLUGIN_PATH");
    reveal_strlit("mojo-lldb-dap");
    assert(worktree.pixi_sdk_root() + "/lib/libMojoLLDB."@ + spec_library_extension(worktree.os)
        =~= worktree.root_path@ + "/.pixi/envs/default/lib/libMojoLLDB."@ + if worktree.os == Os::Mac {
        "dylib"@
    } else {
        "so"@
    });
    assert(worktree.spec_derived_plugin() == Some(plugin));
    assert(worktree.spec_configured_plugin() is None);
    assert(worktree.spec_pixi_plugin() == Some(plugin));
    assert(LEGACY_DAP_BINARY@ == "mojo-lldb-dap"@);
    assert(worktree.spec_is_pixi_project());
    let env = worktree.spec_pixi_sdk_env();
    assert(PLUGIN_PATH_VARIABLE@ == "MODULAR_MOJO_MAX_LLDB_PLUGIN_PATH"@);
    assert("MODULAR_HOME"@ != "MODULAR_MOJO_MAX_LLDB_PLUGIN_PATH"@) by {
        assert("MODULAR_HOME"@.len() != "MODULAR_MOJO_MAX_LLDB_PLUGIN_PATH"@.len());
    }
    assert("CONDA_PREFIX"@[0] != "MODULAR_MOJO_MAX_LLDB_PLUGIN_PATH"@[0]);
    assert("PATH"@[0] != "MODULAR_MOJO_MAX_LLDB_PLUGIN_PATH"@[0]);
    let k = "MODULAR_MOJO_MAX_LLDB_PLUGIN_PATH"@;
    let e1 = env.drop_first();
    let e2 = e1.drop_first();
    let e3 = e2.drop_first();
    assert(env[0].0 == "MODULAR_HOME"@);
    assert(e1[0].0 == "CONDA_PREFIX"@);
    assert(e2[0].0 == "PATH"@);
    assert(e3[0] == (PLUGIN_PATH_VARIABLE@, plugin));
    assert(pair_lookup(e3, k) == Some(plugin));
    assert(pair_lookup(e2, k) == Some(plugin));
    assert(pair_lookup(e1, k) == Some(plugin));
    assert(pair_lookup(env, k) == Some(plugin));
    assert(worktree.spec_pixi_debug_adapter() is Some);
}

} // verus!
