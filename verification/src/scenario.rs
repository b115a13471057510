//! Debug scenarios: turning Zed's launch and attach dialogs, and `mojo run`
//! tasks, into configurations for the Mojo debug adapter.

use vstd::prelude::*;

use crate::args::{spec_is_mojo_source, spec_task_mojo_run, TaskTemplate};
use crate::debug::unsupported_adapter_message;
use crate::extension::MojoExtension;
use crate::json::{are_strs, keys_unique, lookup, object_insert, JsonNumber, JsonValue};
use crate::text::{pairs, str_eq, views};

verus! {

/// Launching a program under the debugger.
#[derive(Clone, Debug)]
pub struct LaunchRequest {
    pub program: String,
    pub cwd: Option<String>,
    pub args: Vec<String>,
    pub envs: Vec<(String, String)>,
}

/// Attaching the debugger to a running process.
#[derive(Clone, Debug)]
pub struct AttachRequest {
    pub process_id: Option<u32>,
}

/// What a debug session is to do.
#[derive(Clone, Debug)]
pub enum DebugRequest {
    Launch(LaunchRequest),
    Attach(AttachRequest),
}

/// A debug session as Zed's new-session dialog describes it.
#[derive(Clone, Debug)]
pub struct DebugConfig {
    pub label: String,
    pub adapter: String,
    pub request: DebugRequest,
    pub stop_on_entry: Option<bool>,
}

/// A debug scenario for an adapter: its label and its configuration. It
/// carries no build task and no TCP connection.
#[derive(Debug)]
pub struct DebugScenario {
    pub adapter: String,
    pub label: String,
    pub config: JsonValue,
}

/// The value that the last pair with key `k` gives it.
pub open spec fn last_value(env: Seq<(Seq<char>, Seq<char>)>, k: Seq<char>) -> Option<Seq<char>>
    decreases env.len(),
{
    if env.len() == 0 {
        None
    } else if env.last().0 == k {
        Some(env.last().1)
    } else {
        last_value(env.drop_last(), k)
    }
}

/// An object with a string member for each variable of `env`, the last value
/// of a variable winning, and no other member.
pub open spec fn is_env_object(members: Seq<(String, JsonValue)>, env: Seq<(Seq<char>, Seq<char>)>) -> bool {
    &&& keys_unique(members)
    &&& forall|k: Seq<char>|
        match last_value(env, k) {
            Some(v) => #[trigger] lookup(members, k) matches Some(JsonValue::Str(s)) && s@ == v,
            None => lookup(members, k) is None,
        }
}

/// A member that holds the strings `texts` if there are any, and is absent
/// otherwise.
pub open spec fn strs_member(member: Option<JsonValue>, texts: Seq<Seq<char>>) -> bool {
    if texts.len() == 0 {
        member is None
    } else {
        member matches Some(JsonValue::Array(items)) && are_strs(items@, texts)
    }
}

/// A member that holds the string `text` if there is one, and is absent
/// otherwise.
pub open spec fn str_member(member: Option<JsonValue>, text: Option<Seq<char>>) -> bool {
    match text {
        Some(t) => member matches Some(JsonValue::Str(s)) && s@ == t,
        None => member is None,
    }
}

/// A member that holds the environment `env` if it sets any variable, and is
/// absent otherwise.
pub open spec fn env_member(member: Option<JsonValue>, env: Seq<(Seq<char>, Seq<char>)>) -> bool {
    if env.len() == 0 {
        member is None
    } else {
        member matches Some(JsonValue::Object(m)) && is_env_object(m@, env)
    }
}

/// The members that a scenario from the launch dialog can set.
pub open spec fn is_launch_key(k: Seq<char>) -> bool {
    ||| k == "request"@
    ||| k == "mojoFile"@
    ||| k == "program"@
    ||| k == "args"@
    ||| k == "env"@
    ||| k == "stopOnEntry"@
    ||| k == "cwd"@
}

/// The adapter configuration for a launch from Zed's dialog: a Mojo source
/// goes in `mojoFile` (to be built first), any other program in `program`;
/// arguments, environment, stop-on-entry and working directory where given.
pub open spec fn is_launch_config(
    members: Seq<(String, JsonValue)>,
    launch: LaunchRequest,
    stop_on_entry: Option<bool>,
) -> bool {
    let program = launch.program@;
    &&& keys_unique(members)
    &&& str_member(lookup(members, "request"@), Some("launch"@))
    &&& str_member(
        lookup(members, "mojoFile"@),
        if program.len() > 0 && spec_is_mojo_source(program) {
            Some(program)
        } else {
            None
        },
    )
    &&& str_member(
        lookup(members, "program"@),
        if program.len() > 0 && !spec_is_mojo_source(program) {
            Some(program)
        } else {
            None
        },
    )
    &&& strs_member(lookup(members, "args"@), views(launch.args@))
    &&& env_member(lookup(members, "env"@), pairs(launch.envs@))
    &&& lookup(members, "stopOnEntry"@) == match stop_on_entry {
        Some(b) => Some(JsonValue::Bool(b)),
        None => None,
    }
    &&& str_member(
        lookup(members, "cwd"@),
        match launch.cwd {
            Some(c) => Some(c@),
            None => None,
        },
    )
    &&& forall|k: Seq<char>| !is_launch_key(k) ==> #[trigger] lookup(members, k) is None
}

/// The adapter configuration for attaching from Zed's dialog: the process id
/// where one was chosen.
pub open spec fn is_attach_config(members: Seq<(String, JsonValue)>, attach: AttachRequest) -> bool {
    &&& keys_unique(members)
    &&& str_member(lookup(members, "request"@), Some("attach"@))
    &&& lookup(members, "pid"@) == match attach.process_id {
        Some(pid) => Some(JsonValue::Number(JsonNumber::PosInt(pid as u64))),
        None => None,
    }
    &&& forall|k: Seq<char>|
        k != "request"@ && k != "pid"@ ==> #[trigger] lookup(members, k) is None
}

/// The members that a scenario from a run task can set.
pub open spec fn is_locator_key(k: Seq<char>) -> bool {
    ||| k == "request"@
    ||| k == "mojoFile"@
    ||| k == "buildArgs"@
    ||| k == "args"@
    ||| k == "cwd"@
    ||| k == "env"@
}

/// The adapter configuration for debugging a `mojo run` task: launch the
/// task's source after a build with the task's compiler options, with the
/// task's program arguments, working directory and environment.
pub open spec fn is_locator_config(
    members: Seq<(String, JsonValue)>,
    task: TaskTemplate,
    run: (Seq<char>, Seq<Seq<char>>, Seq<Seq<char>>),
) -> bool {
    &&& keys_unique(members)
    &&& str_member(lookup(members, "request"@), Some("launch"@))
    &&& str_member(lookup(members, "mojoFile"@), Some(run.0))
    &&& strs_member(lookup(members, "buildArgs"@), run.1)
    &&& strs_member(lookup(members, "args"@), run.2)
    &&& str_member(
        lookup(members, "cwd"@),
        match task.cwd {
            Some(c) => Some(c@),
            None => None,
        },
    )
    &&& env_member(lookup(members, "env"@), pairs(task.env@))
    &&& forall|k: Seq<char>| !is_locator_key(k) ==> #[trigger] lookup(members, k) is None
}

/// The member keys of the configurations written here differ from each
/// other.
pub proof fn lemma_member_keys_distinct()
    ensures
        "request"@ != "mojoFile"@,
        "request"@ != "program"@,
        "request"@ != "args"@,
        "request"@ != "env"@,
        "request"@ != "stopOnEntry"@,
        "request"@ != "cwd"@,
        "request"@ != "pid"@,
        "request"@ != "buildArgs"@,
        "mojoFile"@ != "program"@,
        "mojoFile"@ != "args"@,
        "mojoFile"@ != "env"@,
        "mojoFile"@ != "stopOnEntry"@,
        "mojoFile"@ != "cwd"@,
        "mojoFile"@ != "buildArgs"@,
        "program"@ != "args"@,
        "program"@ != "env"@,
        "program"@ != "stopOnEntry"@,
        "program"@ != "cwd"@,
        "program"@ != "buildArgs"@,
        "args"@ != "env"@,
        "args"@ != "stopOnEntry"@,
        "args"@ != "cwd"@,
        "args"@ != "buildArgs"@,
        "env"@ != "stopOnEntry"@,
        "env"@ != "cwd"@,
        "env"@ != "buildArgs"@,
        "stopOnEntry"@ != "cwd"@,
        "cwd"@ != "buildArgs"@,
{
    reveal_strlit("request");
    reveal_strlit("mojoFile");
    reveal_strlit("program");
    reveal_strlit("args");
    reveal_strlit("env");
    reveal_strlit("stopOnEntry");
    reveal_strlit("cwd");
    reveal_strlit("pid");
    reveal_strlit("buildArgs");
    assert("request"@[0] == 'r');
    assert("mojoFile"@[0] == 'm');
    assert("program"@[0] == 'p');
    assert("args"@[0] == 'a');
    assert("env"@[0] == 'e');
    assert("stopOnEntry"@[0] == 's');
    assert("cwd"@[0] == 'c');
    assert("pid"@[0] == 'p');
    assert("buildArgs"@[0] == 'b');
}

impl MojoExtension {
    /// An object with a string member for each variable of `env`.
    pub fn env_object(env: &Vec<(String, String)>) -> (r: Vec<(String, JsonValue)>)
        ensures
            is_env_object(r@, pairs(env@)),
    {
        let ghost all = pairs(env@);
        let mut members: Vec<(String, JsonValue)> = Vec::new();
        let n = env.len();
        let mut i: usize = 0;
        while i < n
            invariant
                i <= n,
                n == env@.len(),
                all == pairs(env@),
                is_env_object(members@, all.take(i as int)),
            decreases n - i,
        {
            let ghost before = members@;
            let key = env[i].0.clone();
            let value = env[i].1.clone();
            let ghost key_view = key@;
            let ghost value_view = value@;
            assert(all[i as int] == (key_view, value_view));
            object_insert(&mut members, key, JsonValue::Str(value));
            assert(all.take(i + 1).drop_last() =~= all.take(i as int));
            assert forall|k: Seq<char>|
                match last_value(all.take(i + 1), k) {
                    Some(v) => #[trigger] lookup(members@, k) matches Some(JsonValue::Str(s)) && s@
                        == v,
                    None => lookup(members@, k) is None,
                } by {
                assert(lookup(before, k) == lookup(before, k));
            }
            i += 1;
        }
        assert(all.take(n as int) =~= all);
        members
    }

    fn str_array(items: &Vec<String>) -> (r: Vec<JsonValue>)
        ensures
            are_strs(r@, views(items@)),
    {
        let mut r: Vec<JsonValue> = Vec::new();
        let n = items.len();
        let mut i: usize = 0;
        while i < n
            invariant
                i <= n,
                n == items@.len(),
                are_strs(r@, views(items@).take(i as int)),
            decreases n - i,
        {
            let s = items[i].clone();
            assert(s@ == views(items@)[i as int]);
            r.push(JsonValue::Str(s));
            assert(views(items@).take(i + 1) =~= views(items@).take(i as int).push(s@));
            i += 1;
        }
        assert(views(items@).take(n as int) =~= views(items@));
        r
    }

    /// The adapter configuration for a session from Zed's new-session dialog.
    pub fn dap_config_to_scenario(config: DebugConfig) -> (r: Result<DebugScenario, String>)
        ensures
            config.adapter@ != "mojo-lldb"@ ==> (r matches Err(e) && e@
                == unsupported_adapter_message(config.adapter@)),
            config.adapter@ == "mojo-lldb"@ ==> (r matches Ok(scenario) && scenario.adapter@
                == config.adapter@ && scenario.label@ == config.label@ && (scenario.config matches JsonValue::Object(
                m,
            ) && match config.request {
                DebugRequest::Launch(launch) => is_launch_config(m@, launch, config.stop_on_entry),
                DebugRequest::Attach(attach) => is_attach_config(m@, attach),
            })),
    {
        match Self::validate_debug_adapter(config.adapter.as_str()) {
            Ok(()) => {},
            Err(e) => return Err(e),
        }
        proof {
            lemma_member_keys_distinct();
        }
        let mut members: Vec<(String, JsonValue)> = Vec::new();
        let DebugConfig { label, adapter, request, stop_on_entry } = config;
        match request {
            DebugRequest::Attach(attach) => {
                object_insert(
                    &mut members,
                    String::from_str("request"),
                    JsonValue::Str(String::from_str("attach")),
                );
                match attach.process_id {
                    Some(pid) => {
                        object_insert(
                            &mut members,
                            String::from_str("pid"),
                            JsonValue::Number(JsonNumber::PosInt(pid as u64)),
                        );
                    },
                    None => {},
                }
            },
            DebugRequest::Launch(launch) => {
                object_insert(
                    &mut members,
                    String::from_str("request"),
                    JsonValue::Str(String::from_str("launch")),
                );
                if launch.program.as_str().unicode_len() > 0 {
                    let key = if Self::is_mojo_source(launch.program.as_str()) {
                        String::from_str("mojoFile")
                    } else {
                        String::from_str("program")
                    };
                    object_insert(&mut members, key, JsonValue::Str(launch.program.clone()));
                }
                if launch.args.len() > 0 {
                    object_insert(
                        &mut members,
                        String::from_str("args"),
                        JsonValue::Array(Self::str_array(&launch.args)),
                    );
                }
                if launch.envs.len() > 0 {
                    object_insert(
                        &mut members,
                        String::from_str("env"),
                        JsonValue::Object(Self::env_object(&launch.envs)),
                    );
                }
                match stop_on_entry {
                    Some(b) => {
                        object_insert(&mut members, String::from_str("stopOnEntry"), JsonValue::Bool(b));
                    },
                    None => {},
                }
                match &launch.cwd {
                    Some(cwd) => {
                        object_insert(&mut members, String::from_str("cwd"), JsonValue::Str(cwd.clone()));
                    },
                    None => {},
                }
            },
        }
        Ok(DebugScenario { adapter, label, config: JsonValue::Object(members) })
    }

    /// The debug scenario for a `mojo run` task, if `locator_name` is this
    /// extension's locator, `debug_adapter_name` its adapter, and the task a
    /// `mojo run` that names its source.
    pub fn dap_locator_create_scenario(
        locator_name: String,
        task: TaskTemplate,
        resolved_label: String,
        debug_adapter_name: String,
    ) -> (r: Option<DebugScenario>)
        ensures
            match r {
                Some(scenario) => {
                    &&& locator_name@ == "mojo-source"@
                    &&& debug_adapter_name@ == "mojo-lldb"@
                    &&& spec_task_mojo_run(task.command@, views(task.args@)) is Some
                    &&& scenario.adapter@ == debug_adapter_name@
                    &&& scenario.label@ == resolved_label@
                    &&& scenario.config matches JsonValue::Object(m) && is_locator_config(
                        m@,
                        task,
                        spec_task_mojo_run(task.command@, views(task.args@))->0,
                    )
                },
                None => locator_name@ != "mojo-source"@ || debug_adapter_name@ != "mojo-lldb"@
                    || spec_task_mojo_run(task.command@, views(task.args@)) is None,
            },
    {
        if !str_eq(locator_name.as_str(), "mojo-source") || !str_eq(
            debug_adapter_name.as_str(),
            "mojo-lldb",
        ) {
            return None;
        }
        let run = match Self::task_mojo_run(&task) {
            Some(run) => run,
            None => return None,
        };
        proof {
            lemma_member_keys_distinct();
        }
        let mut members: Vec<(String, JsonValue)> = Vec::new();
        object_insert(
            &mut members,
            String::from_str("request"),
            JsonValue::Str(String::from_str("launch")),
        );
        object_insert(&mut members, String::from_str("mojoFile"), JsonValue::Str(run.source));
        if run.build_args.len() > 0 {
            object_insert(
                &mut members,
                String::from_str("buildArgs"),
                JsonValue::Array(Self::str_array(&run.build_args)),
            );
        }
        if run.program_args.len() > 0 {
            object_insert(
                &mut members,
                String::from_str("args"),
                JsonValue::Array(Self::str_array(&run.program_args)),
            );
        }
        match &task.cwd {
            Some(cwd) => {
                object_insert(&mut members, String::from_str("cwd"), JsonValue::Str(cwd.clone()));
            },
            None => {},
        }
        if task.env.len() > 0 {
            object_insert(
                &mut members,
                String::from_str("env"),
                JsonValue::Object(Self::env_object(&task.env)),
            );
        }
        Some(
            DebugScenario {
                adapter: debug_adapter_name,
                label: resolved_label,
                config: JsonValue::Object(members),
            },
        )
    }
}

} // verus!
