//! Debug adapter settings and the debug configuration that is handed to the
//! adapter.

use vstd::prelude::*;

use crate::args::{filter_build_args, lldb_escape};
use crate::extension::MojoExtension;
use crate::json::{
    are_strs, find_member, keys_unique, lemma_lookup_member, lemma_members_well_keyed, lookup, object_insert,
    object_remove, JsonValue,
};
use crate::text::{concat2, concat3, opt_view, pairs, str_eq, views};

verus! {

/// The environment variable through which the Mojo SDK finds its LLDB plugin.
pub const PLUGIN_PATH_VARIABLE: &'static str = "MODULAR_MOJO_MAX_LLDB_PLUGIN_PATH";

/// The environment variable through which the Mojo SDK finds its LLDB data
/// formatters.
pub const VISUALIZERS_PATH_VARIABLE: &'static str = "MODULAR_MOJO_MAX_LLDB_VISUALIZERS_PATH";

/// How to start the debug adapter: its command and environment, and the
/// Mojo LLDB plugin and data formatters that it is to load.
#[derive(Debug, PartialEq, Eq)]
pub struct DebugAdapterSpec {
    pub command: String,
    pub envs: Vec<(String, String)>,
    pub plugin_path: Option<String>,
    pub visualizers_path: Option<String>,
}

/// The environment that tells an adapter where the plugin and the data
/// formatters are.
pub open spec fn adapter_envs(plugin: Option<Seq<char>>, visualizers: Option<Seq<char>>) -> Seq<
    (Seq<char>, Seq<char>),
> {
    (match plugin {
        Some(p) => seq![(PLUGIN_PATH_VARIABLE@, p)],
        None => seq![],
    }) + (match visualizers {
        Some(v) => seq![(VISUALIZERS_PATH_VARIABLE@, v)],
        None => seq![],
    })
}

/// The hexadecimal digit for `d` below 16, in lower case.
pub open spec fn hex_digit(d: u32) -> char {
    if d < 10 {
        (('0' as u32) + d) as char
    } else {
        (('a' as u32) + d - 10) as char
    }
}

/// How a JSON string writes `c`.
pub open spec fn json_escape_char(c: char) -> Seq<char> {
    let u = c as u32;
    if c == '"' {
        seq!['\\', '"']
    } else if c == '\\' {
        seq!['\\', '\\']
    } else if u == 0x08 {
        seq!['\\', 'b']
    } else if u == 0x0c {
        seq!['\\', 'f']
    } else if u == 0x0a {
        seq!['\\', 'n']
    } else if u == 0x0d {
        seq!['\\', 'r']
    } else if u == 0x09 {
        seq!['\\', 't']
    } else if u < 0x20 {
        seq!['\\', 'u', '0', '0', hex_digit(u / 16), hex_digit(u % 16)]
    } else {
        seq![c]
    }
}

/// The characters of `s` as a JSON string writes them.
pub open spec fn json_escape(s: Seq<char>) -> Seq<char>
    decreases s.len(),
{
    if s.len() == 0 {
        seq![]
    } else {
        json_escape(s.drop_last()) + json_escape_char(s.last())
    }
}

/// `s` as a JSON string literal, which is also a Python string literal.
pub open spec fn json_quoted(s: Seq<char>) -> Seq<char> {
    seq!['"'] + json_escape(s) + seq!['"']
}

/// The LLDB commands that set the debugger up for Mojo: load the plugin,
/// show plain hexadecimal values, silence optimization warnings and import
/// the data formatters.
pub open spec fn mojo_init_commands(plugin: Option<Seq<char>>, visualizers: Option<Seq<char>>) -> Seq<
    Seq<char>,
> {
    (match plugin {
        Some(p) => seq!["?!plugin load '"@ + lldb_escape(p) + "'"@],
        None => seq![],
    }) + seq![
        "?settings set target.show-hex-variable-values-with-leading-zeroes false"@,
        "?settings set target.process.optimization-warnings false"@,
    ] + (match visualizers {
        Some(v) => seq![
            "?script import glob, lldb; [lldb.debugger.HandleCommand('command script import ' + repr(file)) for file in glob.glob("@
                + json_quoted(v) + " + '/*')]"@,
        ],
        None => seq![],
    })
}

/// A member that keeps its value if it has one, and otherwise gets one that
/// satisfies `default`.
pub open spec fn kept_or_defaulted(
    before: Option<JsonValue>,
    after: Option<JsonValue>,
    default: spec_fn(JsonValue) -> bool,
) -> bool {
    match before {
        Some(v) => after == Some(v),
        None => after matches Some(d) && default(d),
    }
}

/// The keys of the members that the debugger setup manages.
pub open spec fn is_managed_key(k: Seq<char>) -> bool {
    ||| k == "enableSyntheticChildDebugging"@
    ||| k == "enableAutoVariableSummaries"@
    ||| k == "commandEscapePrefix"@
    ||| k == "initCommands"@
}

/// The members of a debug configuration after the debugger setup, from those
/// before it: the display defaults where the user set none, the Mojo commands
/// first in `initCommands` and the user's commands after them, every other
/// member unchanged. `ok` tells whether the user's `initCommands` was an
/// array; where it was not, it is gone.
pub open spec fn debugger_configured(
    before: Seq<(String, JsonValue)>,
    after: Seq<(String, JsonValue)>,
    commands: Seq<Seq<char>>,
    ok: bool,
) -> bool {
    &&& keys_unique(after)
    &&& kept_or_defaulted(
        lookup(before, "enableSyntheticChildDebugging"@),
        lookup(after, "enableSyntheticChildDebugging"@),
        |d: JsonValue| d == JsonValue::Bool(true),
    )
    &&& kept_or_defaulted(
        lookup(before, "enableAutoVariableSummaries"@),
        lookup(after, "enableAutoVariableSummaries"@),
        |d: JsonValue| d == JsonValue::Bool(true),
    )
    &&& kept_or_defaulted(
        lookup(before, "commandEscapePrefix"@),
        lookup(after, "commandEscapePrefix"@),
        |d: JsonValue| d.spec_as_str() == Some(":"@),
    )
    &&& forall|k: Seq<char>| !is_managed_key(k) ==> #[trigger] lookup(after, k) == lookup(before, k)
    &&& match lookup(before, "initCommands"@) {
        None => ok && (lookup(after, "initCommands"@) matches Some(JsonValue::Array(items))
            && are_strs(items@, commands)),
        Some(JsonValue::Array(user)) => ok && (lookup(after, "initCommands"@) matches Some(
            JsonValue::Array(items),
        ) && items@.len() == commands.len() + user@.len() && are_strs(
            items@.take(commands.len() as int),
            commands,
        ) && items@.skip(commands.len() as int) == user@),
        Some(_) => !ok && lookup(after, "initCommands"@) is None,
    }
}

/// Whether the debug adapter is to launch a new program or attach to a
/// running one.
#[derive(Clone, Copy, Debug, PartialEq, Eq, Structural)]
pub enum DebugRequestKind {
    Launch,
    Attach,
}

/// The kind of request that a configuration's `request` member names.
pub open spec fn spec_request_kind(config: JsonValue) -> Option<DebugRequestKind> {
    match config.spec_get("request"@) {
        Some(v) => match v.spec_as_str() {
            Some(s) => if s == "launch"@ {
                Some(DebugRequestKind::Launch)
            } else if s == "attach"@ {
                Some(DebugRequestKind::Attach)
            } else {
                None
            },
            None => None,
        },
        None => None,
    }
}

/// Every item is a string.
pub open spec fn all_strs(items: Seq<JsonValue>) -> bool {
    forall|i: int| 0 <= i < items.len() ==> #[trigger] items[i] is Str
}

/// The text of a string value, empty for other values.
pub open spec fn str_text(v: JsonValue) -> Seq<char> {
    match v {
        JsonValue::Str(s) => s@,
        _ => seq![],
    }
}

/// The compiler options that a configuration's `buildArgs` lists: none if it
/// has none, one if it is a string, each item if it is an array of strings.
pub open spec fn spec_build_argument_list(config: JsonValue) -> Result<
    Seq<Seq<char>>,
    Seq<char>,
> {
    match config.spec_get("buildArgs"@) {
        None => Ok(seq![]),
        Some(JsonValue::Str(a)) => Ok(seq![a@]),
        Some(JsonValue::Array(items)) => if all_strs(items@) {
            Ok(items@.map_values(|v: JsonValue| str_text(v)))
        } else {
            Err("Every Mojo `buildArgs` entry must be a string"@)
        },
        Some(_) => Err("Mojo `buildArgs` must be a string or array of strings"@),
    }
}

/// The environment that a configuration's `env` object sets, member by
/// member.
pub open spec fn spec_config_environment(config: JsonValue) -> Result<
    Seq<(Seq<char>, Seq<char>)>,
    Seq<char>,
> {
    match config.spec_get("env"@) {
        None => Ok(seq![]),
        Some(JsonValue::Object(members)) => if forall|i: int|
            0 <= i < members@.len() ==> (#[trigger] members@[i]).1 is Str {
            Ok(members@.map_values(|m: (String, JsonValue)| (m.0@, str_text(m.1))))
        } else {
            Err("Every Mojo debug `env` value must be a string"@)
        },
        Some(_) => Err("Mojo debug `env` must be an object of string values"@),
    }
}

/// No two variables of `env` share a name.
pub open spec fn names_distinct(env: Seq<(Seq<char>, Seq<char>)>) -> bool {
    forall|a: int, b: int|
        0 <= a < env.len() && 0 <= b < env.len() && a != b ==> #[trigger] env[a].0 != #[trigger] env[b].0
}

/// The environment of a well-keyed configuration names each variable once.
pub proof fn lemma_environment_names_distinct(config: JsonValue)
    requires
        config.well_keyed(),
    ensures
        spec_config_environment(config) matches Ok(env) ==> names_distinct(env),
{
    match config {
        JsonValue::Object(cm) => {
            lemma_lookup_member(cm@, "env"@);
            lemma_members_well_keyed(cm@);
            match lookup(cm@, "env"@) {
                Some(JsonValue::Object(members)) => {
                    let i = choose|i: int| 0 <= i < cm@.len() && #[trigger] cm@[i].1 == lookup(cm@, "env"@)->0;
                    assert(cm@[i].1.well_keyed());
                    assert(keys_unique(members@));
                    let f = |m: (String, JsonValue)| (m.0@, str_text(m.1));
                    let env = members@.map_values(f);
                    assert forall|a: int, b: int|
                        0 <= a < env.len() && 0 <= b < env.len() && a != b implies #[trigger] env[a].0
                        != #[trigger] env[b].0 by {
                        assert(env[a].0 == members@[a].0@ && env[b].0 == members@[b].0@);
                    }
                },
                _ => {},
            }
        },
        _ => {},
    }
}

/// The directory that a source build runs in: the configuration's `cwd`, an
/// absolute path or one relative to the worktree root, or the root itself.
pub open spec fn spec_build_cwd(root: Seq<char>, config: JsonValue) -> Result<Seq<char>, Seq<char>> {
    match config.spec_get("cwd"@) {
        None => Ok(root),
        Some(JsonValue::Str(cwd)) => if cwd@.len() == 0 {
            Ok(root)
        } else if cwd@[0] == '/' {
            Ok(cwd@)
        } else {
            Ok(root + "/"@ + cwd@)
        },
        Some(_) => Err("Mojo debug `cwd` must be a string"@),
    }
}

/// The error for a debug adapter that this extension does not provide.
pub open spec fn unsupported_adapter_message(name: Seq<char>) -> Seq<char> {
    "Mojo extension does not support debug adapter `"@ + name + "` (supported: `mojo-lldb`)"@
}

/// The error for a language server that this extension does not provide.
pub open spec fn unsupported_server_message(id: Seq<char>) -> Seq<char> {
    "Mojo extension does not support language server `"@ + id + "`"@
}

/// The JSON string literal that `serde_json::to_string` writes for `value`.
/// Its contract states serde_json's escaping of a string: `"` and `\` are
/// escaped with a backslash, the control characters below U+0020 are written
/// as `\b`, `\t`, `\n`, `\f`, `\r` or `\u00xx` with lower-case digits, all
/// other characters as they are, and the whole is put in double quotes.
/// Serializing a string slice into the vector that `to_string` writes to
/// cannot fail.
#[verifier::external_body]
fn serde_json_string(value: &str) -> (r: Option<String>)
    ensures
        r is Some,
        r.unwrap()@ == json_quoted(value@),
{
    zed_extension_api::serde_json::to_string(value).ok()
}

impl MojoExtension {
    /// The settings for a debug adapter that runs `command`, with the
    /// environment that points it at the plugin and the data formatters.
    pub fn debug_adapter_spec(
        command: String,
        plugin_path: Option<String>,
        visualizers_path: Option<String>,
    ) -> (r: DebugAdapterSpec)
        ensures
            r.command@ == command@,
            opt_view(r.plugin_path) == opt_view(plugin_path),
            opt_view(r.visualizers_path) == opt_view(visualizers_path),
            pairs(r.envs@) == adapter_envs(opt_view(plugin_path), opt_view(visualizers_path)),
    {
        let mut envs: Vec<(String, String)> = Vec::new();
        match &plugin_path {
            Some(path) => {
                envs.push((String::from_str(PLUGIN_PATH_VARIABLE), path.clone()));
            },
            None => {},
        }
        let ghost first = pairs(envs@);
        match &visualizers_path {
            Some(path) => {
                envs.push((String::from_str(VISUALIZERS_PATH_VARIABLE), path.clone()));
                assert(pairs(envs@) =~= first.push((VISUALIZERS_PATH_VARIABLE@, path@)));
            },
            None => {},
        }
        assert(pairs(envs@) =~= adapter_envs(opt_view(plugin_path), opt_view(visualizers_path)));
        DebugAdapterSpec { command, envs, plugin_path, visualizers_path }
    }

    /// `value` as a Python string literal, written as a JSON string.
    pub fn quoted_python_string(value: &str) -> (r: String)
        ensures
            r@ == json_quoted(value@),
    {
        match serde_json_string(value) {
            Some(s) => s,
            None => String::from_str("\"\""),
        }
    }

    fn mojo_init_commands(spec: &DebugAdapterSpec) -> (r: Vec<JsonValue>)
        ensures
            are_strs(
                r@,
                mojo_init_commands(opt_view(spec.plugin_path), opt_view(spec.visualizers_path)),
            ),
    {
        let ghost expected = mojo_init_commands(
            opt_view(spec.plugin_path),
            opt_view(spec.visualizers_path),
        );
        let mut commands: Vec<JsonValue> = Vec::new();
        let ghost mut texts: Seq<Seq<char>> = seq![];
        match &spec.plugin_path {
            Some(path) => {
                let quoted = Self::quoted_lldb_path(path.as_str());
                let c = concat3("?!plugin load '", quoted.as_str(), "'");
                proof {
                    texts = texts.push(c@);
                }
                commands.push(JsonValue::Str(c));
            },
            None => {},
        }
        let c = String::from_str("?settings set target.show-hex-variable-values-with-leading-zeroes false");
        proof {
            texts = texts.push(c@);
        }
        commands.push(JsonValue::Str(c));
        let c = String::from_str("?settings set target.process.optimization-warnings false");
        proof {
            texts = texts.push(c@);
        }
        commands.push(JsonValue::Str(c));
        match &spec.visualizers_path {
            Some(path) => {
                let quoted = Self::quoted_python_string(path.as_str());
                let c = concat3(
                    "?script import glob, lldb; [lldb.debugger.HandleCommand('command script import ' + repr(file)) for file in glob.glob(",
                    quoted.as_str(),
                    " + '/*')]",
                );
                proof {
                    texts = texts.push(c@);
                }
                commands.push(JsonValue::Str(c));
            },
            None => {},
        }
        assert(texts =~= expected);
        assert(are_strs(commands@, texts));
        commands
    }

    fn insert_missing(members: &mut Vec<(String, JsonValue)>, key: &str, value: JsonValue)
        requires
            keys_unique(old(members)@),
        ensures
            keys_unique(final(members)@),
            forall|k: Seq<char>|
                #[trigger] lookup(final(members)@, k) == if k == key@ && lookup(
                    old(members)@,
                    k,
                ) is None {
                    Some(value)
                } else {
                    lookup(old(members)@, k)
                },
    {
        match find_member(members, key) {
            Some(_) => {},
            None => object_insert(members, String::from_str(key), value),
        }
    }

    /// Sets a debug configuration up for Mojo: turns on synthetic children
    /// and variable summaries and sets `:` as the command escape prefix where
    /// the user chose nothing, and puts the Mojo LLDB commands (plugin first)
    /// before the user's own `initCommands`.
    pub fn configure_mojo_debugger(config: &mut JsonValue, spec: &DebugAdapterSpec) -> (r: Result<
        (),
        String,
    >)
        requires
            old(config).top_keys_unique(),
        ensures
            match *old(config) {
                JsonValue::Object(before) => *final(config) matches JsonValue::Object(after)
                    && debugger_configured(
                    before@,
                    after@,
                    mojo_init_commands(opt_view(spec.plugin_path), opt_view(spec.visualizers_path)),
                    r is Ok,
                ) && (r matches Err(e) ==> e@ == "Mojo debug `initCommands` must be an array of strings"@),
                _ => *final(config) == *old(config) && (r matches Err(e)
                    && e@ == "Mojo debug configuration must be a JSON object"@),
            },
    {
        match config {
            JsonValue::Object(members) => {
                let ghost before = members@;
                proof {
                    reveal_strlit("enableSyntheticChildDebugging");
                    reveal_strlit("enableAutoVariableSummaries");
                    reveal_strlit("commandEscapePrefix");
                    reveal_strlit("initCommands");
                    assert("enableSyntheticChildDebugging"@[6] != "enableAutoVariableSummaries"@[6]);
                    assert("enableSyntheticChildDebugging"@.len() != "commandEscapePrefix"@.len());
                    assert("enableSyntheticChildDebugging"@ != "initCommands"@);
                    assert("enableAutoVariableSummaries"@ != "commandEscapePrefix"@);
                    assert("enableAutoVariableSummaries"@ != "initCommands"@);
                    assert("commandEscapePrefix"@ != "initCommands"@);
                }
                Self::insert_missing(members, "enableSyntheticChildDebugging", JsonValue::Bool(true));
                Self::insert_missing(members, "enableAutoVariableSummaries", JsonValue::Bool(true));
                Self::insert_missing(
                    members,
                    "commandEscapePrefix",
                    JsonValue::Str(String::from_str(":")),
                );
                let mut commands = Self::mojo_init_commands(spec);
                let ghost ours = commands@;
                let ghost before_init = members@;
                let existing = object_remove(members, "initCommands");
                match existing {
                    Some(JsonValue::Array(mut user)) => {
                        let ghost user_items = user@;
                        commands.append(&mut user);
                        assert(commands@.take(ours.len() as int) =~= ours);
                        assert(commands@.skip(ours.len() as int) =~= user_items);
                    },
                    Some(_) => {
                        return Err(String::from_str("Mojo debug `initCommands` must be an array of strings"));
                    },
                    None => {},
                }
                object_insert(members, String::from_str("initCommands"), JsonValue::Array(commands));
                Ok(())
            },
            _ => Err(String::from_str("Mojo debug configuration must be a JSON object")),
        }
    }

    /// The kind of request that a debug configuration makes.
    pub fn request_kind(config: &JsonValue) -> (r: Result<DebugRequestKind, String>)
        ensures
            match spec_request_kind(*config) {
                Some(k) => r == Ok::<DebugRequestKind, String>(k),
                None => r matches Err(e)
                    && e@ == "Invalid request: expected `request` to be `launch` or `attach`"@,
            },
    {
        match config.get("request") {
            Some(v) => match v.as_str() {
                Some(s) => {
                    if str_eq(s, "launch") {
                        return Ok(DebugRequestKind::Launch);
                    }
                    if str_eq(s, "attach") {
                        return Ok(DebugRequestKind::Attach);
                    }
                },
                None => {},
            },
            None => {},
        }
        Err(String::from_str("Invalid request: expected `request` to be `launch` or `attach`"))
    }

    /// The compiler options for a source build, with the options that set
    /// the optimization or debug level dropped.
    pub fn build_arguments(config: &JsonValue) -> (r: Result<Vec<String>, String>)
        ensures
            match spec_build_argument_list(*config) {
                Ok(list) => r matches Ok(v) && views(v@) == filter_build_args(list),
                Err(m) => r matches Err(e) && e@ == m,
            },
    {
        let mut arguments: Vec<String> = Vec::new();
        match config.get("buildArgs") {
            None => {},
            Some(JsonValue::Str(a)) => {
                arguments.push(a.clone());
                assert(views(arguments@) =~= seq![a@]);
            },
            Some(JsonValue::Array(items)) => {
                let n = items.len();
                let mut i: usize = 0;
                while i < n
                    invariant
                        i <= n,
                        n == items@.len(),
                        config.spec_get("buildArgs"@) == Some(JsonValue::Array(*items)),
                        forall|j: int| 0 <= j < i ==> #[trigger] items@[j] is Str,
                        views(arguments@) == items@.take(i as int).map_values(
                            |v: JsonValue| str_text(v),
                        ),
                    decreases n - i,
                {
                    match &items[i] {
                        JsonValue::Str(a) => {
                            let ghost before = views(arguments@);
                            arguments.push(a.clone());
                            assert(views(arguments@) =~= before.push(a@));
                            assert(items@.take(i + 1).map_values(|v: JsonValue| str_text(v))
                                =~= items@.take(i as int).map_values(|v: JsonValue| str_text(v)).push(
                                a@,
                            ));
                        },
                        _ => {
                            assert(!all_strs(items@));
                            return Err(String::from_str("Every Mojo `buildArgs` entry must be a string"));
                        },
                    }
                    i += 1;
                }
                assert(items@.take(n as int) =~= items@);
            },
            Some(_) => {
                return Err(String::from_str("Mojo `buildArgs` must be a string or array of strings"));
            },
        }
        assert(views(arguments@) == spec_build_argument_list(*config)->Ok_0);
        Ok(Self::debug_build_arguments(arguments.as_slice()))
    }

    /// The environment that a debug configuration sets.
    pub fn config_environment(config: &JsonValue) -> (r: Result<Vec<(String, String)>, String>)
        ensures
            match spec_config_environment(*config) {
                Ok(env) => r matches Ok(v) && pairs(v@) == env,
                Err(m) => r matches Err(e) && e@ == m,
            },
            config.well_keyed() ==> (r matches Ok(v) ==> names_distinct(pairs(v@))),
    {
        let mut env: Vec<(String, String)> = Vec::new();
        match config.get("env") {
            None => {
                assert(pairs(env@) =~= Seq::<(Seq<char>, Seq<char>)>::empty());
            },
            Some(JsonValue::Object(members)) => {
                let ghost f = |m: (String, JsonValue)| (m.0@, str_text(m.1));
                let n = members.len();
                let mut i: usize = 0;
                while i < n
                    invariant
                        i <= n,
                        n == members@.len(),
                        config.spec_get("env"@) == Some(JsonValue::Object(*members)),
                        f == (|m: (String, JsonValue)| (m.0@, str_text(m.1))),
                        forall|j: int| 0 <= j < i ==> (#[trigger] members@[j]).1 is Str,
                        pairs(env@) == members@.take(i as int).map_values(f),
                    decreases n - i,
                {
                    match &members[i].1 {
                        JsonValue::Str(v) => {
                            let ghost before = pairs(env@);
                            env.push((members[i].0.clone(), v.clone()));
                            assert(pairs(env@) =~= before.push(f(members@[i as int])));
                            assert(members@.take(i + 1).map_values(f) =~= members@.take(
                                i as int,
                            ).map_values(f).push(f(members@[i as int])));
                        },
                        _ => {
                            assert(!(members@[i as int].1 is Str));
                            return Err(String::from_str("Every Mojo debug `env` value must be a string"));
                        },
                    }
                    i += 1;
                }
                assert(members@.take(n as int) =~= members@);
            },
            Some(_) => {
                return Err(String::from_str("Mojo debug `env` must be an object of string values"));
            },
        }
        proof {
            if config.well_keyed() {
                lemma_environment_names_distinct(*config);
            }
        }
        Ok(env)
    }

    /// The directory that a source build runs in, for the worktree at
    /// `root`.
    pub fn build_cwd(root: &str, config: &JsonValue) -> (r: Result<String, String>)
        ensures
            match spec_build_cwd(root@, *config) {
                Ok(cwd) => r matches Ok(v) && v@ == cwd,
                Err(m) => r matches Err(e) && e@ == m,
            },
    {
        match config.get("cwd") {
            None => Ok(String::from_str(root)),
            Some(JsonValue::Str(cwd)) => {
                let c = cwd.as_str();
                if c.unicode_len() == 0 {
                    Ok(String::from_str(root))
                } else if c.get_char(0) == '/' {
                    Ok(cwd.clone())
                } else {
                    Ok(concat3(root, "/", c))
                }
            },
            Some(_) => Err(String::from_str("Mojo debug `cwd` must be a string")),
        }
    }

    /// Accepts the language server of this extension only.
    pub fn validate_language_server(language_server_id: &str) -> (r: Result<(), String>)
        ensures
            language_server_id@ == "mojo-lsp-server"@ ==> r is Ok,
            language_server_id@ != "mojo-lsp-server"@ ==> (r matches Err(e) && e@
                == unsupported_server_message(language_server_id@)),
    {
        if str_eq(language_server_id, "mojo-lsp-server") {
            Ok(())
        } else {
            Err(concat3(
                "Mojo extension does not support language server `",
                language_server_id,
                "`",
            ))
        }
    }

    /// Accepts the debug adapter of this extension only.
    pub fn validate_debug_adapter(adapter_name: &str) -> (r: Result<(), String>)
        ensures
            adapter_name@ == "mojo-lldb"@ ==> r is Ok,
            adapter_name@ != "mojo-lldb"@ ==> (r matches Err(e) && e@
                == unsupported_adapter_message(adapter_name@)),
    {
        if str_eq(adapter_name, "mojo-lldb") {
            Ok(())
        } else {
            Err(concat3(
                "Mojo extension does not support debug adapter `",
                adapter_name,
                "` (supported: `mojo-lldb`)",
            ))
        }
    }

    /// The checks that start a debug session, in order: the adapter must be
    /// this extension's, the configuration text must have parsed (`parsed`
    /// holds the parser's error otherwise), and it must name its request.
    pub fn debug_task_request(adapter_name: &str, parsed: Result<JsonValue, String>) -> (r: Result<
        (JsonValue, DebugRequestKind),
        String,
    >)
        ensures
            adapter_name@ != "mojo-lldb"@ ==> (r matches Err(e) && e@ == unsupported_adapter_message(
                adapter_name@,
            )),
            adapter_name@ == "mojo-lldb"@ ==> match parsed {
                Err(m) => r matches Err(e) && e@ == "Invalid Mojo debug configuration: "@ + m@,
                Ok(config) => match spec_request_kind(config) {
                    Some(k) => r matches Ok(p) && p.0 == config && p.1 == k,
                    None => r matches Err(e)
                        && e@ == "Invalid request: expected `request` to be `launch` or `attach`"@,
                },
            },
    {
        match Self::validate_debug_adapter(adapter_name) {
            Ok(()) => {},
            Err(e) => return Err(e),
        }
        let config = match parsed {
            Ok(config) => config,
            Err(m) => {
                let mut e = String::from_str("Invalid Mojo debug configuration: ");
                e.append(m.as_str());
                return Err(e);
            },
        };
        match Self::request_kind(&config) {
            Ok(kind) => Ok((config, kind)),
            Err(e) => Err(e),
        }
    }

    /// The kind of request that a configuration for `adapter_name` makes.
    pub fn dap_request_kind(adapter_name: String, config: JsonValue) -> (r: Result<
        DebugRequestKind,
        String,
    >)
        ensures
            adapter_name@ != "mojo-lldb"@ ==> (r matches Err(e) && e@
                == unsupported_adapter_message(adapter_name@)),
            adapter_name@ == "mojo-lldb"@ ==> match spec_request_kind(config) {
                Some(k) => r == Ok::<DebugRequestKind, String>(k),
                None => r matches Err(e)
                    && e@ == "Invalid request: expected `request` to be `launch` or `attach`"@,
            },
    {
        match Self::validate_debug_adapter(adapter_name.as_str()) {
            Ok(()) => {},
            Err(e) => return Err(e),
        }
        Self::request_kind(&config)
    }
}

} // verus!
