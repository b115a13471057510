//! Mojo run tasks: recognising `mojo run` invocations, finding their source
//! file and keeping the compiler options that are safe for a debug build.

use vstd::prelude::*;
use vstd::slice::slice_subrange;

use crate::extension::MojoExtension;
use crate::text::{
    ends_with, has_suffix, last_segment, last_segment_of, opt_view, starts_with, str_eq,
    strip_suffix, trim_by, trim_matches, views, has_prefix, CharClass,
};

verus! {

/// A task that Zed can run: a command with its arguments, environment and
/// working directory.
#[derive(Clone, Debug)]
pub struct TaskTemplate {
    /// Human readable name of the task.
    pub label: String,
    /// Executable command to spawn.
    pub command: String,
    pub args: Vec<String>,
    pub env: Vec<(String, String)>,
    pub cwd: Option<String>,
}

/// A `mojo run` task taken apart for debugging: the source file, the compiler
/// options before it and the program arguments after it.
#[derive(Clone, Debug, PartialEq, Eq)]
pub struct MojoRunTask {
    pub source: String,
    pub build_args: Vec<String>,
    pub program_args: Vec<String>,
}

impl MojoRunTask {
    /// The source, the compiler options and the program arguments as text.
    pub open spec fn view_parts(self) -> (Seq<char>, Seq<Seq<char>>, Seq<Seq<char>>) {
        (self.source@, views(self.build_args@), views(self.program_args@))
    }
}

/// The file name of a command path, without a `.exe` suffix.
pub open spec fn spec_command_name(command: Seq<char>) -> Seq<char> {
    let name = last_segment(command, CharClass::Either('/', '\\'));
    if ends_with(name, ".exe"@) {
        name.take(name.len() - ".exe"@.len())
    } else {
        name
    }
}

/// Mojo source files end in `.mojo` or `.🔥`.
pub open spec fn spec_is_mojo_source(path: Seq<char>) -> bool {
    ends_with(path, ".mojo"@) || ends_with(path, ".🔥"@)
}

/// The Zed task variables that name the current file.
pub open spec fn is_file_variable_name(s: Seq<char>) -> bool {
    ||| s == "$ZED_FILE"@
    ||| s == "${ZED_FILE}"@
    ||| s == "$ZED_RELATIVE_FILE"@
    ||| s == "${ZED_RELATIVE_FILE}"@
}

/// An argument that names the current file, once all surrounding double
/// quotes are trimmed.
pub open spec fn spec_is_zed_file_variable(argument: Seq<char>) -> bool {
    is_file_variable_name(trim_by(argument, CharClass::Only('"')))
}

/// `s` without one pair of surrounding double quotes, if it has them.
pub open spec fn unquote_once(s: Seq<char>) -> Seq<char> {
    if s.len() >= 2 && s[0] == '"' && s.last() == '"' {
        s.subrange(1, s.len() - 1)
    } else {
        s
    }
}

/// The source that a run-task argument names: the argument without one pair
/// of surrounding double quotes, if that is a file variable or a Mojo path.
pub open spec fn spec_task_source_argument(argument: Seq<char>) -> Option<Seq<char>> {
    let a = unquote_once(argument);
    if is_file_variable_name(a) || spec_is_mojo_source(a) {
        Some(a)
    } else {
        None
    }
}

/// Options that take the next argument as their value.
pub open spec fn takes_value(a: Seq<char>) -> bool {
    ||| a == "-O"@
    ||| a == "--optimization-level"@
    ||| a == "-optimization-level"@
    ||| a == "--debug-level"@
    ||| a == "-debug-level"@
}

/// Options that set the optimization or debug level on their own.
pub open spec fn sets_level(a: Seq<char>) -> bool {
    ||| a == "--no-optimization"@
    ||| a == "-no-optimization"@
    ||| starts_with(a, "--optimization-level="@)
    ||| starts_with(a, "-optimization-level="@)
    ||| starts_with(a, "--debug-level="@)
    ||| starts_with(a, "-debug-level="@)
    ||| (starts_with(a, "-O"@) && a.len() > 2)
    ||| starts_with(a, "-g"@)
}

/// Compiler options without those that set the optimization or debug level:
/// such an option is dropped, and so is the value that follows one that takes
/// a value.
pub open spec fn filter_build_args(args: Seq<Seq<char>>) -> Seq<Seq<char>>
    decreases args.len(),
{
    if args.len() == 0 {
        seq![]
    } else if takes_value(args[0]) {
        if args.len() < 2 {
            seq![]
        } else {
            filter_build_args(args.skip(2))
        }
    } else if sets_level(args[0]) {
        filter_build_args(args.drop_first())
    } else {
        seq![args[0]] + filter_build_args(args.drop_first())
    }
}

/// The arguments that `command` puts before the arguments of `mojo run`
/// itself, for the launchers that are recognised.
pub open spec fn run_prefix(command: Seq<char>) -> Option<Seq<Seq<char>>> {
    let name = spec_command_name(command);
    if name == "mojo"@ {
        Some(seq!["run"@])
    } else if name == "pixi"@ {
        Some(seq!["run"@, "--frozen"@, "--no-progress"@, "--executable"@, "mojo"@, "run"@])
    } else if name == "uv"@ {
        Some(seq!["run"@, "--frozen"@, "mojo"@, "run"@])
    } else {
        None
    }
}

/// The arguments of `mojo run` in a task, if the task is a `mojo run`
/// through a recognised launcher.
pub open spec fn spec_run_args(command: Seq<char>, args: Seq<Seq<char>>) -> Option<Seq<Seq<char>>> {
    match run_prefix(command) {
        Some(p) => if p.len() <= args.len() && args.take(p.len() as int) == p {
            Some(args.skip(p.len() as int))
        } else {
            None
        },
        None => None,
    }
}

/// The first index of `s` whose element satisfies `f`.
pub open spec fn first_where<A>(s: Seq<A>, f: spec_fn(A) -> bool) -> Option<int>
    decreases s.len(),
{
    if s.len() == 0 {
        None
    } else if f(s[0]) {
        Some(0)
    } else {
        match first_where(s.drop_first(), f) {
            Some(k) => Some(k + 1),
            None => None,
        }
    }
}

/// Where the source of `mojo run` stands among its arguments: the first file
/// variable, else the first argument that names a Mojo file once its double
/// quotes are trimmed.
pub open spec fn source_index(args: Seq<Seq<char>>) -> Option<int> {
    match first_where(args, |a: Seq<char>| spec_is_zed_file_variable(a)) {
        Some(k) => Some(k),
        None => first_where(
            args,
            |a: Seq<char>| spec_is_mojo_source(trim_by(a, CharClass::Only('"'))),
        ),
    }
}

/// A task taken apart for debugging: the source, the compiler options before
/// it with the level options dropped, and the program arguments after it.
pub open spec fn spec_task_mojo_run(command: Seq<char>, args: Seq<Seq<char>>) -> Option<
    (Seq<char>, Seq<Seq<char>>, Seq<Seq<char>>),
> {
    match spec_run_args(command, args) {
        Some(run) => match source_index(run) {
            Some(k) => match spec_task_source_argument(run[k]) {
                Some(source) => Some(
                    (source, filter_build_args(run.take(k)), run.skip(k + 1)),
                ),
                None => None,
            },
            None => None,
        },
        None => None,
    }
}

/// How an LLDB single-quoted argument writes `c`: `'\\'` and `'\''` with a
/// backslash before them, any other character as it is.
pub open spec fn lldb_escape_char(c: char) -> Seq<char> {
    if c == '\\' || c == '\'' {
        seq!['\\', c]
    } else {
        seq![c]
    }
}

/// `'\\'` and `'\''` escaped with a backslash.
pub open spec fn lldb_escape(s: Seq<char>) -> Seq<char>
    decreases s.len(),
{
    if s.len() == 0 {
        seq![]
    } else {
        lldb_escape(s.drop_last()) + lldb_escape_char(s.last())
    }
}

/// `t` read left to right, a backslash standing for the character after it.
pub open spec fn lldb_unescape(t: Seq<char>) -> Seq<char>
    decreases t.len(),
{
    if t.len() == 0 {
        seq![]
    } else if t[0] == '\\' && t.len() >= 2 {
        seq![t[1]] + lldb_unescape(t.skip(2))
    } else {
        seq![t[0]] + lldb_unescape(t.skip(1))
    }
}

/// Reading `t` left to right, every `'\''` comes right after a backslash
/// that escapes it.
pub open spec fn quotes_escaped(t: Seq<char>) -> bool
    decreases t.len(),
{
    if t.len() == 0 {
        true
    } else if t[0] == '\\' && t.len() >= 2 {
        quotes_escaped(t.skip(2))
    } else {
        t[0] != '\'' && quotes_escaped(t.skip(1))
    }
}

/// How often `c` occurs in `s`.
pub open spec fn count_char(s: Seq<char>, c: char) -> nat
    decreases s.len(),
{
    if s.len() == 0 {
        0
    } else {
        count_char(s.drop_last(), c) + if s.last() == c {
            1nat
        } else {
            0nat
        }
    }
}

/// `first_where` finds the first element that satisfies `f`, or shows
/// that there is none.
pub proof fn lemma_first_where<A>(s: Seq<A>, f: spec_fn(A) -> bool)
    ensures
        first_where(s, f) matches Some(k) ==> 0 <= k < s.len() && f(s[k]) && forall|j: int|
            0 <= j < k ==> !f(#[trigger] s[j]),
        first_where(s, f) is None ==> forall|j: int| 0 <= j < s.len() ==> !f(#[trigger] s[j]),
    decreases s.len(),
{
    if s.len() > 0 {
        lemma_first_where(s.drop_first(), f);
        assert forall|j: int| 1 <= j < s.len() implies s[j] == s.drop_first()[j - 1] by {}
    }
}

/// `first_where` gives `k` when the element at `k` is the first that
/// satisfies `f`.
pub proof fn lemma_first_where_at<A>(s: Seq<A>, f: spec_fn(A) -> bool, k: int)
    requires
        0 <= k <= s.len(),
        forall|j: int| 0 <= j < k ==> !f(#[trigger] s[j]),
    ensures
        k < s.len() && f(s[k]) ==> first_where(s, f) == Some(k),
        k == s.len() ==> first_where(s, f) is None,
    decreases k,
{
    if k > 0 {
        let t = s.drop_first();
        assert forall|j: int| 0 <= j < k - 1 implies !f(#[trigger] t[j]) by {
            assert(t[j] == s[j + 1]);
        }
        lemma_first_where_at(t, f, k - 1);
    }
}

impl MojoExtension {
    /// The file name of a command path, without a `.exe` suffix.
    pub fn command_name(command: &str) -> (r: &str)
        ensures
            r@ == spec_command_name(command@),
    {
        let name = last_segment_of(command, &CharClass::Either('/', '\\'));
        match strip_suffix(name, ".exe") {
            Some(stem) => stem,
            None => name,
        }
    }

    /// Whether `path` names a Mojo source file.
    pub fn is_mojo_source(path: &str) -> (r: bool)
        ensures
            r == spec_is_mojo_source(path@),
    {
        has_suffix(path, ".mojo") || has_suffix(path, ".🔥")
    }

    fn is_file_variable_name(s: &str) -> (r: bool)
        ensures
            r == is_file_variable_name(s@),
    {
        str_eq(s, "$ZED_FILE") || str_eq(s, "${ZED_FILE}") || str_eq(s, "$ZED_RELATIVE_FILE")
            || str_eq(s, "${ZED_RELATIVE_FILE}")
    }

    /// Whether a task argument is one of Zed's variables for the current file.
    pub fn is_zed_file_variable(argument: &str) -> (r: bool)
        ensures
            r == spec_is_zed_file_variable(argument@),
    {
        Self::is_file_variable_name(trim_matches(argument, &CharClass::Only('"')))
    }

    /// The source that a run-task argument names, if it names one.
    pub fn task_source_argument(argument: &str) -> (r: Option<String>)
        ensures
            opt_view(r) == spec_task_source_argument(argument@),
    {
        let n = argument.unicode_len();
        let a = if n >= 2 && argument.get_char(0) == '"' && argument.get_char(n - 1) == '"' {
            argument.substring_char(1, n - 1)
        } else {
            argument
        };
        if Self::is_file_variable_name(a) || Self::is_mojo_source(a) {
            Some(String::from_str(a))
        } else {
            None
        }
    }

    fn takes_value(a: &str) -> (r: bool)
        ensures
            r == takes_value(a@),
    {
        str_eq(a, "-O") || str_eq(a, "--optimization-level") || str_eq(a, "-optimization-level")
            || str_eq(a, "--debug-level") || str_eq(a, "-debug-level")
    }

    fn sets_level(a: &str) -> (r: bool)
        ensures
            r == sets_level(a@),
    {
        str_eq(a, "--no-optimization") || str_eq(a, "-no-optimization") || has_prefix(
            a,
            "--optimization-level=",
        ) || has_prefix(a, "-optimization-level=") || has_prefix(a, "--debug-level=")
            || has_prefix(a, "-debug-level=") || (has_prefix(a, "-O") && a.unicode_len() > 2)
            || has_prefix(a, "-g")
    }

    /// The compiler options of a run task that a debug build keeps: options
    /// that set the optimization or debug level are dropped, with the value
    /// that follows those that take one.
    pub fn debug_build_arguments(arguments: &[String]) -> (r: Vec<String>)
        ensures
            views(r@) == filter_build_args(views(arguments@)),
    {
        let ghost all = views(arguments@);
        let n = arguments.len();
        let mut r: Vec<String> = Vec::new();
        let mut i: usize = 0;
        assert(all.skip(0) =~= all);
        while i < n
            invariant
                i <= n,
                n == arguments@.len(),
                all == views(arguments@),
                filter_build_args(all) == views(r@) + filter_build_args(all.skip(i as int)),
            decreases n - i,
        {
            let a = arguments[i].as_str();
            let ghost rest = all.skip(i as int);
            assert(rest[0] == a@);
            assert(rest.drop_first() =~= all.skip(i + 1));
            if Self::takes_value(a) {
                assert(filter_build_args(rest) == if rest.len() < 2 {
                    seq![]
                } else {
                    filter_build_args(rest.skip(2))
                });
                if i + 1 < n {
                    assert(rest.skip(2) =~= all.skip(i + 2));
                    i += 2;
                } else {
                    i = n;
                }
                continue;
            }
            if Self::sets_level(a) {
                assert(filter_build_args(rest) == filter_build_args(rest.drop_first()));
                i += 1;
                continue;
            }
            let ghost before = views(r@);
            r.push(arguments[i].clone());
            assert(views(r@) =~= before.push(a@));
            i += 1;
        }
        assert(all.skip(n as int).len() == 0);
        assert(filter_build_args(all.skip(n as int)) == Seq::<Seq<char>>::empty());
        assert(views(r@) =~= views(r@) + Seq::<Seq<char>>::empty());
        r
    }

    /// The arguments of `mojo run` in a task, if the task is a `mojo run`
    /// through `mojo`, `pixi run --frozen --no-progress --executable mojo` or
    /// `uv run --frozen mojo`.
    pub fn task_mojo_run_args(task: &TaskTemplate) -> (r: Option<&[String]>)
        ensures
            match r {
                Some(rest) => spec_run_args(task.command@, views(task.args@)) == Some(views(rest@)),
                None => spec_run_args(task.command@, views(task.args@)) is None,
            },
    {
        let command = Self::command_name(task.command.as_str());
        let prefix: Vec<&str> = if str_eq(command, "mojo") {
            vec!["run"]
        } else if str_eq(command, "pixi") {
            vec!["run", "--frozen", "--no-progress", "--executable", "mojo", "run"]
        } else if str_eq(command, "uv") {
            vec!["run", "--frozen", "mojo", "run"]
        } else {
            assert(run_prefix(task.command@) is None);
            return None;
        };
        let ghost p = run_prefix(task.command@)->0;
        assert(prefix@.map_values(|s: &str| s@) =~= p);
        let ghost args = views(task.args@);
        let m = prefix.len();
        let n = task.args.len();
        if n < m {
            return None;
        }
        let mut i: usize = 0;
        while i < m
            invariant
                i <= m <= n,
                m == p.len(),
                n == args.len(),
                args == views(task.args@),
                p == prefix@.map_values(|s: &str| s@),
                run_prefix(task.command@) == Some(p),
                forall|j: int| 0 <= j < i ==> args[j] == p[j],
            decreases m - i,
        {
            assert(args[i as int] == task.args@[i as int]@);
            assert(p[i as int] == prefix@[i as int]@);
            if !str_eq(task.args[i].as_str(), prefix[i]) {
                assert(args.take(m as int)[i as int] != p[i as int]);
                return None;
            }
            i += 1;
        }
        assert(args.take(m as int) =~= p);
        let rest = slice_subrange(task.args.as_slice(), m, n);
        assert(views(rest@) =~= args.skip(m as int));
        Some(rest)
    }

    fn first_file_variable(args: &[String]) -> (r: Option<usize>)
        ensures
            match r {
                Some(k) => first_where(views(args@), |a: Seq<char>| spec_is_zed_file_variable(a))
                    == Some(k as int),
                None => first_where(views(args@), |a: Seq<char>| spec_is_zed_file_variable(a))
                    is None,
            },
    {
        let ghost run = views(args@);
        let ghost f = |a: Seq<char>| spec_is_zed_file_variable(a);
        let n = args.len();
        let mut i: usize = 0;
        while i < n
            invariant
                i <= n,
                n == run.len(),
                run == views(args@),
                f == (|a: Seq<char>| spec_is_zed_file_variable(a)),
                forall|j: int| 0 <= j < i ==> !f(#[trigger] run[j]),
            decreases n - i,
        {
            assert(run[i as int] == args@[i as int]@);
            if Self::is_zed_file_variable(args[i].as_str()) {
                proof {
                    lemma_first_where_at(run, f, i as int);
                }
                return Some(i);
            }
            i += 1;
        }
        proof {
            lemma_first_where_at(run, f, n as int);
        }
        None
    }

    fn first_mojo_path(args: &[String]) -> (r: Option<usize>)
        ensures
            match r {
                Some(k) => first_where(
                    views(args@),
                    |a: Seq<char>| spec_is_mojo_source(trim_by(a, CharClass::Only('"'))),
                ) == Some(k as int),
                None => first_where(
                    views(args@),
                    |a: Seq<char>| spec_is_mojo_source(trim_by(a, CharClass::Only('"'))),
                ) is None,
            },
    {
        let ghost run = views(args@);
        let ghost f = |a: Seq<char>| spec_is_mojo_source(trim_by(a, CharClass::Only('"')));
        let n = args.len();
        let mut i: usize = 0;
        while i < n
            invariant
                i <= n,
                n == run.len(),
                run == views(args@),
                f == (|a: Seq<char>| spec_is_mojo_source(trim_by(a, CharClass::Only('"')))),
                forall|j: int| 0 <= j < i ==> !f(#[trigger] run[j]),
            decreases n - i,
        {
            assert(run[i as int] == args@[i as int]@);
            if Self::is_mojo_source(trim_matches(args[i].as_str(), &CharClass::Only('"'))) {
                proof {
                    lemma_first_where_at(run, f, i as int);
                }
                return Some(i);
            }
            i += 1;
        }
        proof {
            lemma_first_where_at(run, f, n as int);
        }
        None
    }

    /// A `mojo run` task taken apart for debugging, if the task is one and
    /// names its source.
    pub fn task_mojo_run(task: &TaskTemplate) -> (r: Option<MojoRunTask>)
        ensures
            match r {
                Some(run) => spec_task_mojo_run(task.command@, views(task.args@)) == Some(
                    run.view_parts(),
                ),
                None => spec_task_mojo_run(task.command@, views(task.args@)) is None,
            },
    {
        let args = match Self::task_mojo_run_args(task) {
            Some(args) => args,
            None => return None,
        };
        let ghost run = views(args@);
        let n = args.len();
        let found = match Self::first_file_variable(args) {
            Some(k) => Some(k),
            None => Self::first_mojo_path(args),
        };
        let k = match found {
            Some(k) => k,
            None => return None,
        };
        proof {
            lemma_first_where(run, |a: Seq<char>| spec_is_zed_file_variable(a));
            lemma_first_where(
                run,
                |a: Seq<char>| spec_is_mojo_source(trim_by(a, CharClass::Only('"'))),
            );
        }
        assert(source_index(run) == Some(k as int));
        let source = match Self::task_source_argument(args[k].as_str()) {
            Some(source) => source,
            None => return None,
        };
        let head = slice_subrange(args, 0, k);
        assert(views(head@) =~= run.take(k as int));
        let build_args = Self::debug_build_arguments(head);
        let tail = slice_subrange(args, k + 1, n);
        let mut program_args: Vec<String> = Vec::new();
        let mut j: usize = 0;
        while j < tail.len()
            invariant
                j <= tail@.len(),
                views(program_args@) == views(tail@).take(j as int),
            decreases tail@.len() - j,
        {
            let ghost before = views(program_args@);
            let item = tail[j].clone();
            assert(item@ == views(tail@)[j as int]);
            program_args.push(item);
            assert(views(program_args@) =~= before.push(item@));
            assert(views(tail@).take(j + 1) =~= views(tail@).take(j as int).push(item@));
            j += 1;
        }
        assert(views(program_args@) =~= run.skip(k + 1));
        Some(MojoRunTask { source, build_args, program_args })
    }

    /// A path for an LLDB command, with backslashes and single quotes
    /// escaped.
    pub fn quoted_lldb_path(value: &str) -> (r: String)
        ensures
            r@ == lldb_escape(value@),
    {
        let n = value.unicode_len();
        let mut r = String::new();
        let mut i: usize = 0;
        proof {
            reveal_strlit("\\\\");
            reveal_strlit("\\'");
        }
        while i < n
            invariant
                i <= n,
                n == value@.len(),
                r@ == lldb_escape(value@.take(i as int)),
            decreases n - i,
        {
            let c = value.get_char(i);
            let ghost before = r@;
            assert(value@.take(i + 1).drop_last() =~= value@.take(i as int));
            assert(value@.take(i + 1).last() == c);
            if c == '\\' {
                r.append("\\\\");
                proof {
                    reveal_strlit("\\\\");
                }
                assert("\\\\"@ =~= seq!['\\', c]);
            } else if c == '\'' {
                r.append("\\'");
                proof {
                    reveal_strlit("\\'");
                }
                assert("\\'"@ =~= seq!['\\', c]);
            } else {
                let one = value.substring_char(i, i + 1);
                assert(one@ =~= seq![c]);
                r.append(one);
            }
            assert(r@ =~= lldb_escape(value@.take(i + 1)));
            i += 1;
        }
        assert(value@.take(n as int) =~= value@);
        r
    }
}

} // verus!
