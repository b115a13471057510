//! The external processes that the extension runs (temporary directories,
//! builds, code signing, the stdlib-source SDK home) and how their results
//! are judged.

use vstd::prelude::*;

use crate::discovery::CommandSpec;
use crate::extension::MojoExtension;
use crate::text::{
    concat2, concat3, contains_any, ends_with, has_prefix, index_of, last_segment, last_segment_of,
    pairs, starts_with, strip_suffix, trim, trim_ws, views, CharClass,
};
use crate::worktree::Os;

verus! {

/// Runs the build command in the directory given as the first argument.
pub const BUILD_SCRIPT: &'static str = "set -eu\ncd \"$1\"\nshift\nexec \"$@\"";

/// Signs a binary ad hoc with the entitlement that debugging needs on macOS.
pub const CODESIGN_SCRIPT: &'static str = "set -eu\nentitlements=\"$1.entitlements.plist\"\nprintf '%s\\n' '<?xml version=\"1.0\" encoding=\"UTF-8\"?>' '<!DOCTYPE plist PUBLIC \"-//Apple//DTD PLIST 1.0//EN\" \"http://www.apple.com/DTDs/PropertyList-1.0.dtd\">' '<plist version=\"1.0\"><dict><key>com.apple.security.get-task-allow</key><true/></dict></plist>' > \"$entitlements\"\n/usr/bin/codesign -s - -f --entitlements \"$entitlements\" \"$1\"\nrm -f \"$entitlements\"";

/// Copies the `modular.cfg` file given second into the home directory given
/// first and points its `import_path` at the stdlib source tree given third.
pub const STDLIB_HOME_SCRIPT: &'static str = "set -eu\ncp \"$2\" \"$1/modular.cfg\"\nsed -i \"s|^import_path = .*|import_path = $3|\" \"$1/modular.cfg\"";

/// The decimal digit for `d` below 10.
pub open spec fn digit_char(d: nat) -> char {
    (('0' as u32) + d) as char
}

/// The decimal digits of `n`.
pub open spec fn decimal_digits(n: nat) -> Seq<char>
    decreases n,
{
    if n < 10 {
        seq![digit_char(n)]
    } else {
        decimal_digits(n / 10) + seq![digit_char(n % 10)]
    }
}

/// An integer in decimal, with a minus sign if it is negative.
pub open spec fn int_text(i: int) -> Seq<char> {
    if i < 0 {
        seq!['-'] + decimal_digits((-i) as nat)
    } else {
        decimal_digits(i as nat)
    }
}

/// An exit status as `{:?}` prints an `Option<i32>`.
pub open spec fn status_text(status: Option<i32>) -> Seq<char> {
    match status {
        Some(code) => "Some("@ + int_text(code as int) + ")"@,
        None => "None"@,
    }
}

/// The error for a process that did not exit with status 0: its purpose, its
/// status and its trimmed standard error, or its trimmed standard output if
/// the standard error is empty.
pub open spec fn process_failure(
    purpose: Seq<char>,
    status: Option<i32>,
    stdout: Seq<char>,
    stderr: Seq<char>,
) -> Seq<char> {
    purpose + " failed with status "@ + status_text(status) + ": "@ + trim(stderr) + if stderr.len()
        == 0 {
        trim(stdout)
    } else {
        seq![]
    }
}

/// The directory that `mktemp` made for `purpose`, judged from its result:
/// it must have succeeded and printed one directory under `/tmp/zed-mojo.`.
pub open spec fn spec_checked_temp_directory(
    purpose: Seq<char>,
    status: Option<i32>,
    stdout: Seq<char>,
    stderr: Seq<char>,
) -> Result<Seq<char>, Seq<char>> {
    if status != Some(0i32) {
        Err(
            "creating a temporary directory for "@ + purpose + " failed with status "@ + status_text(
                status,
            ) + ": "@ + trim(stderr),
        )
    } else if !starts_with(trim(stdout), "/tmp/zed-mojo."@) || index_of(
        trim(stdout),
        CharClass::Either('\n', '\r'),
    ) is Some {
        Err("`mktemp` returned an unexpected directory for "@ + purpose)
    } else {
        Ok(trim(stdout))
    }
}

/// The file name of a Mojo source without its suffix: the name of the debug
/// binary that is built from it, `program` if that would be empty.
pub open spec fn spec_debug_binary_stem(source: Seq<char>) -> Seq<char> {
    let name = last_segment(source, CharClass::Either('/', '\\'));
    let stem = if ends_with(name, ".mojo"@) {
        name.take(name.len() - ".mojo"@.len())
    } else if ends_with(name, ".🔥"@) {
        name.take(name.len() - ".🔥"@.len())
    } else {
        name
    };
    if stem.len() == 0 {
        "program"@
    } else {
        stem
    }
}

/// The command view of a process plan: executable, arguments, environment.
pub open spec fn plan_view(c: CommandSpec) -> (Seq<char>, Seq<Seq<char>>, Seq<(Seq<char>, Seq<char>)>) {
    (c.command@, views(c.args@), pairs(c.envs@))
}

/// The `mktemp` call that makes a private temporary directory.
pub open spec fn temp_directory_plan() -> (Seq<char>, Seq<Seq<char>>, Seq<(Seq<char>, Seq<char>)>) {
    ("/usr/bin/mktemp"@, seq!["-d"@, "/tmp/zed-mojo.XXXXXXXXXX"@], seq![])
}

/// The ad hoc signing of `binary` with the debugging entitlement.
pub open spec fn codesign_plan(binary: Seq<char>) -> (Seq<char>, Seq<Seq<char>>, Seq<(Seq<char>, Seq<char>)>) {
    ("/bin/sh"@, seq!["-c"@, CODESIGN_SCRIPT@, "zed-mojo-codesign"@, binary], seq![])
}

/// The writing of a stdlib-source SDK home into `directory`: a copy of the
/// `modular.cfg` inside the SDK home `home`, with `import_path` as its
/// import path.
pub open spec fn stdlib_home_plan(directory: Seq<char>, home: Seq<char>, import_path: Seq<char>) -> (
    Seq<char>,
    Seq<Seq<char>>,
    Seq<(Seq<char>, Seq<char>)>,
) {
    (
        "/bin/sh"@,
        seq![
            "-c"@,
            STDLIB_HOME_SCRIPT@,
            "zed-mojo-stdlib-home"@,
            directory,
            home + "/modular.cfg"@,
            import_path,
        ],
        seq![],
    )
}

impl MojoExtension {
    fn digit(d: u64) -> (r: &'static str)
        requires
            d < 10,
        ensures
            r@ == seq![digit_char(d as nat)],
    {
        let digits = "0123456789";
        proof {
            reveal_strlit("0123456789");
        }
        let r = digits.substring_char(d as usize, (d + 1) as usize);
        assert(r@ =~= seq![digit_char(d as nat)]);
        r
    }

    fn decimal(n: u64) -> (r: String)
        ensures
            r@ == decimal_digits(n as nat),
        decreases n,
    {
        if n < 10 {
            String::from_str(Self::digit(n))
        } else {
            let mut r = Self::decimal(n / 10);
            r.append(Self::digit(n % 10));
            r
        }
    }

    /// An exit status as `{:?}` prints it.
    pub fn status_text(status: Option<i32>) -> (r: String)
        ensures
            r@ == status_text(status),
    {
        match status {
            Some(code) => {
                let wide = code as i64;
                let digits = if wide < 0 {
                    concat2("-", Self::decimal((-wide) as u64).as_str())
                } else {
                    Self::decimal(wide as u64)
                };
                proof {
                    reveal_strlit("-");
                }
                assert(wide < 0 ==> digits@ =~= int_text(code as int));
                concat3("Some(", digits.as_str(), ")")
            },
            None => String::from_str("None"),
        }
    }

    /// Whether a process succeeded, and the error that says why not.
    pub fn process_result(purpose: &str, status: Option<i32>, stdout: &str, stderr: &str) -> (r: Result<(), String>)
        ensures
            status == Some(0i32) ==> r is Ok,
            status != Some(0i32) ==> (r matches Err(e) && e@ == process_failure(
                purpose@,
                status,
                stdout@,
                stderr@,
            )),
    {
        if status == Some(0i32) {
            return Ok(());
        }
        let mut message = concat3(purpose, " failed with status ", Self::status_text(status).as_str());
        message.append(": ");
        message.append(trim_ws(stderr));
        if stderr.unicode_len() == 0 {
            message.append(trim_ws(stdout));
        }
        proof {
            reveal_strlit("");
        }
        assert(message@ =~= process_failure(purpose@, status, stdout@, stderr@));
        Err(message)
    }

    /// The command that makes a temporary directory.
    pub fn temp_directory_command() -> (r: CommandSpec)
        ensures
            plan_view(r) == temp_directory_plan(),
    {
        let args = vec![String::from_str("-d"), String::from_str("/tmp/zed-mojo.XXXXXXXXXX")];
        let envs: Vec<(String, String)> = Vec::new();
        assert(views(args@) =~= seq!["-d"@, "/tmp/zed-mojo.XXXXXXXXXX"@]);
        assert(pairs(envs@) =~= Seq::<(Seq<char>, Seq<char>)>::empty());
        CommandSpec { command: String::from_str("/usr/bin/mktemp"), args, envs }
    }

    /// The directory that `mktemp` made for `purpose`, judged from its exit
    /// status and output.
    pub fn checked_temp_directory(purpose: &str, status: Option<i32>, stdout: &str, stderr: &str) -> (r: Result<String, String>)
        ensures
            match spec_checked_temp_directory(purpose@, status, stdout@, stderr@) {
                Ok(d) => r matches Ok(v) && v@ == d,
                Err(m) => r matches Err(e) && e@ == m,
            },
    {
        if status != Some(0i32) {
            let mut message = concat3(
                "creating a temporary directory for ",
                purpose,
                " failed with status ",
            );
            message.append(Self::status_text(status).as_str());
            message.append(": ");
            message.append(trim_ws(stderr));
            return Err(message);
        }
        let directory = trim_ws(stdout);
        if !has_prefix(directory, "/tmp/zed-mojo.") || contains_any(
            directory,
            &CharClass::Either('\n', '\r'),
        ) {
            return Err(concat2("`mktemp` returned an unexpected directory for ", purpose));
        }
        Ok(String::from_str(directory))
    }

    /// The name of the debug binary built from `source`.
    pub fn debug_binary_stem(source: &str) -> (r: &str)
        ensures
            r@ == spec_debug_binary_stem(source@),
    {
        let name = last_segment_of(source, &CharClass::Either('/', '\\'));
        let stem = match strip_suffix(name, ".mojo") {
            Some(stem) => stem,
            None => match strip_suffix(name, ".🔥") {
                Some(stem) => stem,
                None => name,
            },
        };
        if stem.unicode_len() == 0 {
            "program"
        } else {
            stem
        }
    }

    /// The path of the debug binary for `source` in `directory`.
    pub fn debug_binary_file(directory: &str, source: &str) -> (r: String)
        ensures
            r@ == directory@ + "/"@ + spec_debug_binary_stem(source@),
    {
        concat3(directory, "/", Self::debug_binary_stem(source))
    }

    /// The command that signs a debug binary so that it can be debugged, on
    /// macOS only.
    pub fn codesign_command(os: Os, binary: &str) -> (r: Option<CommandSpec>)
        ensures
            os != Os::Mac ==> r is None,
            os == Os::Mac ==> (r matches Some(c) && plan_view(c) == codesign_plan(binary@)),
    {
        if os != Os::Mac {
            return None;
        }
        let args = vec![
            String::from_str("-c"),
            String::from_str(CODESIGN_SCRIPT),
            String::from_str("zed-mojo-codesign"),
            String::from_str(binary),
        ];
        let envs: Vec<(String, String)> = Vec::new();
        assert(views(args@) =~= seq!["-c"@, CODESIGN_SCRIPT@, "zed-mojo-codesign"@, binary@]);
        assert(pairs(envs@) =~= Seq::<(Seq<char>, Seq<char>)>::empty());
        Some(CommandSpec { command: String::from_str("/bin/sh"), args, envs })
    }

    /// The command that writes a stdlib-source SDK home into `directory`:
    /// the `modular.cfg` inside the SDK home `home`, with `import_path` set
    /// to `import_path`.
    pub fn stdlib_home_command(directory: &str, home: &str, import_path: &str) -> (r: CommandSpec)
        ensures
            plan_view(r) == stdlib_home_plan(directory@, home@, import_path@),
    {
        let args = vec![
            String::from_str("-c"),
            String::from_str(STDLIB_HOME_SCRIPT),
            String::from_str("zed-mojo-stdlib-home"),
            String::from_str(directory),
            concat2(home, "/modular.cfg"),
            String::from_str(import_path),
        ];
        let envs: Vec<(String, String)> = Vec::new();
        assert(views(args@) =~= seq![
            "-c"@,
            STDLIB_HOME_SCRIPT@,
            "zed-mojo-stdlib-home"@,
            directory@,
            home@ + "/modular.cfg"@,
            import_path@,
        ]);
        assert(pairs(envs@) =~= Seq::<(Seq<char>, Seq<char>)>::empty());
        CommandSpec { command: String::from_str("/bin/sh"), args, envs }
    }
}

} // verus!
