//! Reading the INI-style configuration files of a Mojo SDK (`modular.cfg`)
//! and of a Python virtual environment (`pyvenv.cfg`).

use vstd::prelude::*;

use crate::extension::MojoExtension;
use crate::text::{
    has_prefix, lines_of, opt_view, split_lines, split_once, split_once_at, starts_with, str_eq,
    trim, trim_by, trim_matches, trim_ws, CharClass,
};

verus! {

/// The name inside a `[section]` header line (already trimmed), trimmed.
pub open spec fn section_header(line: Seq<char>) -> Option<Seq<char>> {
    if line.len() >= 2 && line[0] == '[' && line.last() == ']' {
        Some(trim(line.subrange(1, line.len() - 1)))
    } else {
        None
    }
}

/// A trimmed line that carries nothing: empty, or a `#` or `;` comment.
pub open spec fn is_blank_or_comment(line: Seq<char>) -> bool {
    line.len() == 0 || line[0] == '#' || line[0] == ';'
}

/// Scanning the remaining `lines` for `key` in `section`, with `current` the
/// section that the lines before them opened.
pub open spec fn scan_config(
    lines: Seq<Seq<char>>,
    section: Seq<char>,
    key: Seq<char>,
    current: Seq<char>,
) -> Option<Seq<char>>
    decreases lines.len(),
{
    if lines.len() == 0 {
        None
    } else {
        let line = trim(lines[0]);
        let rest = lines.drop_first();
        if is_blank_or_comment(line) {
            scan_config(rest, section, key, current)
        } else if section_header(line) is Some {
            scan_config(rest, section, key, section_header(line)->0)
        } else if current != section {
            scan_config(rest, section, key, current)
        } else {
            match split_once(line, CharClass::Only('=')) {
                Some((name, value)) => if trim(name) == key {
                    Some(trim_by(trim(value), CharClass::Either('"', '\'')))
                } else {
                    scan_config(rest, section, key, current)
                },
                None => scan_config(rest, section, key, current),
            }
        }
    }
}

/// The value of the first `key = value` line of `section` in `contents`:
/// lines are trimmed, blank lines and `#`/`;` comments are skipped, lines
/// before the first header belong to the section named by the empty string,
/// and the value is trimmed of white space and then of quotes.
pub open spec fn spec_config_value(contents: Seq<char>, section: Seq<char>, key: Seq<char>) -> Option<
    Seq<char>,
> {
    scan_config(split_lines(contents), section, key, seq![])
}

/// The Python version `major.minor` that a `version = major.minor...` line
/// of a `pyvenv.cfg` names, if `line` is such a line.
pub open spec fn version_of_line(line: Seq<char>) -> Option<Seq<char>> {
    match split_once(line, CharClass::Only('=')) {
        Some((name, value)) => if trim(name) == "version"@ {
            let v = trim(value);
            match split_once(v, CharClass::Only('.')) {
                Some((major, rest)) => {
                    let minor = match split_once(rest, CharClass::Only('.')) {
                        Some((m, _)) => m,
                        None => rest,
                    };
                    Some(major + seq!['.'] + minor)
                },
                None => None,
            }
        } else {
            None
        },
        None => None,
    }
}

/// The first Python version that a line of `lines` names.
pub open spec fn first_version(lines: Seq<Seq<char>>) -> Option<Seq<char>>
    decreases lines.len(),
{
    if lines.len() == 0 {
        None
    } else if version_of_line(lines[0]) is Some {
        version_of_line(lines[0])
    } else {
        first_version(lines.drop_first())
    }
}

/// Whether a `pyproject.toml` declares a Pixi table: one of its lines,
/// trimmed, is no `#` comment and starts with `[tool.pixi`.
pub open spec fn declares_pixi(contents: Seq<char>) -> bool {
    exists|i: int|
        0 <= i < split_lines(contents).len() && {
            let line = trim(#[trigger] split_lines(contents)[i]);
            !(line.len() > 0 && line[0] == '#') && starts_with(line, "[tool.pixi"@)
        }
}

impl MojoExtension {
    /// The value of `key` in `section` of an INI-style configuration.
    pub fn config_value(contents: &str, section: &str, key: &str) -> (r: Option<String>)
        ensures
            opt_view(r) == spec_config_value(contents@, section@, key@),
    {
        let lines = lines_of(contents);
        let ghost all = lines@.map_values(|l: &str| l@);
        let mut current: &str = "";
        proof {
            reveal_strlit("");
            assert(current@ =~= Seq::<char>::empty());
            assert(all.skip(0) =~= all);
        }
        let mut i: usize = 0;
        while i < lines.len()
            invariant
                i <= lines@.len(),
                all == lines@.map_values(|l: &str| l@),
                all == split_lines(contents@),
                spec_config_value(contents@, section@, key@) == scan_config(
                    all.skip(i as int),
                    section@,
                    key@,
                    current@,
                ),
            decreases lines@.len() - i,
        {
            let ghost rest = all.skip(i as int);
            assert(rest[0] == lines@[i as int]@);
            assert(rest.drop_first() =~= all.skip(i + 1));
            let line = trim_ws(lines[i]);
            let n = line.unicode_len();
            if n == 0 || line.get_char(0) == '#' || line.get_char(0) == ';' {
                i += 1;
                continue;
            }
            if n >= 2 && line.get_char(0) == '[' && line.get_char(n - 1) == ']' {
                current = trim_ws(line.substring_char(1, n - 1));
                i += 1;
                continue;
            }
            if !str_eq(current, section) {
                i += 1;
                continue;
            }
            match split_once_at(line, &CharClass::Only('=')) {
                Some((name, value)) => {
                    if str_eq(trim_ws(name), key) {
                        let v = trim_matches(trim_ws(value), &CharClass::Either('"', '\''));
                        return Some(String::from_str(v));
                    }
                },
                None => {},
            }
            i += 1;
        }
        None
    }

    /// The `major.minor` Python version that a `pyvenv.cfg` names.
    pub fn pyvenv_python_version(pyvenv_cfg: &str) -> (r: Option<String>)
        ensures
            opt_view(r) == first_version(split_lines(pyvenv_cfg@)),
    {
        let lines = lines_of(pyvenv_cfg);
        let ghost all = lines@.map_values(|l: &str| l@);
        assert(all.skip(0) =~= all);
        let mut i: usize = 0;
        while i < lines.len()
            invariant
                i <= lines@.len(),
                all == lines@.map_values(|l: &str| l@),
                all == split_lines(pyvenv_cfg@),
                first_version(all) == first_version(all.skip(i as int)),
            decreases lines@.len() - i,
        {
            let ghost rest = all.skip(i as int);
            assert(rest[0] == lines@[i as int]@);
            assert(rest.drop_first() =~= all.skip(i + 1));
            let found = Self::version_of_line(lines[i]);
            if found.is_some() {
                return found;
            }
            i += 1;
        }
        None
    }

    fn version_of_line(line: &str) -> (r: Option<String>)
        ensures
            opt_view(r) == version_of_line(line@),
    {
        let (name, value) = match split_once_at(line, &CharClass::Only('=')) {
            Some(parts) => parts,
            None => return None,
        };
        if !str_eq(trim_ws(name), "version") {
            return None;
        }
        let v = trim_ws(value);
        let (major, rest) = match split_once_at(v, &CharClass::Only('.')) {
            Some(parts) => parts,
            None => return None,
        };
        let minor = match split_once_at(rest, &CharClass::Only('.')) {
            Some((m, _)) => m,
            None => rest,
        };
        let mut out = String::from_str(major);
        out.append(".");
        out.append(minor);
        proof {
            reveal_strlit(".");
        }
        assert(out@ =~= major@ + seq!['.'] + minor@);
        Some(out)
    }

    /// Whether a `pyproject.toml` declares a Pixi table.
    pub fn pyproject_declares_pixi(contents: &str) -> (r: bool)
        ensures
            r == declares_pixi(contents@),
    {
        let lines = lines_of(contents);
        let ghost all = lines@.map_values(|l: &str| l@);
        let mut i: usize = 0;
        while i < lines.len()
            invariant
                i <= lines@.len(),
                all == lines@.map_values(|l: &str| l@),
                all == split_lines(contents@),
                forall|j: int|
                    0 <= j < i ==> {
                        let line = trim(#[trigger] all[j]);
                        !(!(line.len() > 0 && line[0] == '#') && starts_with(line, "[tool.pixi"@))
                    },
            decreases lines@.len() - i,
        {
            assert(all[i as int] == lines@[i as int]@);
            let line = trim_ws(lines[i]);
            let comment = line.unicode_len() > 0 && line.get_char(0) == '#';
            if !comment && has_prefix(line, "[tool.pixi") {
                return true;
            }
            i += 1;
        }
        false
    }
}

} // verus!
