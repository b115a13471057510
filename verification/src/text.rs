//! Character-level text helpers with their specifications.
//!
//! Strings are modelled by their views, sequences of `char`.

use vstd::prelude::*;

verus! {

/// The view of an optional string.
pub open spec fn opt_view(o: Option<String>) -> Option<Seq<char>> {
    match o {
        Some(s) => Some(s@),
        None => None,
    }
}

/// The views of a sequence of strings.
pub open spec fn views(v: Seq<String>) -> Seq<Seq<char>> {
    v.map_values(|s: String| s@)
}

/// The views of a sequence of string pairs.
pub open spec fn pairs(v: Seq<(String, String)>) -> Seq<(Seq<char>, Seq<char>)> {
    v.map_values(|p: (String, String)| (p.0@, p.1@))
}

/// Unicode `White_Space` characters, the set that `char::is_whitespace` and
/// `str::trim` use.
pub open spec fn is_unicode_whitespace(c: char) -> bool {
    let u = c as u32;
    ||| 0x09 <= u <= 0x0d
    ||| u == 0x20
    ||| u == 0x85
    ||| u == 0xa0
    ||| u == 0x1680
    ||| 0x2000 <= u <= 0x200a
    ||| u == 0x2028
    ||| u == 0x2029
    ||| u == 0x202f
    ||| u == 0x205f
    ||| u == 0x3000
}

/// A class of characters that text is trimmed, searched or split by.
#[derive(Clone, Copy)]
pub enum CharClass {
    /// Unicode white space.
    Whitespace,
    /// One particular character.
    Only(char),
    /// Either of two characters.
    Either(char, char),
}

impl CharClass {
    /// Whether `c` belongs to the class.
    pub open spec fn spec_has(self, c: char) -> bool {
        match self {
            CharClass::Whitespace => is_unicode_whitespace(c),
            CharClass::Only(a) => c == a,
            CharClass::Either(a, b) => c == a || c == b,
        }
    }

    /// Whether `c` belongs to the class.
    pub fn has(&self, c: char) -> (r: bool)
        ensures
            r == self.spec_has(c),
    {
        match self {
            CharClass::Whitespace => {
                let u = c as u32;
                (0x09 <= u && u <= 0x0d) || u == 0x20 || u == 0x85 || u == 0xa0 || u == 0x1680
                    || (0x2000 <= u && u <= 0x200a) || u == 0x2028 || u == 0x2029 || u == 0x202f
                    || u == 0x205f || u == 0x3000
            },
            CharClass::Only(a) => c == *a,
            CharClass::Either(a, b) => c == *a || c == *b,
        }
    }
}

/// `s` without the leading characters of `cls`.
pub open spec fn trim_start_by(s: Seq<char>, cls: CharClass) -> Seq<char>
    decreases s.len(),
{
    if s.len() > 0 && cls.spec_has(s[0]) {
        trim_start_by(s.drop_first(), cls)
    } else {
        s
    }
}

/// `s` without the trailing characters of `cls`.
pub open spec fn trim_end_by(s: Seq<char>, cls: CharClass) -> Seq<char>
    decreases s.len(),
{
    if s.len() > 0 && cls.spec_has(s.last()) {
        trim_end_by(s.drop_last(), cls)
    } else {
        s
    }
}

/// `s` without the leading and trailing characters of `cls`, as
/// `str::trim_matches` gives it.
pub open spec fn trim_by(s: Seq<char>, cls: CharClass) -> Seq<char> {
    trim_end_by(trim_start_by(s, cls), cls)
}

/// `s` without leading and trailing white space, as `str::trim` gives it.
pub open spec fn trim(s: Seq<char>) -> Seq<char> {
    trim_by(s, CharClass::Whitespace)
}

/// `s` begins with `p`.
pub open spec fn starts_with(s: Seq<char>, p: Seq<char>) -> bool {
    p.len() <= s.len() && s.take(p.len() as int) == p
}

/// `s` ends with `p`.
pub open spec fn ends_with(s: Seq<char>, p: Seq<char>) -> bool {
    p.len() <= s.len() && s.skip(s.len() - p.len()) == p
}

/// The index of the first character of `cls` in `s`.
pub open spec fn index_of(s: Seq<char>, cls: CharClass) -> Option<int>
    decreases s.len(),
{
    if s.len() == 0 {
        None
    } else if cls.spec_has(s[0]) {
        Some(0)
    } else {
        match index_of(s.drop_first(), cls) {
            Some(k) => Some(k + 1),
            None => None,
        }
    }
}

/// The index of the last character of `cls` in `s`.
pub open spec fn last_index_of(s: Seq<char>, cls: CharClass) -> Option<int>
    decreases s.len(),
{
    if s.len() == 0 {
        None
    } else if cls.spec_has(s.last()) {
        Some(s.len() - 1)
    } else {
        last_index_of(s.drop_last(), cls)
    }
}

/// What `str::split_once` gives for a character of `cls`.
pub open spec fn split_once(s: Seq<char>, cls: CharClass) -> Option<(Seq<char>, Seq<char>)> {
    match index_of(s, cls) {
        Some(k) => Some((s.take(k), s.skip(k + 1))),
        None => None,
    }
}

/// The segment after the last character of `cls`, or all of `s`: the first
/// item of `str::rsplit`.
pub open spec fn last_segment(s: Seq<char>, cls: CharClass) -> Seq<char> {
    match last_index_of(s, cls) {
        Some(k) => s.skip(k + 1),
        None => s,
    }
}

/// Splitting `s` at each `'\n'`, with `line` the part of the current line
/// that was read before `s`.
pub open spec fn split_lines_from(s: Seq<char>, line: Seq<char>) -> Seq<Seq<char>>
    decreases s.len(),
{
    if s.len() == 0 {
        seq![line]
    } else if s[0] == '\n' {
        seq![line] + split_lines_from(s.drop_first(), seq![])
    } else {
        split_lines_from(s.drop_first(), line.push(s[0]))
    }
}

/// The lines of `s`, split at each `'\n'`. Unlike `str::lines` a final empty
/// line is kept and a `'\r'` before the `'\n'` stays in its line; the parsers
/// of this crate trim every line and skip empty ones, so both read the same.
pub open spec fn split_lines(s: Seq<char>) -> Seq<Seq<char>> {
    split_lines_from(s, seq![])
}

/// What `index_of` finds: a character of the class, with none before it.
pub proof fn lemma_index_of(s: Seq<char>, cls: CharClass)
    ensures
        index_of(s, cls) matches Some(k) ==> 0 <= k < s.len() && cls.spec_has(s[k]) && forall|
            j: int,
        | 0 <= j < k ==> !cls.spec_has(#[trigger] s[j]),
        index_of(s, cls) is None ==> forall|j: int| 0 <= j < s.len() ==> !cls.spec_has(
            #[trigger] s[j],
        ),
    decreases s.len(),
{
    if s.len() > 0 {
        lemma_index_of(s.drop_first(), cls);
        assert forall|j: int| 1 <= j < s.len() implies s[j] == s.drop_first()[j - 1] by {}
    }
}

/// What `last_index_of` finds: a character of the class, with none after
/// it.
pub proof fn lemma_last_index_of(s: Seq<char>, cls: CharClass)
    ensures
        last_index_of(s, cls) matches Some(k) ==> 0 <= k < s.len() && cls.spec_has(s[k])
            && forall|j: int| k < j < s.len() ==> !cls.spec_has(#[trigger] s[j]),
        last_index_of(s, cls) is None ==> forall|j: int|
            0 <= j < s.len() ==> !cls.spec_has(#[trigger] s[j]),
    decreases s.len(),
{
    if s.len() > 0 {
        lemma_last_index_of(s.drop_last(), cls);
        assert forall|j: int| 0 <= j < s.len() - 1 implies s[j] == s.drop_last()[j] by {}
    }
}

/// The first index with a character of `cls` is the one after a prefix free
/// of them.
pub proof fn lemma_index_of_at(s: Seq<char>, cls: CharClass, k: int)
    requires
        0 <= k <= s.len(),
        forall|j: int| 0 <= j < k ==> !cls.spec_has(#[trigger] s[j]),
    ensures
        k < s.len() && cls.spec_has(s[k]) ==> index_of(s, cls) == Some(k),
        k == s.len() ==> index_of(s, cls) is None,
    decreases k,
{
    if k > 0 {
        let t = s.drop_first();
        assert forall|j: int| 0 <= j < k - 1 implies !cls.spec_has(#[trigger] t[j]) by {
            assert(t[j] == s[j + 1]);
        }
        lemma_index_of_at(t, cls, k - 1);
    }
}

/// The last index with a character of `cls` is the one before a suffix free
/// of them.
pub proof fn lemma_last_index_of_at(s: Seq<char>, cls: CharClass, k: int)
    requires
        -1 <= k < s.len(),
        forall|j: int| k < j < s.len() ==> !cls.spec_has(#[trigger] s[j]),
    ensures
        k >= 0 && cls.spec_has(s[k]) ==> last_index_of(s, cls) == Some(k),
        k == -1 ==> last_index_of(s, cls) is None,
    decreases s.len(),
{
    if s.len() > 0 && k < s.len() - 1 {
        let t = s.drop_last();
        assert forall|j: int| k < j < t.len() implies !cls.spec_has(#[trigger] t[j]) by {
            assert(t[j] == s[j]);
        }
        lemma_last_index_of_at(t, cls, k);
    }
}

/// `s` without the leading and trailing characters of `cls`.
pub fn trim_matches<'a>(s: &'a str, cls: &CharClass) -> (r: &'a str)
    ensures
        r@ == trim_by(s@, *cls),
{
    let n = s.unicode_len();
    let mut i: usize = 0;
    assert(s@.skip(0) =~= s@);
    while i < n && cls.has(s.get_char(i))
        invariant
            i <= n,
            n == s@.len(),
            trim_start_by(s@, *cls) == trim_start_by(s@.skip(i as int), *cls),
        decreases n - i,
    {
        assert(s@.skip(i as int).drop_first() =~= s@.skip(i + 1));
        i += 1;
    }
    assert(trim_start_by(s@, *cls) =~= s@.subrange(i as int, n as int));
    let mut j: usize = n;
    while j > i && cls.has(s.get_char(j - 1))
        invariant
            i <= j <= n,
            n == s@.len(),
            trim_by(s@, *cls) == trim_end_by(s@.subrange(i as int, j as int), *cls),
        decreases j,
    {
        assert(s@.subrange(i as int, j as int).drop_last() =~= s@.subrange(i as int, j - 1));
        j -= 1;
    }
    s.substring_char(i, j)
}

/// `s` without leading and trailing white space.
pub fn trim_ws<'a>(s: &'a str) -> (r: &'a str)
    ensures
        r@ == trim(s@),
{
    trim_matches(s, &CharClass::Whitespace)
}

/// Whether `a` and `b` hold the same characters.
pub fn str_eq(a: &str, b: &str) -> (r: bool)
    ensures
        r == (a@ == b@),
{
    let n = a.unicode_len();
    if n != b.unicode_len() {
        return false;
    }
    let mut i: usize = 0;
    while i < n
        invariant
            i <= n,
            n == a@.len(),
            n == b@.len(),
            forall|j: int| 0 <= j < i ==> a@[j] == b@[j],
        decreases n - i,
    {
        if a.get_char(i) != b.get_char(i) {
            return false;
        }
        i += 1;
    }
    assert(a@ =~= b@);
    true
}

/// Whether `s` starts with `p`.
pub fn has_prefix(s: &str, p: &str) -> (r: bool)
    ensures
        r == starts_with(s@, p@),
{
    let n = s.unicode_len();
    let m = p.unicode_len();
    if m > n {
        return false;
    }
    let mut i: usize = 0;
    while i < m
        invariant
            i <= m <= n,
            n == s@.len(),
            m == p@.len(),
            forall|j: int| 0 <= j < i ==> s@[j] == p@[j],
        decreases m - i,
    {
        if s.get_char(i) != p.get_char(i) {
            assert(s@.take(m as int)[i as int] != p@[i as int]);
            return false;
        }
        i += 1;
    }
    assert(s@.take(m as int) =~= p@);
    true
}

/// Whether `s` ends with `p`.
pub fn has_suffix(s: &str, p: &str) -> (r: bool)
    ensures
        r == ends_with(s@, p@),
{
    let n = s.unicode_len();
    let m = p.unicode_len();
    if m > n {
        return false;
    }
    let d = n - m;
    let mut i: usize = 0;
    while i < m
        invariant
            i <= m <= n,
            d == n - m,
            n == s@.len(),
            m == p@.len(),
            forall|j: int| 0 <= j < i ==> s@[d + j] == p@[j],
        decreases m - i,
    {
        if s.get_char(d + i) != p.get_char(i) {
            assert(s@.skip(d as int)[i as int] != p@[i as int]);
            return false;
        }
        i += 1;
    }
    assert(s@.skip(d as int) =~= p@);
    true
}

/// The index of the first character of `cls` in `s`.
pub fn find_first(s: &str, cls: &CharClass) -> (r: Option<usize>)
    ensures
        r matches Some(k) ==> index_of(s@, *cls) == Some(k as int),
        r is None ==> index_of(s@, *cls) is None,
{
    let n = s.unicode_len();
    let mut i: usize = 0;
    while i < n
        invariant
            i <= n,
            n == s@.len(),
            forall|j: int| 0 <= j < i ==> !cls.spec_has(#[trigger] s@[j]),
        decreases n - i,
    {
        if cls.has(s.get_char(i)) {
            proof {
                lemma_index_of_at(s@, *cls, i as int);
            }
            return Some(i);
        }
        i += 1;
    }
    proof {
        lemma_index_of_at(s@, *cls, n as int);
    }
    None
}

/// The index of the last character of `cls` in `s`.
pub fn find_last(s: &str, cls: &CharClass) -> (r: Option<usize>)
    ensures
        r matches Some(k) ==> last_index_of(s@, *cls) == Some(k as int),
        r is None ==> last_index_of(s@, *cls) is None,
{
    let n = s.unicode_len();
    let mut i: usize = n;
    while i > 0
        invariant
            i <= n,
            n == s@.len(),
            forall|j: int| i <= j < n ==> !cls.spec_has(#[trigger] s@[j]),
        decreases i,
    {
        if cls.has(s.get_char(i - 1)) {
            proof {
                lemma_last_index_of_at(s@, *cls, i - 1);
            }
            return Some(i - 1);
        }
        i -= 1;
    }
    proof {
        lemma_last_index_of_at(s@, *cls, -1);
    }
    None
}

/// Whether `s` holds a character of `cls`.
pub fn contains_any(s: &str, cls: &CharClass) -> (r: bool)
    ensures
        r == (index_of(s@, *cls) is Some),
{
    find_first(s, cls).is_some()
}

/// The parts of `s` before and after the first character of `cls`.
pub fn split_once_at<'a>(s: &'a str, cls: &CharClass) -> (r: Option<(&'a str, &'a str)>)
    ensures
        r matches Some((a, b)) ==> split_once(s@, *cls) == Some((a@, b@)),
        r is None ==> split_once(s@, *cls) is None,
{
    match find_first(s, cls) {
        Some(k) => {
            proof {
                lemma_index_of(s@, *cls);
            }
            let n = s.unicode_len();
            Some((s.substring_char(0, k), s.substring_char(k + 1, n)))
        },
        None => None,
    }
}

/// The segment of `s` after the last character of `cls`.
pub fn last_segment_of<'a>(s: &'a str, cls: &CharClass) -> (r: &'a str)
    ensures
        r@ == last_segment(s@, *cls),
{
    match find_last(s, cls) {
        Some(k) => {
            proof {
                lemma_last_index_of(s@, *cls);
            }
            let n = s.unicode_len();
            s.substring_char(k + 1, n)
        },
        None => {
            let n = s.unicode_len();
            assert(s@.subrange(0, n as int) =~= s@);
            s.substring_char(0, n)
        },
    }
}

/// `s` without the suffix `p`, if it has it.
pub fn strip_suffix<'a>(s: &'a str, p: &str) -> (r: Option<&'a str>)
    ensures
        r matches Some(t) ==> ends_with(s@, p@) && t@ == s@.take(s@.len() - p@.len()),
        r is None ==> !ends_with(s@, p@),
{
    if has_suffix(s, p) {
        let n = s.unicode_len();
        let m = p.unicode_len();
        Some(s.substring_char(0, n - m))
    } else {
        None
    }
}

/// A new string holding `a` followed by `b`.
pub fn concat2(a: &str, b: &str) -> (r: String)
    ensures
        r@ == a@ + b@,
{
    let mut r = String::from_str(a);
    r.append(b);
    r
}

/// A new string holding `a`, `b` and `c` in turn.
pub fn concat3(a: &str, b: &str, c: &str) -> (r: String)
    ensures
        r@ == a@ + b@ + c@,
{
    let mut r = String::from_str(a);
    r.append(b);
    r.append(c);
    r
}

/// The lines of `s`, split at each `'\n'`.
pub fn lines_of<'a>(s: &'a str) -> (r: Vec<&'a str>)
    ensures
        r@.map_values(|l: &str| l@) == split_lines(s@),
{
    let n = s.unicode_len();
    let mut r: Vec<&'a str> = Vec::new();
    let mut start: usize = 0;
    let mut i: usize = 0;
    assert(s@.skip(0) =~= s@);
    assert(s@.subrange(0, 0) =~= Seq::<char>::empty());
    assert(r@.map_values(|l: &str| l@) =~= Seq::<Seq<char>>::empty());
    while i < n
        invariant
            start <= i <= n,
            n == s@.len(),
            split_lines(s@) == r@.map_values(|l: &str| l@) + split_lines_from(
                s@.skip(i as int),
                s@.subrange(start as int, i as int),
            ),
        decreases n - i,
    {
        let c = s.get_char(i);
        assert(s@.skip(i as int).drop_first() =~= s@.skip(i + 1));
        if c == '\n' {
            let line = s.substring_char(start, i);
            let ghost before = r@.map_values(|l: &str| l@);
            r.push(line);
            assert(r@.map_values(|l: &str| l@) =~= before.push(line@));
            assert(s@.subrange(i + 1, i + 1) =~= Seq::<char>::empty());
            start = i + 1;
        } else {
            assert(s@.subrange(start as int, i as int).push(c) =~= s@.subrange(
                start as int,
                i + 1,
            ));
        }
        i += 1;
    }
    let line = s.substring_char(start, n);
    let ghost before = r@.map_values(|l: &str| l@);
    r.push(line);
    assert(r@.map_values(|l: &str| l@) =~= before.push(line@));
    r
}

} // verus!
