//! Character-level helpers over strings: whitespace, trimming, counting.

use vstd::prelude::*;
use vstd::string::StrSliceExecFns;

verus! {

/// Unicode `White_Space` characters, the set that `char::is_whitespace` and
/// `str::trim` use.
pub open spec fn is_space(c: char) -> bool {
    ('\u{9}' <= c && c <= '\u{d}') || c == ' ' || c == '\u{85}' || c == '\u{a0}'
        || c == '\u{1680}' || ('\u{2000}' <= c && c <= '\u{200a}') || c == '\u{2028}'
        || c == '\u{2029}' || c == '\u{202f}' || c == '\u{205f}' || c == '\u{3000}'
}

/// Number of leading whitespace characters.
pub open spec fn leading_spaces(s: Seq<char>) -> nat
    decreases s.len(),
{
    if s.len() == 0 || !is_space(s[0]) {
        0
    } else {
        1 + leading_spaces(s.drop_first())
    }
}

/// Number of trailing whitespace characters.
pub open spec fn trailing_spaces(s: Seq<char>) -> nat
    decreases s.len(),
{
    if s.len() == 0 || !is_space(s.last()) {
        0
    } else {
        1 + trailing_spaces(s.drop_last())
    }
}

/// `s` with leading and trailing whitespace removed.
pub open spec fn trim_spec(s: Seq<char>) -> Seq<char> {
    if leading_spaces(s) >= s.len() {
        Seq::empty()
    } else {
        s.subrange(leading_spaces(s) as int, s.len() - trailing_spaces(s))
    }
}

/// How many times `c` occurs in `s`.
pub open spec fn char_count(s: Seq<char>, c: char) -> nat
    decreases s.len(),
{
    if s.len() == 0 {
        0
    } else {
        char_count(s.drop_last(), c) + if s.last() == c {
            1nat
        } else {
            0nat
        }
    }
}

/// Relies on `str::trim`: it removes leading and trailing `White_Space`
/// characters and nothing else.
#[verifier::external_body]
pub(crate) fn trim_str(s: &str) -> (r: &str)
    ensures
        r@ == trim_spec(s@),
{
    s.trim()
}

/// Whether `c` occurs in `s`.
pub fn contains_char(s: &str, c: char) -> (r: bool)
    ensures
        r == s@.contains(c),
{
    let mut found = false;
    for x in it: s.chars()
        invariant
            it.seq() == s@,
            found == (exists|j: int| 0 <= j < it.index() && s@[j] == c),
    {
        proof {
            assert(s@.take(it.index() + 1) == s@.take(it.index() as int).push(x));
            assert(s@.take(it.index() + 1)[it.index() as int] == x);
        }
        if x == c {
            found = true;
        }
    }
    found
}

/// The brace heuristic for a finished JSON object: with surrounding
/// whitespace stripped, the text starts with `{`, ends with `}`, and holds as
/// many `{` as `}`, at least one. Braces inside string literals are counted
/// too: this is deliberately not a parser.
pub open spec fn looks_like_json_object(s: Seq<char>) -> bool {
    let t = trim_spec(s);
    &&& t.len() > 0
    &&& t[0] == '{'
    &&& t.last() == '}'
    &&& char_count(t, '{') == char_count(t, '}')
    &&& char_count(t, '{') > 0
}

/// Decides `looks_like_json_object`.
pub fn is_json_object_like(s: &str) -> (r: bool)
    ensures
        r == looks_like_json_object(s@),
{
    let t = trim_str(s);
    let n = t.unicode_len();
    let mut opens: usize = 0;
    let mut closes: usize = 0;
    let mut first: Option<char> = None;
    let mut last: Option<char> = None;
    for x in it: t.chars()
        invariant
            it.seq() == t@,
            n == t@.len(),
            opens == char_count(t@.take(it.index() as int), '{'),
            closes == char_count(t@.take(it.index() as int), '}'),
            opens <= it.index(),
            closes <= it.index(),
            it.index() == 0 ==> first is None && last is None,
            it.index() > 0 ==> first == Some(t@[0]) && last == Some(t@[it.index() - 1]),
    {
        let ghost i = it.index();
        proof {
            let pre = t@.take(i);
            let next = t@.take(i + 1);
            assert(next.drop_last() == pre);
            assert(next.last() == x);
        }
        if first.is_none() {
            first = Some(x);
        }
        last = Some(x);
        if x == '{' {
            opens = opens + 1;
        } else if x == '}' {
            closes = closes + 1;
        }
    }
    proof {
        assert(t@.take(t@.len() as int) == t@);
    }
    match (first, last) {
        (Some(f), Some(l)) => f == '{' && l == '}' && opens == closes && opens > 0,
        _ => false,
    }
}

} // verus!
