//! The LRC format of synced lyrics: lines like `[01:23.45] some words`.
//!
//! Time stamps are read as two decimal numbers, minutes and seconds; the
//! numbers themselves are floating point and are converted by the caller,
//! so this module decides which lines carry a time stamp and splits them.
use vstd::prelude::*;

use crate::text::{
    chars_of, copy_range, find_from, find_from_exec, lemma_find_from, lines, lines_exec, string_of,
    trim, trim_chars, views,
};
use crate::unicode::{ascii_lower, to_ascii_lowercase};

verus! {

/// An ASCII digit.
pub open spec fn is_digit(c: char) -> bool {
    '0' <= c <= '9'
}

/// The end of the run of digits that starts at `i`.
pub open spec fn digits_end(s: Seq<char>, i: int) -> int
    decreases s.len() - i,
{
    if i < 0 || i >= s.len() || !is_digit(s[i]) {
        i
    } else {
        digits_end(s, i + 1)
    }
}

/// `s` equals the lower-case word `w`, ignoring ASCII case.
pub open spec fn eq_ignore_case(s: Seq<char>, w: Seq<char>) -> bool {
    s.len() == w.len() && forall|i: int| 0 <= i < s.len() ==> ascii_lower(#[trigger] s[i]) == w[i]
}

/// An optional exponent: `e` or `E`, an optional sign, one or more digits,
/// running to the end of `b`.
pub open spec fn exponent_ok(b: Seq<char>, j: int) -> bool {
    j == b.len() || (0 <= j < b.len() && (b[j] == 'e' || b[j] == 'E') && {
        let k = if j + 1 < b.len() && (b[j + 1] == '+' || b[j + 1] == '-') {
            j + 2
        } else {
            j + 1
        };
        digits_end(b, k) > k && digits_end(b, k) == b.len()
    })
}

/// A decimal number: digits, optionally a point and more digits, at least
/// one digit in all, then an optional exponent.
pub open spec fn number_syntax(b: Seq<char>) -> bool {
    let i = digits_end(b, 0);
    if i < b.len() && b[i] == '.' {
        let j = digits_end(b, i + 1);
        i + (j - i - 1) > 0 && exponent_ok(b, j)
    } else {
        i > 0 && exponent_ok(b, i)
    }
}

/// The text of a floating-point number as `f64::from_str` accepts it: an
/// optional sign, then `inf`, `infinity` or `nan` in any ASCII case, or a
/// decimal number.
pub open spec fn float_syntax(s: Seq<char>) -> bool {
    let b = if s.len() > 0 && (s[0] == '+' || s[0] == '-') {
        s.drop_first()
    } else {
        s
    };
    eq_ignore_case(b, "inf"@) || eq_ignore_case(b, "infinity"@) || eq_ignore_case(b, "nan"@)
        || number_syntax(b)
}

fn is_digit_exec(c: char) -> (b: bool)
    ensures
        b == is_digit(c),
{
    '0' <= c && c <= '9'
}

fn digits_end_exec(s: &[char], i: usize) -> (e: usize)
    requires
        i <= s@.len(),
    ensures
        e == digits_end(s@, i as int),
        i <= e <= s@.len(),
{
    let mut e = i;
    while e < s.len() && is_digit_exec(s[e])
        invariant
            i <= e <= s@.len(),
            digits_end(s@, i as int) == digits_end(s@, e as int),
        decreases s.len() - e,
    {
        e = e + 1;
    }
    e
}

fn eq_ignore_case_exec(s: &[char], w: &[char]) -> (b: bool)
    ensures
        b == eq_ignore_case(s@, w@),
{
    if s.len() != w.len() {
        return false;
    }
    let mut i: usize = 0;
    while i < s.len()
        invariant
            s@.len() == w@.len(),
            i <= s@.len(),
            forall|k: int| 0 <= k < i ==> ascii_lower(#[trigger] s@[k]) == w@[k],
        decreases s.len() - i,
    {
        if to_ascii_lowercase(s[i]) != w[i] {
            return false;
        }
        i = i + 1;
    }
    true
}

fn exponent_ok_exec(b: &[char], j: usize) -> (r: bool)
    requires
        j <= b@.len(),
    ensures
        r == exponent_ok(b@, j as int),
{
    if j == b.len() {
        return true;
    }
    if b[j] != 'e' && b[j] != 'E' {
        return false;
    }
    let k = if j + 1 < b.len() && (b[j + 1] == '+' || b[j + 1] == '-') {
        j + 2
    } else {
        j + 1
    };
    let e = digits_end_exec(b, k);
    e > k && e == b.len()
}

fn number_syntax_exec(b: &[char]) -> (r: bool)
    ensures
        r == number_syntax(b@),
{
    let i = digits_end_exec(b, 0);
    if i < b.len() && b[i] == '.' {
        let j = digits_end_exec(b, i + 1);
        i + (j - i - 1) > 0 && exponent_ok_exec(b, j)
    } else {
        i > 0 && exponent_ok_exec(b, i)
    }
}

/// Whether `s` is the text of a floating-point number.
pub fn float_syntax_exec(s: &[char]) -> (r: bool)
    ensures
        r == float_syntax(s@),
{
    let b = if s.len() > 0 && (s[0] == '+' || s[0] == '-') {
        copy_range(s, 1, s.len())
    } else {
        copy_range(s, 0, s.len())
    };
    assert(s@.len() > 0 ==> s@.subrange(1, s@.len() as int) =~= s@.drop_first());
    assert(s@.subrange(0, s@.len() as int) =~= s@);
    eq_ignore_case_exec(&b, &chars_of("inf")) || eq_ignore_case_exec(&b, &chars_of("infinity"))
        || eq_ignore_case_exec(&b, &chars_of("nan")) || number_syntax_exec(&b)
}

/// One time-stamped line: the minutes and seconds as written, and the
/// trimmed words.
pub struct LrcEntry {
    pub minutes: String,
    pub seconds: String,
    pub text: String,
}

/// The view of an entry.
pub open spec fn entry_view(e: LrcEntry) -> (Seq<char>, Seq<char>, Seq<char>) {
    (e.minutes@, e.seconds@, e.text@)
}

/// The time-stamped entry a line holds, if any: once trimmed it starts with
/// `[`, has a `]`, and between them `minutes:seconds`, split at the first
/// `:`, both numbers; the words are what follows the `]`, trimmed.
pub open spec fn line_entry(line: Seq<char>) -> Option<(Seq<char>, Seq<char>, Seq<char>)> {
    let t = trim(line);
    if !(t.len() > 0 && t[0] == '[') {
        None
    } else {
        match find_from(t, seq![']'], 0) {
            None => None,
            Some(close) => {
                let ts = t.subrange(1, close);
                let text = trim(t.skip(close + 1));
                match find_from(ts, seq![':'], 0) {
                    None => None,
                    Some(p) => {
                        let mi = ts.take(p);
                        let se = ts.skip(p + 1);
                        if float_syntax(mi) && float_syntax(se) {
                            Some((mi, se, text))
                        } else {
                            None
                        }
                    },
                }
            },
        }
    }
}

/// The entries of a list of lines, in order.
pub open spec fn entries_of(ls: Seq<Seq<char>>) -> Seq<(Seq<char>, Seq<char>, Seq<char>)>
    decreases ls.len(),
{
    if ls.len() == 0 {
        Seq::empty()
    } else {
        entries_of(ls.drop_last()) + match line_entry(ls.last()) {
            Some(e) => seq![e],
            None => Seq::empty(),
        }
    }
}

/// The time-stamped entries of an LRC text, in the order of its lines.
pub open spec fn lrc_entries(raw: Seq<char>) -> Seq<(Seq<char>, Seq<char>, Seq<char>)> {
    entries_of(lines(raw))
}

/// The entry a line holds, if any.
pub fn line_entry_exec(line: &[char]) -> (r: Option<LrcEntry>)
    ensures
        match r {
            Some(e) => line_entry(line@) == Some(entry_view(e)),
            None => line_entry(line@) is None,
        },
{
    let t = trim_chars(line);
    if !(t.len() > 0 && t[0] == '[') {
        return None;
    }
    let mut close_pat: Vec<char> = Vec::new();
    close_pat.push(']');
    assert(close_pat@ =~= seq![']']);
    let close = match find_from_exec(&t, &close_pat, 0) {
        Some(c) => c,
        None => return None,
    };
    proof {
        lemma_find_from(t@, seq![']'], 0);
        if close == 0 {
            assert(t@.subrange(0, 1)[0] == ']');
        }
    }
    let ts = copy_range(&t, 1, close);
    let text = trim_chars(&copy_range(&t, close + 1, t.len()));
    assert(t@.subrange(close + 1, t@.len() as int) =~= t@.skip(close + 1));
    let mut colon: Vec<char> = Vec::new();
    colon.push(':');
    assert(colon@ =~= seq![':']);
    let p = match find_from_exec(&ts, &colon, 0) {
        Some(p) => p,
        None => return None,
    };
    proof {
        lemma_find_from(ts@, seq![':'], 0);
    }
    let mi = copy_range(&ts, 0, p);
    let se = copy_range(&ts, p + 1, ts.len());
    assert(ts@.subrange(0, p as int) =~= ts@.take(p as int));
    assert(ts@.subrange(p + 1, ts@.len() as int) =~= ts@.skip(p + 1));
    if float_syntax_exec(&mi) && float_syntax_exec(&se) {
        Some(LrcEntry { minutes: string_of(&mi), seconds: string_of(&se), text: string_of(&text) })
    } else {
        None
    }
}

/// The time-stamped entries of an LRC text, in the order of its lines.
/// Lines without a readable time stamp are skipped.
pub fn scan_lrc(raw: &str) -> (r: Vec<LrcEntry>)
    ensures
        r@.map_values(|e: LrcEntry| entry_view(e)) == lrc_entries(raw@),
{
    let ls = lines_exec(&chars_of(raw));
    let mut r: Vec<LrcEntry> = Vec::new();
    let mut i: usize = 0;
    while i < ls.len()
        invariant
            i <= ls@.len(),
            views(ls@) == lines(raw@),
            r@.map_values(|e: LrcEntry| entry_view(e)) == entries_of(views(ls@).take(i as int)),
        decreases ls.len() - i,
    {
        assert(views(ls@).take(i + 1).drop_last() =~= views(ls@).take(i as int));
        assert(views(ls@).take(i + 1).last() == ls@[i as int]@);
        let ghost before = r@.map_values(|e: LrcEntry| entry_view(e));
        match line_entry_exec(&ls[i]) {
            Some(e) => {
                r.push(e);
                assert(r@.map_values(|e: LrcEntry| entry_view(e)) =~= before.push(entry_view(e)));
            },
            None => {
                assert(before + Seq::<(Seq<char>, Seq<char>, Seq<char>)>::empty() =~= before);
            },
        }
        i = i + 1;
    }
    assert(views(ls@).take(ls@.len() as int) =~= views(ls@));
    r
}

} // verus!
