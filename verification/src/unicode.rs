//! Characters: the properties that come from the standard library's
//! Unicode tables (case mappings, alphanumerics), each behind a call with a
//! contract, and the UTF-8 byte lengths that slicing by bytes depends on.
use vstd::prelude::*;

verus! {

/// The first character of the Unicode upper-case mapping of `c`, as
/// `char::to_uppercase` yields it.
pub uninterp spec fn first_uppercase_char(c: char) -> char;

/// Calls `char::to_uppercase` and takes the first character it yields.
/// Its documentation says the iterator yields one or more characters, so
/// the result is always `Some`; which character it is, is given only by the
/// name `first_uppercase_char`.
#[verifier::external_body]
pub fn first_uppercase(c: char) -> (r: Option<char>)
    ensures
        r == Some(first_uppercase_char(c)),
{
    c.to_uppercase().next()
}

/// The Unicode lower-case mapping of a whole text, as `str::to_lowercase`
/// computes it.
pub uninterp spec fn lowercase(s: Seq<char>) -> Seq<char>;

/// Calls `str::to_lowercase`. Its result depends on `s` alone; what it is
/// (the Unicode case tables, context-dependent final sigma) is given only by
/// the name `lowercase`.
#[verifier::external_body]
pub fn to_lowercase(s: &str) -> (r: String)
    ensures
        r@ == lowercase(s@),
{
    s.to_lowercase()
}

/// The Unicode `Alphabetic` or `Numeric` property of `c`, as
/// `char::is_alphanumeric` tests it.
pub uninterp spec fn alphanumeric(c: char) -> bool;

/// Calls `char::is_alphanumeric`. What it answers for a character is given
/// only by the name `alphanumeric`.
#[verifier::external_body]
pub fn is_alphanumeric(c: char) -> (b: bool)
    ensures
        b == alphanumeric(c),
{
    c.is_alphanumeric()
}

/// The number of bytes `c` takes in UTF-8.
pub open spec fn utf8_len(c: char) -> int {
    let u = c as u32;
    if u < 0x80 {
        1
    } else if u < 0x800 {
        2
    } else if u < 0x10000 {
        3
    } else {
        4
    }
}

/// The number of bytes `c` takes in UTF-8, as `char::len_utf8` gives it.
pub fn len_utf8(c: char) -> (n: usize)
    ensures
        n == utf8_len(c),
{
    let u = c as u32;
    if u < 0x80 {
        1
    } else if u < 0x800 {
        2
    } else if u < 0x10000 {
        3
    } else {
        4
    }
}

/// The ASCII lower-case of `c`, as `char::to_ascii_lowercase` gives it.
pub open spec fn ascii_lower(c: char) -> char {
    if 'A' <= c <= 'Z' {
        ((c as u32) + 32) as char
    } else {
        c
    }
}

/// The ASCII lower-case of `c`.
pub fn to_ascii_lowercase(c: char) -> (r: char)
    ensures
        r == ascii_lower(c),
{
    if 'A' <= c && c <= 'Z' {
        let b = c as u8;
        assert(b as u32 == c as u32);
        (b + 32) as char
    } else {
        c
    }
}

/// How many characters from `k` on make up exactly `budget` bytes of UTF-8,
/// or all that is left when fewer bytes remain; `None` when that byte count
/// falls inside a character.
pub open spec fn byte_window(s: Seq<char>, k: int, budget: int) -> Option<int>
    decreases s.len() - k,
{
    if k < 0 || k >= s.len() || budget <= 0 {
        Some(0)
    } else if utf8_len(s[k]) > budget {
        None
    } else {
        match byte_window(s, k + 1, budget - utf8_len(s[k])) {
            Some(m) => Some(m + 1),
            None => None,
        }
    }
}

/// How many characters from `k` on make up exactly `budget` bytes of
/// UTF-8 (or all that is left), or `None` when that count of bytes ends
/// inside a character.
pub fn byte_window_exec(s: &[char], k: usize, budget: usize) -> (r: Option<usize>)
    requires
        k <= s@.len(),
    ensures
        match r {
            Some(m) => byte_window(s@, k as int, budget as int) == Some(m as int) && k + m
                <= s@.len(),
            None => byte_window(s@, k as int, budget as int) is None,
        },
{
    let mut j = k;
    let mut left = budget;
    while j < s.len() && left > 0
        invariant
            k <= j <= s@.len(),
            left <= budget,
            byte_window(s@, k as int, budget as int) == match byte_window(s@, j as int, left as int) {
                Some(m) => Some(m + (j - k)),
                None => None::<int>,
            },
        decreases s.len() - j,
    {
        let l = len_utf8(s[j]);
        if l > left {
            return None;
        }
        left = left - l;
        j = j + 1;
    }
    Some(j - k)
}

} // verus!
