//! Numbers written out as text.
use vstd::prelude::*;

verus! {

/// The digit character for `d` (`0`–`9`, then lower-case `a`–`f`).
pub open spec fn digit_char(d: nat) -> char {
    if d < 10 {
        (48 + d) as char
    } else {
        (87 + d) as char
    }
}

/// `n` in base `base`, most significant digit first, no leading zeros
/// (`0` for zero).
pub open spec fn digits(n: nat, base: nat) -> Seq<char>
    decreases n,
{
    if base < 2 || n < base {
        seq![digit_char(n)]
    } else {
        proof {
            assert(n / base < n) by (nonlinear_arith)
                requires
                    base >= 2,
                    n >= base,
            ;
        }
        digits(n / base, base).push(digit_char(n % base))
    }
}

/// `n` in decimal, with a leading `-` when negative, as `i64::to_string`
/// writes it.
pub open spec fn decimal(n: int) -> Seq<char> {
    if n < 0 {
        seq!['-'] + digits((-n) as nat, 10)
    } else {
        digits(n as nat, 10)
    }
}

fn digit_exec(d: u64) -> (c: char)
    requires
        d < 16,
    ensures
        c == digit_char(d as nat),
{
    let b = d as u8;
    if b < 10 {
        (48 + b) as char
    } else {
        (87 + b) as char
    }
}

/// `n` in base `base`, as `format!("{n}")` or `format!("{n:x}")` writes it.
pub fn digits_exec(n: u64, base: u64) -> (v: Vec<char>)
    requires
        2 <= base <= 16,
    ensures
        v@ == digits(n as nat, base as nat),
{
    let mut rest = n;
    let mut acc: Vec<char> = Vec::new();
    while rest >= base
        invariant
            2 <= base <= 16,
            digits(n as nat, base as nat) == digits(rest as nat, base as nat) + acc@,
        decreases rest,
    {
        let d = digit_exec(rest % base);
        let ghost old_acc = acc@;
        acc.insert(0, d);
        assert(digits(rest as nat, base as nat) == digits((rest / base) as nat, base as nat).push(d));
        assert(digits((rest / base) as nat, base as nat).push(d) + old_acc =~= digits(
            (rest / base) as nat,
            base as nat,
        ) + acc@);
        rest = rest / base;
    }
    let ghost old_acc = acc@;
    acc.insert(0, digit_exec(rest));
    assert(acc@ =~= digits(rest as nat, base as nat) + old_acc);
    acc
}

/// `n` in decimal, as `i64::to_string` writes it.
pub fn decimal_exec(n: i64) -> (v: Vec<char>)
    ensures
        v@ == decimal(n as int),
{
    if n < 0 {
        let m: u64 = ((-(n + 1)) as u64) + 1;
        assert(m == -n);
        let d = digits_exec(m, 10);
        let mut v: Vec<char> = Vec::new();
        v.push('-');
        let mut i: usize = 0;
        while i < d.len()
            invariant
                i <= d@.len(),
                v@ == seq!['-'] + d@.take(i as int),
            decreases d.len() - i,
        {
            v.push(d[i]);
            assert(d@.take(i + 1) =~= d@.take(i as int).push(d@[i as int]));
            i = i + 1;
        }
        assert(d@.take(d@.len() as int) =~= d@);
        v
    } else {
        digits_exec(n as u64, 10)
    }
}

/// `b` as exactly two lower-case hex digits, as `format!("{b:02x}")`
/// writes it.
pub open spec fn hex2(b: u8) -> Seq<char> {
    seq![digit_char((b / 16) as nat), digit_char((b % 16) as nat)]
}

/// `b` as two lower-case hex digits.
pub fn hex2_exec(b: u8) -> (v: Vec<char>)
    ensures
        v@ == hex2(b),
{
    let mut v: Vec<char> = Vec::new();
    v.push(digit_exec((b / 16) as u64));
    v.push(digit_exec((b % 16) as u64));
    v
}

} // verus!
