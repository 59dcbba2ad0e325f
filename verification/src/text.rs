//! Text as sequences of characters: owned copies, equality and joining.
use vstd::prelude::*;
use vstd::string::{StrSliceExecFns, StringExecFns};

use crate::table::views;

verus! {

/// An owned copy of `s`.
pub fn text(s: &str) -> (r: String)
    ensures
        r@ == s@,
{
    String::from_str(s)
}

/// The characters of a text that may be missing.
pub open spec fn maybe_text(o: Option<String>) -> Option<Seq<char>> {
    match o {
        Some(s) => Some(s@),
        None => None,
    }
}

/// A copy of a text that may be missing.
pub fn dup_text(o: &Option<String>) -> (r: Option<String>)
    ensures
        r == *o,
{
    match o {
        Some(s) => Some(s.clone()),
        None => None,
    }
}

/// Whether both are missing or hold the same characters.
pub fn same_maybe_text(a: &Option<String>, b: &Option<String>) -> (r: bool)
    ensures
        r == (maybe_text(*a) == maybe_text(*b)),
{
    match (a, b) {
        (Some(x), Some(y)) => *x == *y,
        (None, None) => true,
        _ => false,
    }
}

/// Whether both hold the same characters.
pub fn same_text(a: &str, b: &str) -> (r: bool)
    ensures
        r == (a@ == b@),
{
    text(a) == text(b)
}

/// `a` followed by `b`.
pub fn join2(a: &str, b: &str) -> (r: String)
    ensures
        r@ == a@ + b@,
{
    let mut s = String::from_str(a);
    s.append(b);
    s
}

/// `a`, `b` and `c` in a row.
pub fn join3(a: &str, b: &str, c: &str) -> (r: String)
    ensures
        r@ == a@ + b@ + c@,
{
    let mut s = String::from_str(a);
    s.append(b);
    s.append(c);
    s
}

/// Whether `s` begins with `prefix`.
pub fn starts_with(s: &str, prefix: &str) -> (r: bool)
    ensures
        r == prefix@.is_prefix_of(s@),
{
    let n: usize = prefix.unicode_len();
    if n > s.unicode_len() {
        return false;
    }
    same_text(s.substring_char(0, n), prefix)
}

pub open spec fn digit(d: nat) -> char {
    if d == 0 {
        '0'
    } else if d == 1 {
        '1'
    } else if d == 2 {
        '2'
    } else if d == 3 {
        '3'
    } else if d == 4 {
        '4'
    } else if d == 5 {
        '5'
    } else if d == 6 {
        '6'
    } else if d == 7 {
        '7'
    } else if d == 8 {
        '8'
    } else {
        '9'
    }
}

/// `n` in decimal digits.
pub open spec fn decimal(n: nat) -> Seq<char>
    decreases n,
{
    if n < 10 {
        seq![digit(n)]
    } else {
        decimal(n / 10).push(digit(n % 10))
    }
}

fn digit_text(d: usize) -> (r: &'static str)
    requires
        d < 10,
    ensures
        r@ == seq![digit(d as nat)],
{
    proof {
        reveal_strlit("0");
        reveal_strlit("1");
        reveal_strlit("2");
        reveal_strlit("3");
        reveal_strlit("4");
        reveal_strlit("5");
        reveal_strlit("6");
        reveal_strlit("7");
        reveal_strlit("8");
        reveal_strlit("9");
    }
    let r = match d {
        0 => "0",
        1 => "1",
        2 => "2",
        3 => "3",
        4 => "4",
        5 => "5",
        6 => "6",
        7 => "7",
        8 => "8",
        _ => "9",
    };
    assert(r@ =~= seq![digit(d as nat)]);
    r
}

/// `n` in decimal digits.
pub fn decimal_text(n: usize) -> (r: String)
    ensures
        r@ == decimal(n as nat),
{
    decimal_text_wide(n as u128)
}

/// `n` in decimal digits.
pub fn decimal_text_wide(n: u128) -> (r: String)
    ensures
        r@ == decimal(n as nat),
    decreases n,
{
    if n < 10 {
        text(digit_text(n as usize))
    } else {
        let mut r = decimal_text_wide(n / 10);
        r.append(digit_text((n % 10) as usize));
        assert(r@ =~= decimal(n as nat));
        r
    }
}

/// `n` in decimal digits, with a sign where it is negative.
pub open spec fn signed_decimal(n: int) -> Seq<char> {
    if n < 0 {
        "-"@ + decimal((-n) as nat)
    } else {
        decimal(n as nat)
    }
}

/// `n` in decimal digits, with a sign where it is negative.
pub fn signed_decimal_text(n: i128) -> (r: String)
    ensures
        r@ == signed_decimal(n as int),
{
    if n < 0 {
        let size: u128 = (-(n + 1)) as u128 + 1;
        join2("-", decimal_text_wide(size).as_str())
    } else {
        decimal_text_wide(n as u128)
    }
}

/// Whether one of the entries is `t`.
pub fn contains_text(v: &Vec<String>, t: &String) -> (r: bool)
    ensures
        r == views(v@).contains(t@),
{
    let mut i: usize = 0;
    while i < v.len()
        invariant
            i <= v@.len(),
            forall|j: int| 0 <= j < i ==> views(v@)[j] != t@,
        decreases v@.len() - i,
    {
        if v[i] == *t {
            assert(views(v@)[i as int] == t@);
            return true;
        }
        i = i + 1;
    }
    false
}

} // verus!
