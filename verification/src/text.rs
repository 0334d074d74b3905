//! Rendering of integers as text, for error messages.
use vstd::prelude::*;
use vstd::string::*;

verus! {

/// The character of a digit below sixteen: `0`..`9`, then `a`..`f`.
pub open spec fn digit_char(d: nat) -> char {
    if d < 10 {
        (48 + d) as char
    } else {
        (87 + d) as char
    }
}

/// The decimal digits of `n`, most significant first, without leading zeros.
pub open spec fn spec_decimal(n: nat) -> Seq<char>
    decreases n,
{
    if n < 10 {
        seq![digit_char(n)]
    } else {
        spec_decimal(n / 10) + seq![digit_char(n % 10)]
    }
}

/// The lowercase hexadecimal digits of `n`, most significant first, without leading zeros.
pub open spec fn spec_hex_digits(n: nat) -> Seq<char>
    decreases n,
{
    if n < 16 {
        seq![digit_char(n)]
    } else {
        spec_hex_digits(n / 16) + seq![digit_char(n % 16)]
    }
}

/// `n` in hexadecimal with a `0x` prefix, as `{:#0x}` renders it.
pub open spec fn spec_hex(n: nat) -> Seq<char> {
    seq!['0', 'x'] + spec_hex_digits(n)
}

/// A signed integer in decimal, with a leading `-` when it is negative.
pub open spec fn spec_signed_decimal(v: int) -> Seq<char> {
    if v < 0 {
        seq!['-'] + spec_decimal((-v) as nat)
    } else {
        spec_decimal(v as nat)
    }
}

/// The one-character text of a digit below sixteen.
fn digit_text(d: u64) -> (s: &'static str)
    requires
        d < 16,
    ensures
        s@ == seq![digit_char(d as nat)],
{
    proof {
        reveal_strlit("0");
        reveal_strlit("1");
        reveal_strlit("2");
        reveal_strlit("3");
        reveal_strlit("4");
        reveal_strlit("5");
        reveal_strlit("6");
        reveal_strlit("7");
        reveal_strlit("8");
        reveal_strlit("9");
        reveal_strlit("a");
        reveal_strlit("b");
        reveal_strlit("c");
        reveal_strlit("d");
        reveal_strlit("e");
        reveal_strlit("f");
    }
    let s = match d {
        0 => "0",
        1 => "1",
        2 => "2",
        3 => "3",
        4 => "4",
        5 => "5",
        6 => "6",
        7 => "7",
        8 => "8",
        9 => "9",
        10 => "a",
        11 => "b",
        12 => "c",
        13 => "d",
        14 => "e",
        _ => "f",
    };
    assert(s@ =~= seq![digit_char(d as nat)]);
    s
}

/// `n` in decimal.
pub fn decimal(n: u64) -> (s: String)
    ensures
        s@ == spec_decimal(n as nat),
    decreases n,
{
    if n < 10 {
        String::from_str(digit_text(n))
    } else {
        let mut s = decimal(n / 10);
        s.append(digit_text(n % 10));
        s
    }
}

fn hex_digits(n: u64) -> (s: String)
    ensures
        s@ == spec_hex_digits(n as nat),
    decreases n,
{
    if n < 16 {
        String::from_str(digit_text(n))
    } else {
        let mut s = hex_digits(n / 16);
        s.append(digit_text(n % 16));
        s
    }
}

/// `n` in hexadecimal with a `0x` prefix.
pub fn hex(n: u64) -> (s: String)
    ensures
        s@ == spec_hex(n as nat),
{
    proof {
        reveal_strlit("0x");
    }
    let mut s = String::from_str("0x");
    let digits = hex_digits(n);
    s.append(digits.as_str());
    assert(s@ =~= spec_hex(n as nat));
    s
}

/// `v` in decimal, with a leading `-` when it is negative.
pub fn signed_decimal(v: i64) -> (s: String)
    ensures
        s@ == spec_signed_decimal(v as int),
{
    if v < 0 {
        proof {
            reveal_strlit("-");
        }
        let magnitude: u64 = (-(v + 1)) as u64 + 1;
        let mut s = String::from_str("-");
        let digits = decimal(magnitude);
        s.append(digits.as_str());
        assert(s@ =~= spec_signed_decimal(v as int));
        s
    } else {
        decimal(v as u64)
    }
}

} // verus!
