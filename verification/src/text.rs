//! Verified text building blocks: decimal and hexadecimal rendering.
//!
//! Every address and summary the pipeline shows is assembled from these
//! helpers, so their contracts pin the rendered characters down exactly.

use vstd::prelude::*;
use vstd::string::StringExecFns;

verus! {

/// The uppercase digit character for a value below 16.
pub open spec fn hex_digit(n: int) -> char {
    if n == 0 {
        '0'
    } else if n == 1 {
        '1'
    } else if n == 2 {
        '2'
    } else if n == 3 {
        '3'
    } else if n == 4 {
        '4'
    } else if n == 5 {
        '5'
    } else if n == 6 {
        '6'
    } else if n == 7 {
        '7'
    } else if n == 8 {
        '8'
    } else if n == 9 {
        '9'
    } else if n == 10 {
        'A'
    } else if n == 11 {
        'B'
    } else if n == 12 {
        'C'
    } else if n == 13 {
        'D'
    } else if n == 14 {
        'E'
    } else {
        'F'
    }
}

/// Distinct values below 16 have distinct digit characters.
pub proof fn lemma_hex_digit_injective(x: int, y: int)
    requires
        0 <= x < 16,
        0 <= y < 16,
        hex_digit(x) == hex_digit(y),
    ensures
        x == y,
{
}

/// The decimal rendering of a natural number, without leading zeros.
pub open spec fn dec_nat(n: nat) -> Seq<char>
    decreases n,
{
    if n < 10 {
        seq![hex_digit(n as int)]
    } else {
        dec_nat(n / 10) + seq![hex_digit((n % 10) as int)]
    }
}

/// A byte as exactly two uppercase hexadecimal digits.
pub open spec fn hex_pad2(b: u8) -> Seq<char> {
    seq![hex_digit(b as int / 16), hex_digit(b as int % 16)]
}

/// A byte as one or two uppercase hexadecimal digits, without a leading zero.
pub open spec fn hex_unpadded(b: u8) -> Seq<char> {
    if b < 16 {
        seq![hex_digit(b as int)]
    } else {
        seq![hex_digit(b as int / 16), hex_digit(b as int % 16)]
    }
}

/// The digit character for a value below 16, as a one-character string.
fn digit_str(d: u8) -> (r: &'static str)
    requires
        d < 16,
    ensures
        r@ == seq![hex_digit(d as int)],
{
    proof {
        reveal_strlit("0");
        reveal_strlit("1");
        reveal_strlit("2");
        reveal_strlit("3");
        reveal_strlit("4");
        reveal_strlit("5");
        reveal_strlit("6");
        reveal_strlit("7");
        reveal_strlit("8");
        reveal_strlit("9");
        reveal_strlit("A");
        reveal_strlit("B");
        reveal_strlit("C");
        reveal_strlit("D");
        reveal_strlit("E");
        reveal_strlit("F");
    }
    match d {
        0 => "0",
        1 => "1",
        2 => "2",
        3 => "3",
        4 => "4",
        5 => "5",
        6 => "6",
        7 => "7",
        8 => "8",
        9 => "9",
        10 => "A",
        11 => "B",
        12 => "C",
        13 => "D",
        14 => "E",
        _ => "F",
    }
}

/// Appends the decimal rendering of `n` to `out`.
pub fn push_u64(out: &mut String, n: u64)
    ensures
        final(out)@ == old(out)@ + dec_nat(n as nat),
    decreases n,
{
    if n >= 10 {
        push_u64(out, n / 10);
        out.append(digit_str((n % 10) as u8));
        proof {
            assert(final(out)@ =~= old(out)@ + dec_nat(n as nat));
        }
    } else {
        out.append(digit_str(n as u8));
    }
}

/// The decimal rendering of `n` as a fresh string.
pub fn u64_to_string(n: u64) -> (r: String)
    ensures
        r@ == dec_nat(n as nat),
{
    let mut out = String::new();
    push_u64(&mut out, n);
    proof {
        assert(out@ =~= dec_nat(n as nat));
    }
    out
}

/// Appends the two-digit hexadecimal rendering of `b` to `out`.
pub fn push_hex_pad2(out: &mut String, b: u8)
    ensures
        final(out)@ == old(out)@ + hex_pad2(b),
{
    out.append(digit_str(b / 16));
    out.append(digit_str(b % 16));
    proof {
        assert(final(out)@ =~= old(out)@ + hex_pad2(b));
    }
}

/// Appends the unpadded hexadecimal rendering of `b` to `out`.
pub fn push_hex_unpadded(out: &mut String, b: u8)
    ensures
        final(out)@ == old(out)@ + hex_unpadded(b),
{
    if b < 16 {
        out.append(digit_str(b));
    } else {
        out.append(digit_str(b / 16));
        out.append(digit_str(b % 16));
        proof {
            assert(final(out)@ =~= old(out)@ + hex_unpadded(b));
        }
    }
}

/// A dotted-decimal IPv4 address over four bytes.
pub open spec fn ipv4_text(a: u8, b: u8, c: u8, d: u8) -> Seq<char> {
    dec_nat(a as nat) + seq!['.'] + dec_nat(b as nat) + seq!['.'] + dec_nat(c as nat) + seq!['.']
        + dec_nat(d as nat)
}

/// Renders four bytes as a dotted-decimal IPv4 address.
pub fn format_ipv4(a: u8, b: u8, c: u8, d: u8) -> (r: String)
    ensures
        r@ == ipv4_text(a, b, c, d),
{
    proof {
        reveal_strlit(".");
    }
    let mut out = String::new();
    push_u64(&mut out, a as u64);
    out.append(".");
    push_u64(&mut out, b as u64);
    out.append(".");
    push_u64(&mut out, c as u64);
    out.append(".");
    push_u64(&mut out, d as u64);
    proof {
        assert(out@ =~= ipv4_text(a, b, c, d));
    }
    out
}

} // verus!
