//! Decimal numerals, signed and zero-padded.

use vstd::prelude::*;
use crate::hex::zeros;

verus! {

/// The decimal digit character of a value below 10.
pub open spec fn decimal_digit(d: nat) -> char {
    ((d + 48) as u8) as char
}

/// The decimal digits of `n`, most significant first, without leading
/// zeros (`"0"` for zero).
pub open spec fn decimal(n: nat) -> Seq<char>
    decreases n,
{
    if n < 10 {
        seq![decimal_digit(n)]
    } else {
        decimal(n / 10).push(decimal_digit(n % 10))
    }
}

/// The decimal numeral of an integer, with a leading `-` when negative.
pub open spec fn signed_decimal(n: int) -> Seq<char> {
    if n < 0 {
        seq!['-'] + decimal((-n) as nat)
    } else {
        decimal(n as nat)
    }
}

/// The decimal numeral of `n`, left-padded with zeros to at least `width`
/// characters (as `format!("{n:0width$}")` writes it).
pub open spec fn decimal_padded(n: nat, width: nat) -> Seq<char> {
    let d = decimal(n);
    if d.len() >= width {
        d
    } else {
        zeros((width - d.len()) as nat) + d
    }
}

/// The decimal digit character of a value below 10.
pub fn decimal_char(d: u64) -> (c: char)
    requires
        d < 10,
    ensures
        c == decimal_digit(d as nat),
{
    ((d as u8) + 48) as char
}

/// The decimal digits of `n`.
pub fn decimal_digits_of(n: u64) -> (v: Vec<char>)
    ensures
        v@ == decimal(n as nat),
    decreases n,
{
    if n < 10 {
        let mut v: Vec<char> = Vec::new();
        v.push(decimal_char(n));
        assert(v@ =~= decimal(n as nat));
        v
    } else {
        let mut v = decimal_digits_of(n / 10);
        v.push(decimal_char(n % 10));
        v
    }
}

/// Appends characters to a string.
fn push_chars(out: &mut String, cs: &Vec<char>)
    ensures
        final(out)@ == old(out)@ + cs@,
{
    let ghost start = out@;
    let mut j: usize = 0;
    while j < cs.len()
        invariant
            j <= cs@.len(),
            out@ == start + cs@.subrange(0, j as int),
        decreases cs.len() - j,
    {
        out.push(cs[j]);
        j += 1;
        assert(out@ =~= start + cs@.subrange(0, j as int));
    }
    assert(cs@.subrange(0, cs@.len() as int) =~= cs@);
}

/// Appends the decimal numeral of `n`.
pub fn push_decimal(out: &mut String, n: u64)
    ensures
        final(out)@ == old(out)@ + decimal(n as nat),
{
    let digits = decimal_digits_of(n);
    push_chars(out, &digits);
}

/// Appends the decimal numeral of a signed `n`.
pub fn push_signed_decimal(out: &mut String, n: i64)
    ensures
        final(out)@ == old(out)@ + signed_decimal(n as int),
{
    if n < 0 {
        let ghost start = out@;
        out.push('-');
        let magnitude: u64 = if n == i64::MIN {
            9223372036854775808u64
        } else {
            (-n) as u64
        };
        push_decimal(out, magnitude);
        assert(out@ =~= start + signed_decimal(n as int));
    } else {
        push_decimal(out, n as u64);
    }
}

/// Appends the decimal numeral of `n`, padded with zeros to `width`.
pub fn push_decimal_padded(out: &mut String, n: u64, width: usize)
    ensures
        final(out)@ == old(out)@ + decimal_padded(n as nat, width as nat),
{
    let ghost start = out@;
    let digits = decimal_digits_of(n);
    if digits.len() < width {
        let pad = width - digits.len();
        let mut i: usize = 0;
        while i < pad
            invariant
                i <= pad,
                out@ == start + zeros(i as nat),
            decreases pad - i,
        {
            out.push('0');
            i += 1;
            assert(out@ =~= start + zeros(i as nat));
        }
    }
    push_chars(out, &digits);
    assert(out@ =~= start + decimal_padded(n as nat, width as nat));
}

} // verus!
