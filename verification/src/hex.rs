//! Lower-case hexadecimal numerals, with zero padding.

use vstd::prelude::*;
use crate::json::hex_digit;

verus! {

/// The hex digits of `n`, most significant first, without leading zeros
/// (`"0"` for zero).
pub open spec fn hex_digits(n: nat) -> Seq<char>
    decreases n,
{
    if n < 16 {
        seq![hex_digit(n)]
    } else {
        hex_digits(n / 16).push(hex_digit(n % 16))
    }
}

/// `k` zero characters.
pub open spec fn zeros(k: nat) -> Seq<char> {
    Seq::new(k, |i: int| '0')
}

/// The hex numeral of `n`, left-padded with zeros to at least `width`
/// characters (as `format!("{n:0width$x}")` writes it).
pub open spec fn hex_padded(n: nat, width: nat) -> Seq<char> {
    let d = hex_digits(n);
    if d.len() >= width {
        d
    } else {
        zeros((width - d.len()) as nat) + d
    }
}

/// The value of a hex digit character (0 for any other character).
pub open spec fn digit_value(c: char) -> nat {
    if '0' <= c <= '9' {
        (c as int - 48) as nat
    } else if 'a' <= c <= 'f' {
        (c as int - 87) as nat
    } else {
        0
    }
}

/// The value of a hex numeral.
pub open spec fn hex_value(s: Seq<char>) -> nat
    decreases s.len(),
{
    if s.len() == 0 {
        0
    } else {
        hex_value(s.drop_last()) * 16 + digit_value(s.last())
    }
}

/// `16^k`.
pub open spec fn pow16(k: nat) -> nat
    decreases k,
{
    if k == 0 {
        1
    } else {
        16 * pow16((k - 1) as nat)
    }
}

/// A hex digit reads back as its value.
pub proof fn lemma_digit_value(d: nat)
    requires
        d < 16,
    ensures
        digit_value(hex_digit(d)) == d,
{
}

/// Whether a character is a lower-case hex digit.
pub open spec fn is_hex_char(c: char) -> bool {
    ('0' <= c && c <= '9') || ('a' <= c && c <= 'f')
}

/// Every character of a numeral is a lower-case hex digit.
pub proof fn lemma_hex_digits_are_hex(n: nat)
    ensures
        forall|i: int| 0 <= i < hex_digits(n).len() ==> is_hex_char(#[trigger] hex_digits(n)[i]),
    decreases n,
{
    if n < 16 {
        assert(is_hex_char(hex_digit(n)));
        assert(hex_digits(n) =~= seq![hex_digit(n)]);
    } else {
        lemma_hex_digits_are_hex(n / 16);
        let p = hex_digits(n / 16);
        let c = hex_digit(n % 16);
        assert(is_hex_char(c));
        assert(hex_digits(n) == p.push(c));
        assert forall|i: int| 0 <= i < p.push(c).len() implies is_hex_char(#[trigger] p.push(c)[i]) by {
            if i < p.len() {
                assert(p.push(c)[i] == p[i]);
            }
        }
    }
}

/// Every character of a padded numeral is a lower-case hex digit.
pub proof fn lemma_hex_padded_is_hex(n: nat, width: nat)
    ensures
        forall|i: int| 0 <= i < hex_padded(n, width).len() ==> is_hex_char(#[trigger] hex_padded(n, width)[i]),
{
    lemma_hex_digits_are_hex(n);
    let d = hex_digits(n);
    if d.len() < width {
        let z = zeros((width - d.len()) as nat);
        assert forall|i: int| 0 <= i < (z + d).len() implies is_hex_char(#[trigger] (z + d)[i]) by {
            if i >= z.len() {
                assert((z + d)[i] == d[i - z.len()]);
            }
        }
    }
}

/// A numeral reads back as the number it was written from.
pub proof fn lemma_hex_value_digits(n: nat)
    ensures
        hex_value(hex_digits(n)) == n,
    decreases n,
{
    if n < 16 {
        lemma_digit_value(n);
        let d = seq![hex_digit(n)];
        assert(d.drop_last() =~= Seq::<char>::empty());
        assert(d.last() == hex_digit(n));
        assert(hex_value(d.drop_last()) == 0);
        assert(hex_digits(n) == d);
    } else {
        lemma_hex_value_digits(n / 16);
        lemma_digit_value(n % 16);
        let d = hex_digits(n / 16).push(hex_digit(n % 16));
        assert(d.drop_last() =~= hex_digits(n / 16));
        assert(d.last() == hex_digit(n % 16));
        assert((n / 16) * 16 + n % 16 == n) by (nonlinear_arith);
        assert(hex_digits(n) == d);
        assert(hex_value(d) == hex_value(d.drop_last()) * 16 + digit_value(d.last()));
        assert(digit_value(d.last()) == n % 16);
        assert(hex_value(d.drop_last()) == n / 16);
    }
}

/// Leading zeros do not change a numeral's value.
pub proof fn lemma_hex_value_zeros(k: nat, t: Seq<char>)
    ensures
        hex_value(zeros(k) + t) == hex_value(t),
    decreases t.len(), k,
{
    if t.len() == 0 {
        assert(zeros(k) + t =~= zeros(k));
        if k > 0 {
            assert(zeros(k).drop_last() =~= zeros((k - 1) as nat));
            lemma_hex_value_zeros((k - 1) as nat, t);
            assert(zeros((k - 1) as nat) + t =~= zeros((k - 1) as nat));
        }
    } else {
        assert((zeros(k) + t).drop_last() =~= zeros(k) + t.drop_last());
        lemma_hex_value_zeros(k, t.drop_last());
    }
}

/// A padded numeral reads back as its number.
pub proof fn lemma_hex_value_padded(n: nat, width: nat)
    ensures
        hex_value(hex_padded(n, width)) == n,
{
    lemma_hex_value_digits(n);
    let d = hex_digits(n);
    if d.len() < width {
        lemma_hex_value_zeros((width - d.len()) as nat, d);
    }
}

/// A number below `16^k` has at most `k` digits (for `k >= 1`).
pub proof fn lemma_hex_digits_len(n: nat, k: nat)
    requires
        k >= 1,
        n < pow16(k),
    ensures
        1 <= hex_digits(n).len() <= k,
    decreases k,
{
    if n >= 16 {
        assert(k >= 2) by {
            if k == 1 {
                assert(pow16(1) == 16 * pow16(0));
            }
        }
        assert(n / 16 < pow16((k - 1) as nat)) by (nonlinear_arith)
            requires
                n < 16 * pow16((k - 1) as nat),
        ;
        lemma_hex_digits_len(n / 16, (k - 1) as nat);
    }
}

/// `hex_padded` with `width >= 1` has exactly `width` characters when the
/// number is below `16^width`.
pub proof fn lemma_hex_padded_len(n: nat, width: nat)
    requires
        width >= 1,
        n < pow16(width),
    ensures
        hex_padded(n, width).len() == width,
{
    lemma_hex_digits_len(n, width);
}

/// Writes the hex digits of `n` (no padding).
pub fn hex_digits_of(n: u128) -> (s: Vec<char>)
    ensures
        s@ == hex_digits(n as nat),
    decreases n,
{
    if n < 16 {
        let mut v: Vec<char> = Vec::new();
        v.push(crate::json::hex_char(n as u8));
        assert(v@ =~= hex_digits(n as nat));
        v
    } else {
        let mut v = hex_digits_of(n / 16);
        v.push(crate::json::hex_char((n % 16) as u8));
        v
    }
}

/// Appends the hex numeral of `n`, padded with zeros to `width`.
pub fn push_hex_padded(out: &mut String, n: u128, width: usize)
    ensures
        final(out)@ == old(out)@ + hex_padded(n as nat, width as nat),
{
    let ghost start = out@;
    let digits = hex_digits_of(n);
    if digits.len() < width {
        let pad = width - digits.len();
        let mut i: usize = 0;
        while i < pad
            invariant
                i <= pad,
                out@ == start + zeros(i as nat),
            decreases pad - i,
        {
            out.push('0');
            i += 1;
            assert(out@ =~= start + zeros(i as nat));
        }
    }
    let ghost mid = out@;
    let mut j: usize = 0;
    while j < digits.len()
        invariant
            j <= digits@.len(),
            out@ == mid + digits@.subrange(0, j as int),
        decreases digits.len() - j,
    {
        out.push(digits[j]);
        j += 1;
        assert(out@ =~= mid + digits@.subrange(0, j as int));
    }
    assert(digits@.subrange(0, digits@.len() as int) =~= digits@);
    assert(out@ =~= start + hex_padded(n as nat, width as nat));
}

} // verus!
