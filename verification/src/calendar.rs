//! Civil (proleptic Gregorian) dates counted from the Unix epoch, and
//! today's date as `YYYY-MM-DD`.

use vstd::prelude::*;
use crate::decimal::{decimal_padded, push_decimal_padded};

verus! {

/// Whether `y` is a leap year.
pub open spec fn is_leap(y: int) -> bool {
    (y % 4 == 0 && y % 100 != 0) || y % 400 == 0
}

/// The number of days of year `y`.
pub open spec fn year_days(y: int) -> nat {
    if is_leap(y) {
        366
    } else {
        365
    }
}

/// The number of days of month `m` (1 to 12) of year `y`.
pub open spec fn month_days(y: int, m: int) -> nat {
    if m == 2 {
        if is_leap(y) {
            29
        } else {
            28
        }
    } else if m == 4 || m == 6 || m == 9 || m == 11 {
        30
    } else {
        31
    }
}

/// The days from 1970-01-01 to the first day of year `y` (from 1970 on).
pub open spec fn days_before_year(y: int) -> nat
    decreases y - 1970,
{
    if y <= 1970 {
        0
    } else {
        days_before_year(y - 1) + year_days(y - 1)
    }
}

/// The days from the first day of year `y` to the first day of month `m`.
pub open spec fn days_before_month(y: int, m: int) -> nat
    decreases m,
{
    if m <= 1 {
        0
    } else {
        days_before_month(y, m - 1) + month_days(y, m - 1)
    }
}

/// The days from 1970-01-01 to the date `y-m-d`.
pub open spec fn days_from_civil(y: int, m: int, d: int) -> int {
    days_before_year(y) + days_before_month(y, m) + d - 1
}

/// A date is valid when its month is 1 to 12 and its day lies within that
/// month.
pub open spec fn valid_date(y: int, m: int, d: int) -> bool {
    y >= 1970 && 1 <= m <= 12 && 1 <= d <= month_days(y, m)
}

/// The twelve months of a year add up to the year.
proof fn lemma_months_fill_year(y: int)
    ensures
        days_before_month(y, 13) == year_days(y),
{
    reveal_with_fuel(days_before_month, 13);
}

fn leap(y: u64) -> (b: bool)
    ensures
        b == is_leap(y as int),
{
    (y % 4 == 0 && y % 100 != 0) || y % 400 == 0
}

fn year_length(y: u64) -> (n: u64)
    ensures
        n == year_days(y as int),
{
    if leap(y) {
        366
    } else {
        365
    }
}

fn month_length(y: u64, m: u64) -> (n: u64)
    ensures
        n == month_days(y as int, m as int),
{
    if m == 2 {
        if leap(y) {
            29
        } else {
            28
        }
    } else if m == 4 || m == 6 || m == 9 || m == 11 {
        30
    } else {
        31
    }
}

/// The civil date `(year, month, day)` that lies `days` days after
/// 1970-01-01.
pub fn civil_from_days(days: u64) -> (r: (u64, u64, u64))
    ensures
        valid_date(r.0 as int, r.1 as int, r.2 as int),
        days_from_civil(r.0 as int, r.1 as int, r.2 as int) == days,
{
    let mut y: u64 = 1970;
    let mut rem: u64 = days;
    while rem >= year_length(y)
        invariant
            y >= 1970,
            days_before_year(y as int) + rem == days,
            365 * (y - 1970) <= days - rem,
        decreases rem,
    {
        let n = year_length(y);
        rem = rem - n;
        y = y + 1;
    }
    proof {
        lemma_months_fill_year(y as int);
    }
    let ghost year_rem = rem;
    let mut m: u64 = 1;
    while rem >= month_length(y, m)
        invariant
            1 <= m <= 12,
            year_rem < year_days(y as int),
            days_before_month(y as int, 13) == year_days(y as int),
            days_before_month(y as int, m as int) + rem == year_rem,
        decreases 13 - m,
    {
        let n = month_length(y, m);
        rem = rem - n;
        m = m + 1;
        if m == 13 {
            assert(false);
        }
    }
    (y, m, rem + 1)
}

/// `YYYY-MM-DD`: the year padded to four digits, the month and the day to
/// two.
pub open spec fn iso_date(y: nat, m: nat, d: nat) -> Seq<char> {
    decimal_padded(y, 4) + seq!['-'] + decimal_padded(m, 2) + seq!['-'] + decimal_padded(d, 2)
}

/// The date `days` days after 1970-01-01, as `YYYY-MM-DD`.
pub fn iso_date_of_days(days: u64) -> (s: String)
    ensures
        exists|y: nat, m: nat, d: nat|
            valid_date(y as int, m as int, d as int) && days_from_civil(y as int, m as int, d as int) == days
                && s@ == iso_date(y, m, d),
{
    let (y, m, d) = civil_from_days(days);
    let mut s = String::new();
    push_decimal_padded(&mut s, y, 4);
    s.push('-');
    push_decimal_padded(&mut s, m, 2);
    s.push('-');
    push_decimal_padded(&mut s, d, 2);
    assert(s@ =~= iso_date(y as nat, m as nat, d as nat));
    s
}

/// A day count names one date: two valid dates with the same count are the
/// same date.
pub proof fn law_dates_are_unique(y1: int, m1: int, d1: int, y2: int, m2: int, d2: int)
    requires
        valid_date(y1, m1, d1),
        valid_date(y2, m2, d2),
        days_from_civil(y1, m1, d1) == days_from_civil(y2, m2, d2),
    ensures
        y1 == y2 && m1 == m2 && d1 == d2,
{
    lemma_date_in_year(y1, m1, d1);
    lemma_date_in_year(y2, m2, d2);
    if y1 < y2 {
        lemma_years_ordered(y1 + 1, y2);
    } else if y2 < y1 {
        lemma_years_ordered(y2 + 1, y1);
    }
    assert(y1 == y2);
    lemma_date_in_month(y1, m1, d1);
    lemma_date_in_month(y2, m2, d2);
    if m1 < m2 {
        lemma_months_ordered(y1, m1 + 1, m2);
    } else if m2 < m1 {
        lemma_months_ordered(y1, m2 + 1, m1);
    }
}

/// A valid date lies within its year.
proof fn lemma_date_in_year(y: int, m: int, d: int)
    requires
        valid_date(y, m, d),
    ensures
        days_before_year(y) <= days_from_civil(y, m, d) < days_before_year(y) + year_days(y),
{
    lemma_date_in_month(y, m, d);
    lemma_months_ordered(y, m + 1, 13);
    lemma_months_fill_year(y);
}

/// A valid date lies within its month.
proof fn lemma_date_in_month(y: int, m: int, d: int)
    requires
        valid_date(y, m, d),
    ensures
        days_before_month(y, m) <= days_before_month(y, m) + d - 1 < days_before_month(y, m + 1),
{
}

/// Later years start later.
proof fn lemma_years_ordered(a: int, b: int)
    requires
        1970 <= a <= b,
    ensures
        days_before_year(a) <= days_before_year(b),
    decreases b - a,
{
    if a < b {
        lemma_years_ordered(a, b - 1);
    }
}

/// Later months start later.
proof fn lemma_months_ordered(y: int, a: int, b: int)
    requires
        1 <= a <= b,
    ensures
        days_before_month(y, a) <= days_before_month(y, b),
    decreases b - a,
{
    if a < b {
        lemma_months_ordered(y, a, b - 1);
    }
}

} // verus!
