//! Proleptic Gregorian calendar arithmetic over the years 0000 through 9999:
//! leap years, day counts, and the correspondence between a civil date and
//! its day number.  The timestamp codec is built on these definitions.

use vstd::prelude::*;

verus! {

pub open spec fn is_leap_year(y: int) -> bool {
    (y % 4 == 0 && y % 100 != 0) || y % 400 == 0
}

pub open spec fn days_in_year(y: int) -> int {
    if is_leap_year(y) {
        366
    } else {
        365
    }
}

pub open spec fn days_in_month(y: int, m: int) -> int {
    if m == 2 {
        if is_leap_year(y) {
            29
        } else {
            28
        }
    } else if m == 4 || m == 6 || m == 9 || m == 11 {
        30
    } else {
        31
    }
}

/// Days from 0000-01-01 to the start of year `y`.
pub open spec fn days_before_year(y: int) -> int
    decreases y,
{
    if y <= 0 {
        0
    } else {
        days_before_year(y - 1) + days_in_year(y - 1)
    }
}

/// Days from the start of year `y` to the start of month `m` of that year.
pub open spec fn days_before_month(y: int, m: int) -> int
    decreases m,
{
    if m <= 1 {
        0
    } else {
        days_before_month(y, m - 1) + days_in_month(y, m - 1)
    }
}

pub open spec fn valid_date(y: int, m: int, d: int) -> bool {
    &&& 0 <= y <= 9999
    &&& 1 <= m <= 12
    &&& 1 <= d <= days_in_month(y, m)
}

/// Day number of a date, counted from 0000-01-01 as day 0.
pub open spec fn day_number(y: int, m: int, d: int) -> int {
    days_before_year(y) + days_before_month(y, m) + (d - 1)
}

pub proof fn lemma_days_before_year_bounds(y: int)
    requires
        0 <= y,
    ensures
        365 * y <= days_before_year(y) <= 366 * y,
    decreases y,
{
    if y > 0 {
        lemma_days_before_year_bounds(y - 1);
    }
}

pub proof fn lemma_days_before_year_increasing(y1: int, y2: int)
    requires
        0 <= y1 <= y2,
    ensures
        days_before_year(y1) + 365 * (y2 - y1) <= days_before_year(y2),
    decreases y2 - y1,
{
    if y1 < y2 {
        lemma_days_before_year_increasing(y1, y2 - 1);
    }
}

pub proof fn lemma_days_before_month_bounds(y: int, m: int)
    requires
        1 <= m <= 13,
    ensures
        28 * (m - 1) <= days_before_month(y, m) <= 31 * (m - 1),
    decreases m,
{
    if m > 1 {
        lemma_days_before_month_bounds(y, m - 1);
    }
}

/// The twelve months of a year sum to the year's length.
pub proof fn lemma_months_total(y: int)
    ensures
        days_before_month(y, 13) == days_in_year(y),
{
    reveal_with_fuel(days_before_month, 14);
}

pub proof fn lemma_days_before_month_increasing(y: int, m1: int, m2: int)
    requires
        1 <= m1 <= m2 <= 13,
    ensures
        days_before_month(y, m1) <= days_before_month(y, m2),
    decreases m2 - m1,
{
    if m1 < m2 {
        lemma_days_before_month_increasing(y, m1, m2 - 1);
    }
}

/// Within a year, a month ends no later than the year does.
pub proof fn lemma_days_before_month_in_year(y: int, m: int)
    requires
        1 <= m <= 12,
    ensures
        days_before_month(y, m) + days_in_month(y, m) <= days_in_year(y),
{
    assert(days_before_month(y, m + 1) == days_before_month(y, m) + days_in_month(y, m));
    lemma_days_before_month_increasing(y, m + 1, 13);
    lemma_months_total(y);
}

/// The day number of every valid date lies below the count of all days in
/// the supported range of years.
pub proof fn lemma_day_number_range(y: int, m: int, d: int)
    requires
        valid_date(y, m, d),
    ensures
        0 <= day_number(y, m, d) < days_before_year(10000),
        day_number(y, m, d) < days_before_year(y + 1),
        days_before_year(y) <= day_number(y, m, d),
{
    lemma_days_before_year_bounds(y);
    lemma_days_before_month_bounds(y, m);
    lemma_days_before_month_in_year(y, m);
    assert(days_before_year(y + 1) == days_before_year(y) + days_in_year(y));
    lemma_days_before_year_increasing(y + 1, 10000);
}

pub fn leap_year(y: u32) -> (r: bool)
    ensures
        r == is_leap_year(y as int),
{
    (y % 4 == 0 && y % 100 != 0) || y % 400 == 0
}

pub fn month_length(y: u32, m: u32) -> (r: u32)
    ensures
        r == days_in_month(y as int, m as int),
{
    if m == 2 {
        if leap_year(y) {
            29
        } else {
            28
        }
    } else if m == 4 || m == 6 || m == 9 || m == 11 {
        30
    } else {
        31
    }
}

pub fn year_length(y: u32) -> (r: u32)
    ensures
        r == days_in_year(y as int),
{
    if leap_year(y) {
        366
    } else {
        365
    }
}

/// Days from 0000-01-01 to the start of year `y`, computed by summation.
pub fn days_before_year_exec(y: u32) -> (r: u32)
    requires
        y <= 10000,
    ensures
        r == days_before_year(y as int),
{
    let mut acc: u32 = 0;
    let mut i: u32 = 0;
    while i < y
        invariant
            i <= y <= 10000,
            acc == days_before_year(i as int),
        decreases y - i,
    {
        proof {
            lemma_days_before_year_bounds(i as int + 1);
        }
        acc = acc + year_length(i);
        i = i + 1;
    }
    acc
}

/// Days from the start of year `y` to the start of month `m`.
pub fn days_before_month_exec(y: u32, m: u32) -> (r: u32)
    requires
        1 <= m <= 13,
    ensures
        r == days_before_month(y as int, m as int),
{
    let mut acc: u32 = 0;
    let mut i: u32 = 1;
    while i < m
        invariant
            1 <= i <= m <= 13,
            acc == days_before_month(y as int, i as int),
        decreases m - i,
    {
        proof {
            lemma_days_before_month_bounds(y as int, i as int + 1);
        }
        acc = acc + month_length(y, i);
        i = i + 1;
    }
    acc
}

/// The year containing absolute day `day`, together with the day's offset
/// within that year.
pub fn year_of_day(day: u32) -> (r: (u32, u32))
    requires
        day < days_before_year(10000),
    ensures
        0 <= r.0 <= 9999,
        days_before_year(r.0 as int) + r.1 == day,
        r.1 < days_in_year(r.0 as int),
{
    let mut y: u32 = 0;
    let mut rem: u32 = day;
    loop
        invariant
            y <= 9999,
            days_before_year(y as int) + rem == day,
            day < days_before_year(10000),
        ensures
            y <= 9999,
            days_before_year(y as int) + rem == day,
            rem < days_in_year(y as int),
        decreases 10000 - y,
    {
        let len = year_length(y);
        if rem < len {
            break ;
        }
        proof {
            assert(days_before_year(y as int + 1) == days_before_year(y as int) + days_in_year(
                y as int,
            ));
            if y == 9999 {
                assert(days_before_year(10000) <= day);
            }
            lemma_days_before_year_increasing(y as int + 1, 10000);
        }
        rem = rem - len;
        y = y + 1;
    }
    (y, rem)
}

/// The month containing day-of-year `doy` in year `y`, together with the
/// day's offset within that month.
pub fn month_of_day(y: u32, doy: u32) -> (r: (u32, u32))
    requires
        doy < days_in_year(y as int),
    ensures
        1 <= r.0 <= 12,
        days_before_month(y as int, r.0 as int) + r.1 == doy,
        r.1 < days_in_month(y as int, r.0 as int),
{
    let mut m: u32 = 1;
    let mut rem: u32 = doy;
    loop
        invariant
            1 <= m <= 12,
            days_before_month(y as int, m as int) + rem == doy,
            doy < days_in_year(y as int),
        ensures
            1 <= m <= 12,
            days_before_month(y as int, m as int) + rem == doy,
            rem < days_in_month(y as int, m as int),
        decreases 12 - m,
    {
        let len = month_length(y, m);
        if rem < len {
            break ;
        }
        proof {
            assert(days_before_month(y as int, m as int + 1) == days_before_month(y as int, m as int)
                + days_in_month(y as int, m as int));
            if m == 12 {
                lemma_months_total(y as int);
            }
        }
        rem = rem - len;
        m = m + 1;
    }
    (m, rem)
}

} // verus!
