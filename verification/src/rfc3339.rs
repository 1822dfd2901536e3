//! The RFC 3339 date-time format: a specification-level grammar and field
//! semantics, an executable parser and formatter proved against them, and
//! the law that formatting a timestamp and parsing it back preserves the
//! instant.
//!
//! The grammar follows RFC 3339's `date-time` production with two
//! restrictions: a leap second (`:60`) is not representable, and an instant
//! that falls outside years 0000 through 9999 once normalized to UTC is
//! rejected.  A fractional-second part may have any number of digits;
//! digits beyond the ninth are ignored.

use vstd::prelude::*;

use crate::calendar::{
    days_before_month, days_before_year, days_in_month, days_in_year, day_number,
    days_before_year_exec, lemma_days_before_month_increasing, lemma_days_before_year_bounds,
    lemma_days_before_year_increasing, lemma_months_total, month_of_day, valid_date, year_of_day,
};
use crate::text::{
    append_padded, digit_run, digits_val, is_digit, lemma_padded_dec_len, padded_dec, pow10,
};
use crate::timestamp::{epoch_day_number, max_seconds, min_seconds, Timestamp};

verus! {

/// The fixed positions of a `date-time`: `YYYY-MM-DDThh:mm:ss`, with a
/// lowercase `t` also admitted.
pub open spec fn shape_ok(s: Seq<char>) -> bool {
    &&& s.len() >= 20
    &&& is_digit(s[0]) && is_digit(s[1]) && is_digit(s[2]) && is_digit(s[3])
    &&& s[4] == '-'
    &&& is_digit(s[5]) && is_digit(s[6])
    &&& s[7] == '-'
    &&& is_digit(s[8]) && is_digit(s[9])
    &&& (s[10] == 'T' || s[10] == 't')
    &&& is_digit(s[11]) && is_digit(s[12])
    &&& s[13] == ':'
    &&& is_digit(s[14]) && is_digit(s[15])
    &&& s[16] == ':'
    &&& is_digit(s[17]) && is_digit(s[18])
}

/// Index where the UTC-offset part begins: after the fractional second,
/// when one is present.
pub open spec fn offset_start(s: Seq<char>) -> int {
    if s[19] == '.' {
        20 + digit_run(s, 20)
    } else {
        19
    }
}

/// The offset part: `Z` (or `z`), or a signed `hh:mm` that ends the string.
pub open spec fn offset_ok(s: Seq<char>, j: int) -> bool {
    &&& 0 <= j < s.len()
    &&& if s[j] == 'Z' || s[j] == 'z' {
        j + 1 == s.len()
    } else if s[j] == '+' || s[j] == '-' {
        &&& j + 6 == s.len()
        &&& is_digit(s[j + 1]) && is_digit(s[j + 2])
        &&& s[j + 3] == ':'
        &&& is_digit(s[j + 4]) && is_digit(s[j + 5])
        &&& digits_val(s, j + 1, 2) <= 23
        &&& digits_val(s, j + 4, 2) <= 59
    } else {
        false
    }
}

/// Seconds denoted by the offset part at `j`.
pub open spec fn offset_secs(s: Seq<char>, j: int) -> int {
    if s[j] == '+' {
        digits_val(s, j + 1, 2) * 3600 + digits_val(s, j + 4, 2) * 60
    } else if s[j] == '-' {
        -(digits_val(s, j + 1, 2) * 3600 + digits_val(s, j + 4, 2) * 60)
    } else {
        0
    }
}

pub open spec fn grammar_ok(s: Seq<char>) -> bool {
    &&& shape_ok(s)
    &&& (s[19] == '.' ==> digit_run(s, 20) >= 1)
    &&& offset_ok(s, offset_start(s))
}

pub open spec fn year_field(s: Seq<char>) -> int {
    digits_val(s, 0, 4)
}

pub open spec fn month_field(s: Seq<char>) -> int {
    digits_val(s, 5, 2)
}

pub open spec fn day_field(s: Seq<char>) -> int {
    digits_val(s, 8, 2)
}

pub open spec fn hour_field(s: Seq<char>) -> int {
    digits_val(s, 11, 2)
}

pub open spec fn minute_field(s: Seq<char>) -> int {
    digits_val(s, 14, 2)
}

pub open spec fn second_field(s: Seq<char>) -> int {
    digits_val(s, 17, 2)
}

/// Nanoseconds denoted by the fractional part: the first nine digits,
/// right-padded with zeros; further digits are ignored.
pub open spec fn nanos_field(s: Seq<char>) -> int {
    if s[19] == '.' {
        let k = digit_run(s, 20);
        if k >= 9 {
            digits_val(s, 20, 9)
        } else {
            digits_val(s, 20, k) * pow10(9 - k)
        }
    } else {
        0
    }
}

/// The calendar fields must denote a real date and time of day.
pub open spec fn fields_ok(s: Seq<char>) -> bool {
    &&& valid_date(year_field(s), month_field(s), day_field(s))
    &&& hour_field(s) <= 23
    &&& minute_field(s) <= 59
    &&& second_field(s) <= 59
}

/// Seconds since the Unix epoch denoted by the string, normalized to UTC.
pub open spec fn instant_seconds(s: Seq<char>) -> int {
    (day_number(year_field(s), month_field(s), day_field(s)) - epoch_day_number()) * 86400
        + hour_field(s) * 3600 + minute_field(s) * 60 + second_field(s) - offset_secs(
        s,
        offset_start(s),
    )
}

/// What a string denotes: the instant as (seconds since epoch, nanoseconds),
/// or nothing when the string is not a valid date-time in range.
pub open spec fn spec_parse_rfc3339(s: Seq<char>) -> Option<(int, int)> {
    if grammar_ok(s) && fields_ok(s) && min_seconds() <= instant_seconds(s) <= max_seconds() {
        Some((instant_seconds(s), nanos_field(s)))
    } else {
        None
    }
}

/// The year whose days contain absolute day `day`, found by scanning
/// upward from year `y`.
pub open spec fn year_scan(day: int, y: int) -> int
    decreases 10000 - y,
    when y <= 9999
{
    if y >= 9999 {
        9999
    } else if day < days_before_year(y + 1) {
        y
    } else {
        year_scan(day, y + 1)
    }
}

/// The month of year `y` whose days contain day-of-year `doy`, found by
/// scanning upward from month `m`.
pub open spec fn month_scan(y: int, doy: int, m: int) -> int
    decreases 12 - m,
    when m <= 12
{
    if m >= 12 {
        12
    } else if doy < days_before_month(y, m + 1) {
        m
    } else {
        month_scan(y, doy, m + 1)
    }
}

/// A scan starting at or below the bracketing year finds exactly it.
pub proof fn lemma_year_scan_finds(day: int, y0: int, y: int)
    requires
        0 <= y0 <= y <= 9999,
        days_before_year(y) <= day,
        day < days_before_year(y) + days_in_year(y),
    ensures
        year_scan(day, y0) == y,
    decreases y - y0,
{
    assert(days_before_year(y + 1) == days_before_year(y) + days_in_year(y));
    if y0 < y {
        lemma_days_before_year_increasing(y0 + 1, y);
        assert(days_before_year(y0 + 1) <= day);
        lemma_year_scan_finds(day, y0 + 1, y);
    }
}

/// A scan starting at or below the bracketing month finds exactly it.
pub proof fn lemma_month_scan_finds(y: int, doy: int, m0: int, m: int)
    requires
        1 <= m0 <= m <= 12,
        days_before_month(y, m) <= doy,
        doy < days_before_month(y, m) + days_in_month(y, m),
    ensures
        month_scan(y, doy, m0) == m,
    decreases m - m0,
{
    assert(days_before_month(y, m + 1) == days_before_month(y, m) + days_in_month(y, m));
    if m0 < m {
        lemma_days_before_month_increasing(y, m0 + 1, m);
        assert(days_before_month(y, m0 + 1) <= doy);
        lemma_month_scan_finds(y, doy, m0 + 1, m);
    }
}

/// The canonical rendering of a timestamp: `YYYY-MM-DDThh:mm:ssZ`, with a
/// nine-digit fractional part when the nanosecond part is not zero.
pub open spec fn spec_format_rfc3339(ts: Timestamp) -> Seq<char> {
    let abs = ts.sec() + epoch_day_number() * 86400;
    let day = abs / 86400;
    let sod = abs % 86400;
    let y = year_scan(day, 0);
    let doy = day - days_before_year(y);
    let m = month_scan(y, doy, 1);
    let d = doy - days_before_month(y, m) + 1;
    padded_dec(y, 4) + seq!['-'] + padded_dec(m, 2) + seq!['-'] + padded_dec(d, 2) + seq!['T']
        + padded_dec(sod / 3600, 2) + seq![':'] + padded_dec((sod % 3600) / 60, 2) + seq![':']
        + padded_dec(sod % 60, 2) + (if ts.ns() == 0 {
        Seq::<char>::empty()
    } else {
        seq!['.'] + padded_dec(ts.ns(), 9)
    }) + seq!['Z']
}

/// The scan from `y0` lands on the year whose days bracket `day`.
pub proof fn lemma_year_scan_props(day: int, y0: int)
    requires
        0 <= y0 <= 9999,
        days_before_year(y0) <= day < days_before_year(10000),
    ensures
        ({
            let y = year_scan(day, y0);
            &&& y0 <= y <= 9999
            &&& days_before_year(y) <= day
            &&& day < days_before_year(y) + days_in_year(y)
        }),
    decreases 10000 - y0,
{
    assert(days_before_year(y0 + 1) == days_before_year(y0) + days_in_year(y0));
    if y0 >= 9999 {
    } else if day < days_before_year(y0 + 1) {
    } else {
        lemma_year_scan_props(day, y0 + 1);
    }
}

/// The scan from `m0` lands on the month whose days bracket `doy`.
pub proof fn lemma_month_scan_props(y: int, doy: int, m0: int)
    requires
        1 <= m0 <= 12,
        days_before_month(y, m0) <= doy < days_in_year(y),
    ensures
        ({
            let m = month_scan(y, doy, m0);
            &&& m0 <= m <= 12
            &&& days_before_month(y, m) <= doy
            &&& doy < days_before_month(y, m) + days_in_month(y, m)
        }),
    decreases 12 - m0,
{
    assert(days_before_month(y, m0 + 1) == days_before_month(y, m0) + days_in_month(y, m0));
    if m0 >= 12 {
        lemma_months_total(y);
    } else if doy < days_before_month(y, m0 + 1) {
    } else {
        lemma_month_scan_props(y, doy, m0 + 1);
    }
}

/// A digit run bounded by a non-digit character has exactly the length of
/// the digit region.
pub proof fn lemma_digit_run_exact(s: Seq<char>, i: int, k: int)
    requires
        0 <= i,
        0 <= k,
        i + k < s.len(),
        forall|t: int| i <= t < i + k ==> is_digit(#[trigger] s[t]),
        !is_digit(s[i + k]),
    ensures
        digit_run(s, i) == k,
    decreases k,
{
    if k > 0 {
        lemma_digit_run_exact(s, i + 1, k - 1);
    }
}

/// Formatting a timestamp and parsing the result recovers the instant
/// exactly: the canonical rendering denotes the timestamp it was made from.
#[verifier::rlimit(100)]
pub proof fn lemma_format_parse_round_trip(ts: Timestamp)
    requires
        ts.wf(),
    ensures
        spec_parse_rfc3339(spec_format_rfc3339(ts)) == Some((ts.sec(), ts.ns())),
{
    lemma_days_before_year_bounds(1970);
    lemma_days_before_year_bounds(10000);
    let abs = ts.sec() + epoch_day_number() * 86400;
    let day = abs / 86400;
    let sod = abs % 86400;
    vstd::arithmetic::div_mod::lemma_fundamental_div_mod(abs, 86400);
    assert(0 <= sod < 86400);
    assert(day < days_before_year(10000)) by (nonlinear_arith)
        requires
            abs == 86400 * day + sod,
            0 <= sod < 86400,
            0 <= abs < days_before_year(10000) * 86400,
    ;
    assert(0 <= day) by (nonlinear_arith)
        requires
            abs == 86400 * day + sod,
            0 <= sod < 86400,
            0 <= abs,
    ;
    lemma_year_scan_props(day, 0);
    let y = year_scan(day, 0);
    let doy = day - days_before_year(y);
    lemma_month_scan_props(y, doy, 1);
    let m = month_scan(y, doy, 1);
    let d = doy - days_before_month(y, m) + 1;
    assert(valid_date(y, m, d));
    assert(day_number(y, m, d) == day);
    let h = sod / 3600;
    let mi = (sod % 3600) / 60;
    let sec = sod % 60;
    vstd::arithmetic::div_mod::lemma_fundamental_div_mod(sod, 3600);
    vstd::arithmetic::div_mod::lemma_fundamental_div_mod(sod % 3600, 60);
    vstd::arithmetic::div_mod::lemma_fundamental_div_mod_converse(
        sod,
        60,
        60 * h + mi,
        (sod % 3600) % 60,
    );
    assert(h <= 23 && mi <= 59 && sec <= 59);
    assert(h * 3600 + mi * 60 + sec == sod);
    let s = spec_format_rfc3339(ts);
    lemma_padded_dec_len(y, 4);
    lemma_padded_dec_len(m, 2);
    lemma_padded_dec_len(d, 2);
    lemma_padded_dec_len(h, 2);
    lemma_padded_dec_len(mi, 2);
    lemma_padded_dec_len(sec, 2);
    lemma_padded_dec_len(ts.ns(), 9);
    if ts.ns() == 0 {
        assert(s.len() == 20);
    } else {
        assert(s.len() == 30);
    }
    // the fixed positions hold the rendered fields
    assert(s[4] == '-' && s[7] == '-' && s[10] == 'T' && s[13] == ':' && s[16] == ':');
    assert forall|k: int| 0 <= k < 4 implies s[k] == #[trigger] padded_dec(y, 4)[k] by {}
    assert forall|k: int| 0 <= k < 2 implies s[5 + k] == #[trigger] padded_dec(m, 2)[k] by {}
    assert forall|k: int| 0 <= k < 2 implies s[8 + k] == #[trigger] padded_dec(d, 2)[k] by {}
    assert forall|k: int| 0 <= k < 2 implies s[11 + k] == #[trigger] padded_dec(h, 2)[k] by {}
    assert forall|k: int| 0 <= k < 2 implies s[14 + k] == #[trigger] padded_dec(mi, 2)[k] by {}
    assert forall|k: int| 0 <= k < 2 implies s[17 + k] == #[trigger] padded_dec(sec, 2)[k] by {}
    crate::text::lemma_digits_val_congruent(s, 0, padded_dec(y, 4), 0, 4);
    crate::text::lemma_digits_val_congruent(s, 5, padded_dec(m, 2), 0, 2);
    crate::text::lemma_digits_val_congruent(s, 8, padded_dec(d, 2), 0, 2);
    crate::text::lemma_digits_val_congruent(s, 11, padded_dec(h, 2), 0, 2);
    crate::text::lemma_digits_val_congruent(s, 14, padded_dec(mi, 2), 0, 2);
    crate::text::lemma_digits_val_congruent(s, 17, padded_dec(sec, 2), 0, 2);
    reveal_with_fuel(pow10, 10);
    crate::text::lemma_padded_dec_val(y, 4);
    crate::text::lemma_padded_dec_val(m, 2);
    crate::text::lemma_padded_dec_val(d, 2);
    crate::text::lemma_padded_dec_val(h, 2);
    crate::text::lemma_padded_dec_val(mi, 2);
    crate::text::lemma_padded_dec_val(sec, 2);
    assert(year_field(s) == y && month_field(s) == m && day_field(s) == d);
    assert(hour_field(s) == h && minute_field(s) == mi && second_field(s) == sec);
    assert(shape_ok(s));
    assert(fields_ok(s));
    if ts.ns() == 0 {
        assert(s[19] == 'Z');
        assert(offset_start(s) == 19);
        assert(offset_ok(s, 19));
        assert(nanos_field(s) == 0);
    } else {
        assert(s[19] == '.');
        assert forall|k: int|
            0 <= k < 9 implies s[20 + k] == #[trigger] padded_dec(ts.ns(), 9)[k] by {}
        assert(s[29] == 'Z');
        assert(forall|t: int| 20 <= t < 29 ==> is_digit(#[trigger] s[t]));
        lemma_digit_run_exact(s, 20, 9);
        assert(offset_start(s) == 29);
        assert(offset_ok(s, 29));
        crate::text::lemma_digits_val_congruent(s, 20, padded_dec(ts.ns(), 9), 0, 9);
        crate::text::lemma_padded_dec_val(ts.ns(), 9);
        assert(nanos_field(s) == ts.ns());
    }
    assert(grammar_ok(s));
    assert(offset_secs(s, offset_start(s)) == 0);
    assert(instant_seconds(s) == ts.sec());
}

/// The nanosecond part of a valid string is a nanosecond count.
pub proof fn lemma_nanos_field_bounds(s: Seq<char>)
    requires
        grammar_ok(s),
    ensures
        0 <= nanos_field(s) < 1000000000,
{
    reveal_with_fuel(pow10, 10);
    if s[19] == '.' {
        let k = digit_run(s, 20);
        assert forall|t: int| 20 <= t < 20 + (if k >= 9 { 9int } else { k }) implies is_digit(
            #[trigger] s[t],
        ) by {
            crate::text::lemma_digit_run_digits(s, 20, t);
        }
        if k >= 9 {
            crate::text::lemma_digits_val_bounds(s, 20, 9);
        } else {
            crate::text::lemma_digits_val_bounds(s, 20, k);
            crate::text::lemma_pow10_pos(9 - k);
            crate::text::lemma_pow10_add(k, 9 - k);
            assert(0 <= digits_val(s, 20, k) * pow10(9 - k) < pow10(9)) by (nonlinear_arith)
                requires
                    0 <= digits_val(s, 20, k) < pow10(k),
                    pow10(9 - k) >= 1,
                    pow10(k) * pow10(9 - k) == pow10(9),
            ;
        }
    }
}

/// Decoding a valid string and re-encoding the instant it denotes yields
/// a string that denotes the same instant: the rendering may differ from
/// the input, the instant never does.
pub proof fn lemma_decode_encode_preserves_instant(s: Seq<char>)
    requires
        spec_parse_rfc3339(s) is Some,
    ensures
        ({
            let v = spec_parse_rfc3339(s)->Some_0;
            spec_parse_rfc3339(spec_format_rfc3339(Timestamp::from_parts_spec(v.0, v.1)))
                == spec_parse_rfc3339(s)
        }),
{
    let v = spec_parse_rfc3339(s)->Some_0;
    lemma_nanos_field_bounds(s);
    Timestamp::lemma_from_parts_spec(v.0, v.1);
    lemma_format_parse_round_trip(Timestamp::from_parts_spec(v.0, v.1));
}

/// Reads `w` decimal digits of `s` starting at character `i`.
fn read_digits(s: &str, i: usize, w: usize) -> (r: Option<u32>)
    requires
        i + w <= s@.len(),
        i + w <= usize::MAX,
        w <= 9,
    ensures
        match r {
            Some(v) => (forall|k: int| i <= k < i + w ==> is_digit(#[trigger] s@[k])) && v
                == digits_val(s@, i as int, w as int) && v < pow10(w as int),
            None => !(forall|k: int| i <= k < i + w ==> is_digit(#[trigger] s@[k])),
        },
{
    let mut acc: u32 = 0;
    let mut j: usize = 0;
    while j < w
        invariant
            j <= w <= 9,
            i + w <= s@.len(),
            i + w <= usize::MAX,
            acc == digits_val(s@, i as int, j as int),
            acc < pow10(j as int),
            forall|k: int| i <= k < i + j ==> is_digit(#[trigger] s@[k]),
        decreases w - j,
    {
        let c = s.get_char(i + j);
        match crate::text::char_digit(c) {
            Some(d) => {
                proof {
                    crate::text::lemma_pow10_mono(j as int + 1, 9);
                    reveal_with_fuel(pow10, 10);
                }
                acc = acc * 10 + (d as u32);
            },
            None => {
                return None;
            },
        }
        j = j + 1;
    }
    Some(acc)
}

/// Parses an RFC 3339 date-time string; `None` exactly when the string does
/// not denote an instant that the timestamp type can represent.
#[verifier::rlimit(50)]
pub fn parse_rfc3339(s: &str) -> (r: Option<Timestamp>)
    ensures
        match r {
            Some(ts) => ts.wf() && spec_parse_rfc3339(s@) == Some((ts.sec(), ts.ns())),
            None => spec_parse_rfc3339(s@) is None,
        },
{
    let n = s.unicode_len();
    if n < 20 {
        return None;
    }
    // the fixed date and time positions
    let year = match read_digits(s, 0, 4) {
        Some(v) => v,
        None => {
            return None;
        },
    };
    if s.get_char(4) != '-' {
        return None;
    }
    let month = match read_digits(s, 5, 2) {
        Some(v) => v,
        None => {
            return None;
        },
    };
    if s.get_char(7) != '-' {
        return None;
    }
    let day = match read_digits(s, 8, 2) {
        Some(v) => v,
        None => {
            return None;
        },
    };
    let c10 = s.get_char(10);
    if !(c10 == 'T' || c10 == 't') {
        return None;
    }
    let hour = match read_digits(s, 11, 2) {
        Some(v) => v,
        None => {
            return None;
        },
    };
    if s.get_char(13) != ':' {
        return None;
    }
    let minute = match read_digits(s, 14, 2) {
        Some(v) => v,
        None => {
            return None;
        },
    };
    if s.get_char(16) != ':' {
        return None;
    }
    let second = match read_digits(s, 17, 2) {
        Some(v) => v,
        None => {
            return None;
        },
    };
    // the fractional second, if present
    let mut nanos: u32 = 0;
    let mut j: usize = 19;
    if s.get_char(19) == '.' {
        let mut k: usize = 20;
        while k < n && matches!(crate::text::char_digit(s.get_char(k)), Some(_))
            invariant
                20 <= k <= n == s@.len(),
                digit_run(s@, 20) == (k - 20) + digit_run(s@, k as int),
                forall|t: int| 20 <= t < k ==> is_digit(#[trigger] s@[t]),
            decreases n - k,
        {
            k = k + 1;
        }
        proof {
            assert(digit_run(s@, k as int) == 0);
            assert(digit_run(s@, 20) == k - 20);
        }
        if k == 20 {
            return None;
        }
        let frac_digits = k - 20;
        if frac_digits >= 9 {
            nanos = match read_digits(s, 20, 9) {
                Some(v) => v,
                None => {
                    return None;
                },
            };
        } else {
            let v = match read_digits(s, 20, frac_digits) {
                Some(v) => v,
                None => {
                    return None;
                },
            };
            let scale = crate::text::pow10_exec((9 - frac_digits) as u32);
            proof {
                crate::text::lemma_digits_val_bounds(s@, 20, frac_digits as int);
                crate::text::lemma_pow10_add(frac_digits as int, 9 - frac_digits as int);
                crate::text::lemma_pow10_pos(9 - frac_digits as int);
                reveal_with_fuel(pow10, 10);
                assert(v * scale < pow10(9)) by (nonlinear_arith)
                    requires
                        v < pow10(frac_digits as int),
                        scale == pow10(9 - frac_digits as int),
                        pow10(frac_digits as int) * pow10(9 - frac_digits as int) == pow10(9),
                        scale >= 1,
                ;
            }
            nanos = v * scale;
        }
        j = k;
    }
    // the offset
    if j >= n {
        return None;
    }
    let cj = s.get_char(j);
    let offset: i64;
    if cj == 'Z' || cj == 'z' {
        if j + 1 != n {
            return None;
        }
        offset = 0;
    } else if cj == '+' || cj == '-' {
        if n - j != 6 {
            return None;
        }
        let oh = match read_digits(s, j + 1, 2) {
            Some(v) => v,
            None => {
                return None;
            },
        };
        if s.get_char(j + 3) != ':' {
            return None;
        }
        let om = match read_digits(s, j + 4, 2) {
            Some(v) => v,
            None => {
                return None;
            },
        };
        if oh > 23 || om > 59 {
            return None;
        }
        let magnitude = (oh * 3600 + om * 60) as i64;
        offset = if cj == '-' {
            -magnitude
        } else {
            magnitude
        };
    } else {
        return None;
    }
    proof {
        assert(grammar_ok(s@));
        assert(offset == offset_secs(s@, offset_start(s@)));
        assert(nanos == nanos_field(s@));
    }
    // the calendar fields must denote a real date and time of day
    proof {
        reveal_with_fuel(pow10, 10);
        crate::text::lemma_digits_val_bounds(s@, 0, 4);
    }
    if month < 1 || month > 12 {
        return None;
    }
    if day < 1 || day > crate::calendar::month_length(year, month) {
        return None;
    }
    if hour > 23 || minute > 59 || second > 59 {
        return None;
    }
    assert(fields_ok(s@));
    // the instant, normalized to UTC
    proof {
        crate::calendar::lemma_day_number_range(year as int, month as int, day as int);
        lemma_days_before_year_bounds(1970);
        lemma_days_before_year_bounds(10000);
        lemma_days_before_year_bounds(year as int);
        crate::calendar::lemma_days_before_month_bounds(year as int, month as int);
    }
    let epoch_days = days_before_year_exec(1970);
    let day_num = days_before_year_exec(year) + crate::calendar::days_before_month_exec(
        year,
        month,
    ) + (day - 1);
    let seconds: i64 = (day_num as i64 - epoch_days as i64) * 86400 + (hour as i64) * 3600 + (
    minute as i64) * 60 + (second as i64) - offset;
    proof {
        assert(seconds == instant_seconds(s@));
    }
    let (lo, hi) = crate::timestamp::seconds_range();
    if seconds < lo || seconds > hi {
        return None;
    }
    proof {
        reveal_with_fuel(pow10, 10);
        assert(nanos < 1000000000);
    }
    let ts = Timestamp::from_parts(seconds, nanos);
    proof {
        assert(ts.wf());
        assert(spec_parse_rfc3339(s@) == Some((ts.sec(), ts.ns())));
    }
    Some(ts)
}

/// Renders a timestamp as its canonical RFC 3339 string.
pub fn format_rfc3339(ts: &Timestamp) -> (r: String)
    ensures
        r@ == spec_format_rfc3339(*ts),
{
    proof {
        lemma_days_before_year_bounds(1970);
        lemma_days_before_year_bounds(10000);
    }
    let ts_seconds = ts.seconds();
    let ts_nanos = ts.nanos();
    let epoch_days = days_before_year_exec(1970);
    let abs_i: i64 = ts_seconds + (epoch_days as i64) * 86400;
    let abs: u64 = abs_i as u64;
    proof {
        assert(abs == ts.sec() + epoch_day_number() * 86400);
        assert((abs as int) / 86400 < days_before_year(10000) && (abs as int) % 86400 < 86400) by {
            vstd::arithmetic::div_mod::lemma_fundamental_div_mod(abs as int, 86400);
            assert((abs as int) / 86400 < days_before_year(10000)) by (nonlinear_arith)
                requires
                    abs as int == 86400 * ((abs as int) / 86400) + (abs as int) % 86400,
                    0 <= (abs as int) % 86400 < 86400,
                    abs < days_before_year(10000) * 86400,
            ;
        }
    }
    let day32: u32 = (abs / 86400) as u32;
    let sod: u32 = (abs % 86400) as u32;
    let (y, doy) = year_of_day(day32);
    let (m, d0) = month_of_day(y, doy);
    let d = d0 + 1;
    let h = sod / 3600;
    let mi = (sod % 3600) / 60;
    let sec = sod % 60;
    proof {
        lemma_year_scan_finds(day32 as int, 0, y as int);
        lemma_month_scan_finds(y as int, doy as int, 1, m as int);
        assert((sod as int) / 3600 == ((abs as int) % 86400) / 3600);
        reveal_strlit("-");
        reveal_strlit("T");
        reveal_strlit(":");
        reveal_strlit(".");
        reveal_strlit("Z");
    }
    let mut out = String::new();
    append_padded(&mut out, y, 4);
    out.append("-");
    append_padded(&mut out, m, 2);
    out.append("-");
    append_padded(&mut out, d, 2);
    out.append("T");
    append_padded(&mut out, h, 2);
    out.append(":");
    append_padded(&mut out, mi, 2);
    out.append(":");
    append_padded(&mut out, sec, 2);
    if ts_nanos != 0 {
        out.append(".");
        append_padded(&mut out, ts_nanos, 9);
    }
    out.append("Z");
    proof {
        assert("-"@ =~= seq!['-']);
        assert("T"@ =~= seq!['T']);
        assert(":"@ =~= seq![':']);
        assert("."@ =~= seq!['.']);
        assert("Z"@ =~= seq!['Z']);
        assert(out@ =~= spec_format_rfc3339(*ts));
    }
    out
}

} // verus!
