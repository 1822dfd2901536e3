//! Characters and decimal digit strings: spec-level digit values, padded
//! and unpadded decimal renderings, and the lemmas that connect a rendered
//! number back to its value.

use vstd::prelude::*;

verus! {

/// Value of a decimal digit character, `-1` for any other character.
pub open spec fn digit_val(c: char) -> int {
    if c == '0' {
        0
    } else if c == '1' {
        1
    } else if c == '2' {
        2
    } else if c == '3' {
        3
    } else if c == '4' {
        4
    } else if c == '5' {
        5
    } else if c == '6' {
        6
    } else if c == '7' {
        7
    } else if c == '8' {
        8
    } else if c == '9' {
        9
    } else {
        -1
    }
}

pub open spec fn is_digit(c: char) -> bool {
    digit_val(c) >= 0
}

/// The character for a decimal digit value.
pub open spec fn digit_char(d: int) -> char {
    if d == 0 {
        '0'
    } else if d == 1 {
        '1'
    } else if d == 2 {
        '2'
    } else if d == 3 {
        '3'
    } else if d == 4 {
        '4'
    } else if d == 5 {
        '5'
    } else if d == 6 {
        '6'
    } else if d == 7 {
        '7'
    } else if d == 8 {
        '8'
    } else {
        '9'
    }
}

pub proof fn lemma_digit_char_val(d: int)
    requires
        0 <= d <= 9,
    ensures
        digit_val(digit_char(d)) == d,
        is_digit(digit_char(d)),
{
}

/// `10^w`.
pub open spec fn pow10(w: int) -> int
    decreases w,
{
    if w <= 0 {
        1
    } else {
        10 * pow10(w - 1)
    }
}

/// The number `n` rendered as exactly `w` decimal digits, zero-padded.
pub open spec fn padded_dec(n: int, w: int) -> Seq<char>
    decreases w,
{
    if w <= 0 {
        Seq::empty()
    } else {
        padded_dec(n / 10, w - 1) + seq![digit_char(n % 10)]
    }
}

/// The value of the `w` digit characters of `s` starting at index `i`.
pub open spec fn digits_val(s: Seq<char>, i: int, w: int) -> int
    decreases w,
{
    if w <= 0 {
        0
    } else {
        digits_val(s, i, w - 1) * 10 + digit_val(s[i + w - 1])
    }
}

pub proof fn lemma_padded_dec_len(n: int, w: int)
    requires
        w >= 0,
    ensures
        padded_dec(n, w).len() == w,
        forall|k: int| 0 <= k < w ==> is_digit(#[trigger] padded_dec(n, w)[k]),
    decreases w,
{
    if w > 0 {
        lemma_padded_dec_len(n / 10, w - 1);
        assert forall|k: int| 0 <= k < w implies is_digit(#[trigger] padded_dec(n, w)[k]) by {
            if k < w - 1 {
                assert(padded_dec(n, w)[k] == padded_dec(n / 10, w - 1)[k]);
            } else {
                lemma_digit_char_val(n % 10);
            }
        }
    }
}

/// `digits_val` reads only the characters at `i .. i + w`.
pub proof fn lemma_digits_val_congruent(s1: Seq<char>, i1: int, s2: Seq<char>, i2: int, w: int)
    requires
        forall|k: int| 0 <= k < w ==> s1[i1 + k] == #[trigger] s2[i2 + k],
    ensures
        digits_val(s1, i1, w) == digits_val(s2, i2, w),
    decreases w,
{
    if w > 0 {
        lemma_digits_val_congruent(s1, i1, s2, i2, w - 1);
        assert(s1[i1 + (w - 1)] == s2[i2 + (w - 1)]);
    }
}

/// Reading back a zero-padded rendering recovers the number.
pub proof fn lemma_padded_dec_val(n: int, w: int)
    requires
        0 <= n < pow10(w),
    ensures
        digits_val(padded_dec(n, w), 0, w) == n,
    decreases w,
{
    if w > 0 {
        let s = padded_dec(n, w);
        let prefix = padded_dec(n / 10, w - 1);
        lemma_padded_dec_len(n / 10, w - 1);
        assert(0 <= n / 10 < pow10(w - 1)) by {
            assert(pow10(w) == 10 * pow10(w - 1));
        }
        lemma_padded_dec_val(n / 10, w - 1);
        lemma_digits_val_congruent(s, 0, prefix, 0, w - 1);
        assert(s[w - 1] == digit_char(n % 10));
        lemma_digit_char_val(n % 10);
        assert(digits_val(s, 0, w) == (n / 10) * 10 + n % 10);
    }
}

pub proof fn lemma_pow10_pos(w: int)
    ensures
        pow10(w) >= 1,
    decreases w,
{
    if w > 0 {
        lemma_pow10_pos(w - 1);
    }
}

pub proof fn lemma_pow10_add(a: int, b: int)
    requires
        0 <= a,
        0 <= b,
    ensures
        pow10(a) * pow10(b) == pow10(a + b),
    decreases a,
{
    if a > 0 {
        lemma_pow10_add(a - 1, b);
        assert(pow10(a) * pow10(b) == 10 * (pow10(a - 1) * pow10(b)))
            by (nonlinear_arith)
            requires
                pow10(a) == 10 * pow10(a - 1),
        ;
    }
}

/// Number of consecutive decimal digit characters of `s` starting at `i`.
pub open spec fn digit_run(s: Seq<char>, i: int) -> int
    decreases s.len() - i,
{
    if i < 0 || i >= s.len() || !is_digit(s[i]) {
        0
    } else {
        1 + digit_run(s, i + 1)
    }
}

/// The characters a digit run covers are digits.
pub proof fn lemma_digit_run_digits(s: Seq<char>, i: int, t: int)
    requires
        i <= t < i + digit_run(s, i),
    ensures
        is_digit(s[t]),
    decreases t - i,
{
    if t > i {
        lemma_digit_run_digits(s, i + 1, t);
    }
}

/// A run of digit characters reads back as a number below `10^w`.
pub proof fn lemma_digits_val_bounds(s: Seq<char>, i: int, w: int)
    requires
        forall|k: int| 0 <= k < w ==> is_digit(#[trigger] s[i + k]),
    ensures
        0 <= digits_val(s, i, w) < pow10(w),
    decreases w,
{
    if w > 0 {
        lemma_digits_val_bounds(s, i, w - 1);
        assert(is_digit(s[i + (w - 1)]));
    }
}

/// `10^e` computed at run time.
pub fn pow10_exec(e: u32) -> (r: u32)
    requires
        e <= 9,
    ensures
        r == pow10(e as int),
{
    proof {
        reveal_with_fuel(pow10, 10);
    }
    let mut r: u32 = 1;
    let mut i: u32 = 0;
    while i < e
        invariant
            i <= e <= 9,
            r == pow10(i as int),
        decreases e - i,
    {
        proof {
            reveal_with_fuel(pow10, 10);
            assert(pow10(i as int) <= pow10(8)) by {
                lemma_pow10_mono(i as int, 8);
            }
        }
        r = r * 10;
        i = i + 1;
    }
    r
}

pub proof fn lemma_pow10_mono(a: int, b: int)
    requires
        a <= b,
    ensures
        pow10(a) <= pow10(b),
    decreases b - a,
{
    if a < b {
        lemma_pow10_mono(a, b - 1);
        lemma_pow10_pos(b - 1);
    }
}

/// The number `n` rendered in decimal with no leading zeros (a single `0`
/// for zero itself).
pub open spec fn dec_str(n: int) -> Seq<char>
    decreases n,
{
    if n < 10 {
        seq![digit_char(n)]
    } else {
        dec_str(n / 10) + seq![digit_char(n % 10)]
    }
}

/// A signed number in decimal: a leading `-` for negative values.
pub open spec fn int_str(n: int) -> Seq<char> {
    if n < 0 {
        seq!['-'] + dec_str(-n)
    } else {
        dec_str(n)
    }
}

/// One-character string for a decimal digit.
pub fn digit_str(d: u8) -> (r: &'static str)
    requires
        d < 10,
    ensures
        r@ == seq![digit_char(d as int)],
{
    proof {
        reveal_strlit("0");
        reveal_strlit("1");
        reveal_strlit("2");
        reveal_strlit("3");
        reveal_strlit("4");
        reveal_strlit("5");
        reveal_strlit("6");
        reveal_strlit("7");
        reveal_strlit("8");
        reveal_strlit("9");
    }
    let r: &'static str = match d {
        0 => "0",
        1 => "1",
        2 => "2",
        3 => "3",
        4 => "4",
        5 => "5",
        6 => "6",
        7 => "7",
        8 => "8",
        _ => "9",
    };
    proof {
        assert(r@ =~= seq![digit_char(d as int)]);
    }
    r
}

/// Appends `n` as exactly `w` zero-padded decimal digits.
pub fn append_padded(out: &mut String, n: u32, w: u32)
    ensures
        final (out)@ == old(out)@ + padded_dec(n as int, w as int),
    decreases w,
{
    if w == 0 {
        proof {
            assert(old(out)@ + padded_dec(n as int, 0) =~= old(out)@);
        }
    } else {
        append_padded(out, n / 10, w - 1);
        out.append(digit_str((n % 10) as u8));
        proof {
            assert(old(out)@ + padded_dec(n as int, w as int) =~= (old(out)@ + padded_dec(
                n as int / 10,
                w as int - 1,
            )) + seq![digit_char(n as int % 10)]);
        }
    }
}

/// Appends `n` in decimal with no leading zeros.
pub fn append_u32(out: &mut String, n: u32)
    ensures
        final (out)@ == old(out)@ + dec_str(n as int),
    decreases n,
{
    if n < 10 {
        out.append(digit_str(n as u8));
    } else {
        append_u32(out, n / 10);
        out.append(digit_str((n % 10) as u8));
        proof {
            assert(old(out)@ + dec_str(n as int) =~= (old(out)@ + dec_str(n as int / 10))
                + seq![digit_char(n as int % 10)]);
        }
    }
}

/// Appends `n` in decimal, with a leading `-` when negative.
pub fn append_i32(out: &mut String, n: i32)
    ensures
        final (out)@ == old(out)@ + int_str(n as int),
{
    if n < 0 {
        let minus: &'static str = "-";
        proof {
            reveal_strlit("-");
            assert(minus@ =~= seq!['-']);
        }
        out.append(minus);
        let mag: u32 = (-(n as i64)) as u32;
        append_u32(out, mag);
        proof {
            assert(old(out)@ + int_str(n as int) =~= (old(out)@ + seq!['-']) + dec_str(
                -(n as int),
            ));
        }
    } else {
        append_u32(out, n as u32);
    }
}

/// Reads the digit value of a character.
pub fn char_digit(c: char) -> (r: Option<u8>)
    ensures
        match r {
            Some(d) => digit_val(c) == d && d <= 9,
            None => !is_digit(c),
        },
{
    match c {
        '0' => Some(0),
        '1' => Some(1),
        '2' => Some(2),
        '3' => Some(3),
        '4' => Some(4),
        '5' => Some(5),
        '6' => Some(6),
        '7' => Some(7),
        '8' => Some(8),
        '9' => Some(9),
        _ => None,
    }
}

} // verus!
