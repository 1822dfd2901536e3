//! Decimals carried as strings on the wire: the grammar of a floating-point
//! literal (the strings that a float parser accepts), and a string type
//! that is numeric by construction.

use vstd::prelude::*;

use crate::text::{digit_run, is_digit};

verus! {

/// Length of an optional sign at `i`: one for `+` or `-`, else zero.
pub open spec fn sign_len(s: Seq<char>, i: int) -> int {
    if i < s.len() && (s[i] == '+' || s[i] == '-') {
        1
    } else {
        0
    }
}

/// Case-insensitive match of one keyword letter.
pub open spec fn letter_ci(c: char, l: char) -> bool {
    ||| c == l
    ||| (l == 'i' && c == 'I')
    ||| (l == 'n' && c == 'N')
    ||| (l == 'f' && c == 'F')
    ||| (l == 'a' && c == 'A')
    ||| (l == 't' && c == 'T')
    ||| (l == 'y' && c == 'Y')
}

/// The rest of `s` from `i` reads `inf`, in any case.
pub open spec fn kw_inf(s: Seq<char>, i: int) -> bool {
    &&& s.len() - i == 3
    &&& letter_ci(s[i], 'i') && letter_ci(s[i + 1], 'n') && letter_ci(s[i + 2], 'f')
}

/// The rest of `s` from `i` reads `infinity`, in any case.
pub open spec fn kw_infinity(s: Seq<char>, i: int) -> bool {
    &&& s.len() - i == 8
    &&& letter_ci(s[i], 'i') && letter_ci(s[i + 1], 'n') && letter_ci(s[i + 2], 'f')
    &&& letter_ci(s[i + 3], 'i') && letter_ci(s[i + 4], 'n') && letter_ci(s[i + 5], 'i')
    &&& letter_ci(s[i + 6], 't') && letter_ci(s[i + 7], 'y')
}

/// The rest of `s` from `i` reads `nan`, in any case.
pub open spec fn kw_nan(s: Seq<char>, i: int) -> bool {
    &&& s.len() - i == 3
    &&& letter_ci(s[i], 'n') && letter_ci(s[i + 1], 'a') && letter_ci(s[i + 2], 'n')
}

/// An exponent part at `j` that ends the string: `e` or `E`, an optional
/// sign, one or more digits.
pub open spec fn exp_ok(s: Seq<char>, j: int) -> bool {
    &&& 0 <= j < s.len()
    &&& (s[j] == 'e' || s[j] == 'E')
    &&& ({
        let t = j + 1 + sign_len(s, j + 1);
        digit_run(s, t) >= 1 && t + digit_run(s, t) == s.len()
    })
}

pub open spec fn exp_or_end(s: Seq<char>, j: int) -> bool {
    j == s.len() || exp_ok(s, j)
}

/// An unsigned number at `i`: digits, a dot with digits on at least one
/// side, and an optional exponent, ending the string.
pub open spec fn number_ok(s: Seq<char>, i: int) -> bool {
    let k = digit_run(s, i);
    if k >= 1 {
        let j = i + k;
        if j < s.len() && s[j] == '.' {
            exp_or_end(s, j + 1 + digit_run(s, j + 1))
        } else {
            exp_or_end(s, j)
        }
    } else {
        if 0 <= i && i < s.len() && s[i] == '.' {
            digit_run(s, i + 1) >= 1 && exp_or_end(s, i + 1 + digit_run(s, i + 1))
        } else {
            false
        }
    }
}

/// The strings a float parser accepts: an optional sign, then `inf`,
/// `infinity`, `nan` (any case), or a number.
pub open spec fn is_float_literal(s: Seq<char>) -> bool {
    let i = sign_len(s, 0);
    ||| kw_inf(s, i)
    ||| kw_infinity(s, i)
    ||| kw_nan(s, i)
    ||| number_ok(s, i)
}

fn letter_ci_exec(c: char, l: char) -> (r: bool)
    ensures
        r == letter_ci(c, l),
{
    c == l || (l == 'i' && c == 'I') || (l == 'n' && c == 'N') || (l == 'f' && c == 'F') || (l
        == 'a' && c == 'A') || (l == 't' && c == 'T') || (l == 'y' && c == 'Y')
}

/// Counts the digit characters of `s` from position `i` on.
pub fn digit_run_exec(s: &str, i: usize) -> (r: usize)
    requires
        i <= s@.len(),
    ensures
        r == digit_run(s@, i as int),
        i + r <= s@.len(),
{
    let n = s.unicode_len();
    let mut k: usize = i;
    while k < n && matches!(crate::text::char_digit(s.get_char(k)), Some(_))
        invariant
            i <= k <= n == s@.len(),
            digit_run(s@, i as int) == (k - i) + digit_run(s@, k as int),
            forall|t: int| i <= t < k ==> is_digit(#[trigger] s@[t]),
        decreases n - k,
    {
        k = k + 1;
    }
    proof {
        assert(digit_run(s@, k as int) == 0);
    }
    k - i
}

fn exp_or_end_exec(s: &str, j: usize) -> (r: bool)
    requires
        j <= s@.len(),
    ensures
        r == exp_or_end(s@, j as int),
{
    let n = s.unicode_len();
    if j == n {
        return true;
    }
    let c = s.get_char(j);
    if !(c == 'e' || c == 'E') {
        return false;
    }
    let mut t = j + 1;
    if t < n {
        let cs = s.get_char(t);
        if cs == '+' || cs == '-' {
            t = t + 1;
        }
    }
    let d = digit_run_exec(s, t);
    d >= 1 && t + d == n
}

/// Whether `s` is a floating-point literal.
pub fn is_float_literal_exec(s: &str) -> (r: bool)
    ensures
        r == is_float_literal(s@),
{
    let n = s.unicode_len();
    let mut i: usize = 0;
    if 0 < n {
        let c = s.get_char(0);
        if c == '+' || c == '-' {
            i = 1;
        }
    }
    // the keywords
    if n - i == 3 {
        let a = s.get_char(i);
        let b = s.get_char(i + 1);
        let c = s.get_char(i + 2);
        if letter_ci_exec(a, 'i') && letter_ci_exec(b, 'n') && letter_ci_exec(c, 'f') {
            return true;
        }
        if letter_ci_exec(a, 'n') && letter_ci_exec(b, 'a') && letter_ci_exec(c, 'n') {
            return true;
        }
    }
    if n - i == 8 {
        if letter_ci_exec(s.get_char(i), 'i') && letter_ci_exec(s.get_char(i + 1), 'n')
            && letter_ci_exec(s.get_char(i + 2), 'f') && letter_ci_exec(s.get_char(i + 3), 'i')
            && letter_ci_exec(s.get_char(i + 4), 'n') && letter_ci_exec(s.get_char(i + 5), 'i')
            && letter_ci_exec(s.get_char(i + 6), 't') && letter_ci_exec(s.get_char(i + 7), 'y') {
            return true;
        }
    }
    // a number
    let k = digit_run_exec(s, i);
    if k >= 1 {
        let j = i + k;
        if j < n && s.get_char(j) == '.' {
            let f = digit_run_exec(s, j + 1);
            exp_or_end_exec(s, j + 1 + f)
        } else {
            exp_or_end_exec(s, j)
        }
    } else {
        if i < n && s.get_char(i) == '.' {
            let f = digit_run_exec(s, i + 1);
            f >= 1 && exp_or_end_exec(s, i + 1 + f)
        } else {
            false
        }
    }
}

/// A wire decimal: a string that is a floating-point literal by
/// construction.
#[derive(Debug, PartialEq, Eq)]
pub struct DecimalString {
    text: String,
}

impl Clone for DecimalString {
    fn clone(&self) -> (r: Self)
        ensures
            r@ == self@,
    {
        proof {
            use_type_invariant(self);
        }
        DecimalString { text: self.text.clone() }
    }
}

impl View for DecimalString {
    type V = Seq<char>;

    closed spec fn view(&self) -> Seq<char> {
        self.text@
    }
}

impl DecimalString {
    #[verifier::type_invariant]
    spec fn type_wf(self) -> bool {
        is_float_literal(self.text@)
    }

    /// Accepts a numeric string, or nothing when the text is not a
    /// floating-point literal.
    pub fn new(text: String) -> (r: Option<DecimalString>)
        ensures
            match r {
                Some(d) => d@ == text@ && is_float_literal(text@),
                None => !is_float_literal(text@),
            },
    {
        if is_float_literal_exec(text.as_str()) {
            Some(DecimalString { text })
        } else {
            None
        }
    }

    /// The text itself, always a floating-point literal.
    pub fn as_str(&self) -> (r: &str)
        ensures
            r@ == self@,
            is_float_literal(self@),
    {
        proof {
            use_type_invariant(self);
        }
        self.text.as_str()
    }
}

} // verus!
