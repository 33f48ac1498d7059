//! The text of a measurement: which texts denote a number.
//!
//! ```text
//! Number   ::= Sign? ( 'inf' | 'infinity' | 'nan' | Decimal )
//! Decimal  ::= ( Digit+ | Digit+ '.' Digit* | Digit* '.' Digit+ ) Exponent?
//! Exponent ::= ( 'e' | 'E' ) Sign? Digit+
//! Sign     ::= '+' | '-'
//! ```
//!
//! The three words are taken in any mix of upper and lower case. White space
//! is no part of a number.

use vstd::prelude::*;
use vstd::string::StrSliceExecFns;
use vstd::string::StringExecFns;
use crate::model::Measurement;

verus! {

/// Whether `c` is one of the ten decimal digits.
pub open spec fn is_digit(c: char) -> bool {
    0x30 <= c as u32 <= 0x39
}

/// The first index at or after `i` that holds no digit.
pub open spec fn digits_end(s: Seq<char>, i: int) -> int
    decreases s.len() - i,
{
    if 0 <= i < s.len() && is_digit(s[i]) {
        digits_end(s, i + 1)
    } else {
        i
    }
}

/// Whether `c` is the lower-case letter `l` or its upper-case form.
pub open spec fn same_letter(c: char, l: char) -> bool {
    c == l || c as u32 + 0x20 == l as u32
}

/// Whether `s`, from `from` to its end, spells the lower-case word `w` in
/// any mix of upper and lower case.
pub open spec fn spells(s: Seq<char>, from: int, w: Seq<char>) -> bool {
    &&& s.len() - from == w.len()
    &&& forall|k: int| 0 <= k < w.len() ==> same_letter(#[trigger] s[from + k], w[k])
}

/// The length of the sign at `i`: one where a `+` or a `-` stands there.
pub open spec fn sign_len(s: Seq<char>, i: int) -> int {
    if 0 <= i < s.len() && (s[i] == '+' || s[i] == '-') {
        1
    } else {
        0
    }
}

/// Whether `s`, from `from` to its end, is a decimal number: digits with at
/// most one point among them and at least one digit, then possibly an
/// exponent.
pub open spec fn is_decimal(s: Seq<char>, from: int) -> bool {
    let whole_end = digits_end(s, from);
    let has_point = whole_end < s.len() && s[whole_end] == '.';
    let mantissa_end = if has_point {
        digits_end(s, whole_end + 1)
    } else {
        whole_end
    };
    let digits = if has_point {
        mantissa_end - from - 1
    } else {
        mantissa_end - from
    };
    &&& digits > 0
    &&& (mantissa_end == s.len() || {
        let exponent = mantissa_end + 1 + sign_len(s, mantissa_end + 1);
        &&& (s[mantissa_end] == 'e' || s[mantissa_end] == 'E')
        &&& exponent < s.len()
        &&& digits_end(s, exponent) == s.len()
    })
}

/// Whether `s` denotes a number.
pub open spec fn is_number_text(s: Seq<char>) -> bool {
    let from = sign_len(s, 0);
    ||| spells(s, from, seq!['i', 'n', 'f'])
    ||| spells(s, from, seq!['i', 'n', 'f', 'i', 'n', 'i', 't', 'y'])
    ||| spells(s, from, seq!['n', 'a', 'n'])
    ||| is_decimal(s, from)
}

/// Where a run of digits ends.
pub proof fn lemma_digits_end(s: Seq<char>, i: int)
    requires
        0 <= i <= s.len(),
    ensures
        i <= digits_end(s, i) <= s.len(),
        forall|k: int| i <= k < digits_end(s, i) ==> is_digit(#[trigger] s[k]),
        digits_end(s, i) < s.len() ==> !is_digit(s[digits_end(s, i)]),
    decreases s.len() - i,
{
    if i < s.len() && is_digit(s[i]) {
        lemma_digits_end(s, i + 1);
    }
}

/// Whether `c` may stand in a number: a digit, a sign, a point or a letter.
pub open spec fn is_number_char(c: char) -> bool {
    let u = c as u32;
    ||| is_digit(c)
    ||| c == '+'
    ||| c == '-'
    ||| c == '.'
    ||| 0x41 <= u <= 0x5A
    ||| 0x61 <= u <= 0x7A
}

/// A text that spells a word of small letters holds nothing but letters.
proof fn lemma_spelled_letters(s: Seq<char>, from: int, w: Seq<char>)
    requires
        0 <= from <= s.len(),
        spells(s, from, w),
        forall|k: int| 0 <= k < w.len() ==> 0x61 <= #[trigger] w[k] as u32 <= 0x7A,
    ensures
        forall|k: int| from <= k < s.len() ==> is_number_char(#[trigger] s[k]),
{
    assert forall|k: int| from <= k < s.len() implies is_number_char(#[trigger] s[k]) by {
        assert(same_letter(s[from + (k - from)], w[k - from]));
    }
}

/// A text that denotes a number holds nothing but digits, signs, points and
/// letters: no white space, and no tab or line break in particular.
#[verifier::rlimit(40)]
pub proof fn number_text_chars(s: Seq<char>)
    requires
        is_number_text(s),
    ensures
        forall|k: int| 0 <= k < s.len() ==> is_number_char(#[trigger] s[k]),
{
    let from = sign_len(s, 0);
    let inf = seq!['i', 'n', 'f'];
    let infinity = seq!['i', 'n', 'f', 'i', 'n', 'i', 't', 'y'];
    let nan = seq!['n', 'a', 'n'];
    if spells(s, from, inf) {
        lemma_spelled_letters(s, from, inf);
    } else if spells(s, from, infinity) {
        lemma_spelled_letters(s, from, infinity);
    } else if spells(s, from, nan) {
        lemma_spelled_letters(s, from, nan);
    } else {
        lemma_digits_end(s, from);
        let whole_end = digits_end(s, from);
        let has_point = whole_end < s.len() && s[whole_end] == '.';
        if has_point {
            lemma_digits_end(s, whole_end + 1);
        }
        let mantissa_end = if has_point {
            digits_end(s, whole_end + 1)
        } else {
            whole_end
        };
        if mantissa_end < s.len() {
            let exponent = mantissa_end + 1 + sign_len(s, mantissa_end + 1);
            lemma_digits_end(s, exponent);
        }
        assert forall|k: int| 0 <= k < s.len() implies is_number_char(#[trigger] s[k]) by {
            if k < from {
            } else if k < whole_end {
            } else if has_point && k == whole_end {
            } else if k < mantissa_end {
            } else if k == mantissa_end {
            } else {
                let exponent = mantissa_end + 1 + sign_len(s, mantissa_end + 1);
                if k < exponent {
                } else {
                    assert(is_digit(s[k]));
                }
            }
        }
    }
}

/// Whether `c` is one of the ten decimal digits.
pub fn is_digit_char(c: char) -> (r: bool)
    ensures
        r == is_digit(c),
{
    let u: u32 = c as u32;
    0x30 <= u && u <= 0x39
}

/// The first index at or after `i` that holds no digit.
fn scan_digits(s: &str, n: usize, i: usize) -> (j: usize)
    requires
        n == s@.len(),
        i <= n,
    ensures
        j == digits_end(s@, i as int),
        i <= j <= n,
{
    let mut j: usize = i;
    while j < n && is_digit_char(s.get_char(j))
        invariant
            n == s@.len(),
            i <= j <= n,
            digits_end(s@, i as int) == digits_end(s@, j as int),
        decreases n - j,
    {
        j = j + 1;
    }
    j
}

/// Whether `s`, from `from` to its end, spells the word `w`.
fn spells_word(s: &str, n: usize, from: usize, w: &str) -> (r: bool)
    requires
        n == s@.len(),
        from <= n,
    ensures
        r == spells(s@, from as int, w@),
{
    let m: usize = w.unicode_len();
    if n - from != m {
        return false;
    }
    let mut k: usize = 0;
    while k < m
        invariant
            n == s@.len(),
            m == w@.len(),
            from <= n,
            n - from == m,
            0 <= k <= m,
            forall|q: int| 0 <= q < k ==> same_letter(#[trigger] s@[from + q], w@[q]),
        decreases m - k,
    {
        let c = s.get_char(from + k);
        let l = w.get_char(k);
        let cu: u32 = c as u32;
        let lu: u32 = l as u32;
        if !(c == l || (cu <= 0x10FFFF && cu + 0x20 == lu)) {
            assert(!same_letter(s@[from + k], w@[k as int]));
            return false;
        }
        k = k + 1;
    }
    true
}

/// The length of the sign at `i`.
fn scan_sign(s: &str, n: usize, i: usize) -> (r: usize)
    requires
        n == s@.len(),
    ensures
        r == sign_len(s@, i as int),
{
    if i < n {
        let c = s.get_char(i);
        if c == '+' || c == '-' {
            return 1;
        }
    }
    0
}

/// Whether `s` denotes a number.
#[verifier::rlimit(40)]
pub fn is_number(s: &str) -> (r: bool)
    ensures
        r == is_number_text(s@),
{
    let n: usize = s.unicode_len();
    let from: usize = scan_sign(s, n, 0);
    proof {
        reveal_strlit("inf");
        reveal_strlit("infinity");
        reveal_strlit("nan");
        assert("inf"@ =~= seq!['i', 'n', 'f']);
        assert("infinity"@ =~= seq!['i', 'n', 'f', 'i', 'n', 'i', 't', 'y']);
        assert("nan"@ =~= seq!['n', 'a', 'n']);
    }
    if spells_word(s, n, from, "inf") || spells_word(s, n, from, "infinity") || spells_word(
        s,
        n,
        from,
        "nan",
    ) {
        return true;
    }
    let whole_end: usize = scan_digits(s, n, from);
    let has_point: bool = whole_end < n && s.get_char(whole_end) == '.';
    let mantissa_end: usize = if has_point {
        scan_digits(s, n, whole_end + 1)
    } else {
        whole_end
    };
    let digits: usize = if has_point {
        mantissa_end - from - 1
    } else {
        mantissa_end - from
    };
    if digits == 0 {
        return false;
    }
    if mantissa_end == n {
        return true;
    }
    let mark = s.get_char(mantissa_end);
    if !(mark == 'e' || mark == 'E') {
        return false;
    }
    let exponent: usize = mantissa_end + 1 + scan_sign(s, n, mantissa_end + 1);
    if exponent >= n {
        return false;
    }
    scan_digits(s, n, exponent) == n
}

impl Measurement {
    /// Whether the text denotes a number.
    pub open spec fn valid(&self) -> bool {
        is_number_text(self@)
    }

    /// The measurement that `text` denotes, if it denotes a number.
    pub fn parse(text: &str) -> (r: Option<Measurement>)
        ensures
            match r {
                Some(m) => is_number_text(text@) && m@ == text@,
                None => !is_number_text(text@),
            },
    {
        if is_number(text) {
            Some(Measurement { text: String::from_str(text) })
        } else {
            None
        }
    }

    /// The text of the measurement.
    pub fn as_str(&self) -> (s: &str)
        ensures
            s@ == self@,
    {
        self.text.as_str()
    }
}

} // verus!
