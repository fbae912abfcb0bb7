//! The grammar of the seconds of a pause: a decimal number with an optional
//! sign, fraction and exponent, or one of the words `inf`, `infinity` and
//! `nan` in either case.

use vstd::prelude::*;
use vstd::string::*;

verus! {

/// Whether `c` is one of the digits `0` to `9`.
pub open spec fn is_digit(c: char) -> bool {
    '0' <= c <= '9'
}

/// Whether `c` is a sign.
pub open spec fn is_sign(c: char) -> bool {
    c == '+' || c == '-'
}

/// Whether `c` begins an exponent.
pub open spec fn is_exponent_mark(c: char) -> bool {
    c == 'e' || c == 'E'
}

/// Where the run of digits that begins at `i` ends: the position of the
/// first character from `i` on that is no digit, or the length of `s`.
pub open spec fn digit_end(s: Seq<char>, i: int) -> int
    decreases s.len() - i,
{
    if 0 <= i < s.len() && is_digit(s[i]) {
        digit_end(s, i + 1)
    } else {
        i
    }
}

/// Where the text begins behind a sign at `i`, if one stands there.
pub open spec fn past_sign(s: Seq<char>, i: int) -> int {
    if 0 <= i < s.len() && is_sign(s[i]) {
        i + 1
    } else {
        i
    }
}

/// Whether `s` from `i` on is an exponent: its mark, an optional sign and at
/// least one digit, up to the end of `s`.
pub open spec fn is_exponent(s: Seq<char>, i: int) -> bool {
    let d = past_sign(s, i + 1);
    &&& 0 <= i < s.len()
    &&& is_exponent_mark(s[i])
    &&& d < s.len()
    &&& digit_end(s, d) == s.len()
}

/// Whether `s` from `i` on is a decimal number without a sign: digits with
/// at most one point among them, at least one digit before or behind the
/// point, and then nothing or an exponent.
pub open spec fn is_decimal(s: Seq<char>, i: int) -> bool {
    let a = digit_end(s, i);
    let dot = 0 <= a < s.len() && s[a] == '.';
    let b = if dot {
        digit_end(s, a + 1)
    } else {
        a
    };
    let digits = if dot {
        (a - i) + (b - a - 1)
    } else {
        a - i
    };
    digits >= 1 && (b == s.len() || is_exponent(s, b))
}

/// Whether `s` from `i` on is the word `lower`, each letter in either case;
/// `upper` is the word in capitals.
pub open spec fn is_word(s: Seq<char>, i: int, lower: Seq<char>, upper: Seq<char>) -> bool {
    &&& s.len() - i == lower.len()
    &&& forall|j: int|
        0 <= j < lower.len() ==> s[i + j] == #[trigger] lower[j] || s[i + j] == upper[j]
}

/// Whether `s` spells a number of seconds: an optional sign and then a
/// decimal number or one of the three words.
pub open spec fn is_number(s: Seq<char>) -> bool {
    let i = past_sign(s, 0);
    is_decimal(s, i) || is_word(s, i, "inf"@, "INF"@) || is_word(s, i, "infinity"@, "INFINITY"@)
        || is_word(s, i, "nan"@, "NAN"@)
}

/// Finds where the run of digits that begins at `from` ends.
pub fn digit_run(s: &str, from: usize) -> (to: usize)
    requires
        from <= s@.len(),
    ensures
        to == digit_end(s@, from as int),
        from <= to <= s@.len(),
{
    let n: usize = s.unicode_len();
    let mut i: usize = from;
    while i < n && char_is_digit(s.get_char(i))
        invariant
            from <= i <= n,
            n == s@.len(),
            digit_end(s@, from as int) == digit_end(s@, i as int),
        decreases n - i,
    {
        i += 1;
    }
    i
}

/// Tells whether `c` is a digit.
pub fn char_is_digit(c: char) -> (b: bool)
    ensures
        b == is_digit(c),
{
    '0' <= c && c <= '9'
}

/// Tells whether `s` from `from` on is the word `lower`, each letter in
/// either case.
pub fn word_at(s: &str, from: usize, lower: &str, upper: &str) -> (b: bool)
    requires
        from <= s@.len(),
        lower@.len() == upper@.len(),
    ensures
        b == is_word(s@, from as int, lower@, upper@),
{
    let n: usize = s.unicode_len();
    let m: usize = lower.unicode_len();
    if n - from != m {
        return false;
    }
    let mut j: usize = 0;
    while j < m
        invariant
            0 <= j <= m,
            n == s@.len(),
            m == lower@.len(),
            m == upper@.len(),
            from + m == n,
            forall|k: int|
                0 <= k < j ==> s@[from + k] == #[trigger] lower@[k] || s@[from + k] == upper@[k],
        decreases m - j,
    {
        let c = s.get_char(from + j);
        if c != lower.get_char(j) && c != upper.get_char(j) {
            return false;
        }
        j += 1;
    }
    true
}

/// Tells whether `s` from `from` on is a decimal number without a sign.
pub fn decimal_at(s: &str, from: usize) -> (b: bool)
    requires
        from <= s@.len(),
    ensures
        b == is_decimal(s@, from as int),
{
    let n: usize = s.unicode_len();
    let a: usize = digit_run(s, from);
    let dot: bool = a < n && s.get_char(a) == '.';
    let b: usize = if dot {
        digit_run(s, a + 1)
    } else {
        a
    };
    let digits: usize = if dot {
        (a - from) + (b - a - 1)
    } else {
        a - from
    };
    if digits == 0 {
        return false;
    }
    if b == n {
        return true;
    }
    let mark = s.get_char(b);
    if mark != 'e' && mark != 'E' {
        return false;
    }
    let sign: bool = b + 1 < n && (s.get_char(b + 1) == '+' || s.get_char(b + 1) == '-');
    let d: usize = if sign {
        b + 2
    } else {
        b + 1
    };
    if d >= n {
        return false;
    }
    digit_run(s, d) == n
}

/// Tells whether `s` spells a number of seconds.
pub fn spells_number(s: &str) -> (b: bool)
    ensures
        b == is_number(s@),
{
    let n: usize = s.unicode_len();
    let i: usize = if n > 0 && (s.get_char(0) == '+' || s.get_char(0) == '-') {
        1
    } else {
        0
    };
    proof {
        reveal_strlit("inf");
        reveal_strlit("INF");
        reveal_strlit("infinity");
        reveal_strlit("INFINITY");
        reveal_strlit("nan");
        reveal_strlit("NAN");
    }
    decimal_at(s, i) || word_at(s, i, "inf", "INF") || word_at(s, i, "infinity", "INFINITY")
        || word_at(s, i, "nan", "NAN")
}

} // verus!
