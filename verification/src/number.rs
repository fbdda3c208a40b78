//! Which texts are numbers.
//!
//! A coordinate or a bearing reaches the library as text. The library keeps
//! such a text only where it is a number in the notation that Rust's
//! floating-point types read:
//!
//! ```text
//! Number   ::= Sign? ( Special | Decimal )
//! Special  ::= 'inf' | 'infinity' | 'nan'          (in either case)
//! Decimal  ::= ( Digit+ | Digit+ '.' Digit* | Digit* '.' Digit+ ) Exponent?
//! Exponent ::= ( 'e' | 'E' ) Sign? Digit+
//! Sign     ::= '+' | '-'
//! Digit    ::= '0' ... '9'
//! ```

use vstd::prelude::*;
use vstd::string::*;

verus! {

/// Whether the character is one of the ten decimal digits.
pub open spec fn is_digit(c: char) -> bool {
    '0' <= c && c <= '9'
}

/// Whether the character is a plus or a minus sign.
pub open spec fn is_sign(c: char) -> bool {
    c == '+' || c == '-'
}

/// The number of digits that stand in `s` from position `from` on without a
/// gap.
pub open spec fn digits_from(s: Seq<char>, from: int) -> int
    decreases s.len() - from,
{
    if 0 <= from < s.len() && is_digit(s[from]) {
        1 + digits_from(s, from + 1)
    } else {
        0
    }
}

/// 1 if a sign stands in `s` at position `from`, else 0.
pub open spec fn sign_at(s: Seq<char>, from: int) -> int {
    if 0 <= from < s.len() && is_sign(s[from]) {
        1
    } else {
        0
    }
}

/// 1 if a decimal point stands in `s` at position `from`, else 0.
pub open spec fn point_at(s: Seq<char>, from: int) -> int {
    if 0 <= from < s.len() && s[from] == '.' {
        1
    } else {
        0
    }
}

/// Whether what stands in `s` from `from` to the end is an exponent: the
/// letter e, an optional sign and at least one digit.
pub open spec fn is_exponent_from(s: Seq<char>, from: int) -> bool {
    let digits_start = from + 1 + sign_at(s, from + 1);
    &&& 0 <= from < s.len()
    &&& (s[from] == 'e' || s[from] == 'E')
    &&& digits_from(s, digits_start) >= 1
    &&& digits_start + digits_from(s, digits_start) == s.len()
}

/// Whether what stands in `s` from `from` to the end is a decimal number
/// without sign: digits with at most one point among them, at least one
/// digit in all, and an optional exponent.
pub open spec fn is_decimal_from(s: Seq<char>, from: int) -> bool {
    let whole = digits_from(s, from);
    let point = point_at(s, from + whole);
    let fraction = if point == 1 {
        digits_from(s, from + whole + 1)
    } else {
        0
    };
    let end = from + whole + point + fraction;
    &&& whole + fraction >= 1
    &&& (end == s.len() || is_exponent_from(s, end))
}

/// Whether what stands in `s` from `from` to the end is the given word, each
/// letter in lower or in upper case.
pub open spec fn is_word_from(s: Seq<char>, from: int, lower: Seq<char>, upper: Seq<char>) -> bool {
    &&& s.len() - from == lower.len()
    &&& forall|i: int|
        0 <= i < lower.len() ==> s[from + i] == lower[i] || s[from + i] == #[trigger] upper[i]
}

/// Whether what stands in `s` from `from` to the end is one of the three
/// words for a value that is no finite number.
pub open spec fn is_special_from(s: Seq<char>, from: int) -> bool {
    ||| is_word_from(s, from, "inf"@, "INF"@)
    ||| is_word_from(s, from, "infinity"@, "INFINITY"@)
    ||| is_word_from(s, from, "nan"@, "NAN"@)
}

/// Whether the text is a number: an optional sign, then a decimal number or
/// one of the three special words, and nothing before or after.
pub open spec fn is_number_text(s: Seq<char>) -> bool {
    let start = sign_at(s, 0);
    is_decimal_from(s, start) || is_special_from(s, start)
}

/// Counts the digits that stand in `text` from position `from` on.
fn count_digits(text: &str, len: usize, from: usize) -> (count: usize)
    requires
        len == text@.len(),
        from <= len,
    ensures
        count == digits_from(text@, from as int),
        from + count <= len,
{
    let mut at: usize = from;
    let mut stopped = false;
    while at < len && !stopped
        invariant
            len == text@.len(),
            from <= at <= len,
            digits_from(text@, from as int) == (at - from) + digits_from(text@, at as int),
            stopped ==> digits_from(text@, at as int) == 0,
        decreases len - at + if stopped { 0int } else { 1int },
    {
        let c = text.get_char(at);
        if '0' <= c && c <= '9' {
            at = at + 1;
        } else {
            stopped = true;
        }
    }
    at - from
}

/// Whether what stands in `text` from `from` to the end is the given word,
/// each letter in lower or in upper case.
fn matches_word(text: &str, len: usize, from: usize, lower: &str, upper: &str) -> (yes: bool)
    requires
        len == text@.len(),
        from <= len,
        lower@.len() == upper@.len(),
    ensures
        yes == is_word_from(text@, from as int, lower@, upper@),
{
    let n: usize = lower.unicode_len();
    if len - from != n {
        return false;
    }
    let mut i: usize = 0;
    while i < n
        invariant
            len == text@.len(),
            n == lower@.len(),
            n == upper@.len(),
            len - from == n,
            i <= n,
            forall|k: int|
                0 <= k < i ==> text@[from + k] == lower@[k] || text@[from + k] == #[trigger] upper@[k],
        decreases n - i,
    {
        let c = text.get_char(from + i);
        if c != lower.get_char(i) && c != upper.get_char(i) {
            assert(!(text@[from + i] == lower@[i as int] || text@[from + i] == upper@[i as int]));
            return false;
        }
        i = i + 1;
    }
    true
}

/// Whether what stands in `text` from `from` to the end is an exponent.
fn is_exponent(text: &str, len: usize, from: usize) -> (yes: bool)
    requires
        len == text@.len(),
        from < len,
    ensures
        yes == is_exponent_from(text@, from as int),
{
    let letter = text.get_char(from);
    if letter != 'e' && letter != 'E' {
        return false;
    }
    let mut digits_start: usize = from + 1;
    if digits_start < len {
        let c = text.get_char(digits_start);
        if c == '+' || c == '-' {
            digits_start = digits_start + 1;
        }
    }
    let digits: usize = count_digits(text, len, digits_start);
    digits >= 1 && digits_start + digits == len
}

/// Whether what stands in `text` from `from` to the end is a decimal number
/// without sign.
fn is_decimal(text: &str, len: usize, from: usize) -> (yes: bool)
    requires
        len == text@.len(),
        from <= len,
    ensures
        yes == is_decimal_from(text@, from as int),
{
    let whole: usize = count_digits(text, len, from);
    let mut end: usize = from + whole;
    let mut fraction: usize = 0;
    if end < len && text.get_char(end) == '.' {
        fraction = count_digits(text, len, end + 1);
        end = end + 1 + fraction;
    }
    if whole + fraction < 1 {
        return false;
    }
    if end == len {
        return true;
    }
    is_exponent(text, len, end)
}

/// Whether the text is a number.
pub fn is_number(text: &str) -> (yes: bool)
    ensures
        yes == is_number_text(text@),
{
    let len: usize = text.unicode_len();
    let mut start: usize = 0;
    if len > 0 {
        let c = text.get_char(0);
        if c == '+' || c == '-' {
            start = 1;
        }
    }
    if is_decimal(text, len, start) {
        return true;
    }
    proof {
        reveal_strlit("inf");
        reveal_strlit("INF");
        reveal_strlit("infinity");
        reveal_strlit("INFINITY");
        reveal_strlit("nan");
        reveal_strlit("NAN");
    }
    matches_word(text, len, start, "inf", "INF") || matches_word(
        text,
        len,
        start,
        "infinity",
        "INFINITY",
    ) || matches_word(text, len, start, "nan", "NAN")
}

} // verus!
