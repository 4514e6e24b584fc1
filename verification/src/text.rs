//! Trimming text and reading it as a signed integer.
//!
//! Text is modelled as its sequence of characters. `trimmed` says what is left
//! once the whitespace at both ends is gone, `parsed` what a piece of text is
//! as a 32-bit signed integer, and the executable functions are proved to
//! compute exactly these.

use vstd::prelude::*;
use crate::error::StepError;

verus! {

/// Whether `c` is one of the characters with the Unicode property `White_Space`.
pub open spec fn is_whitespace(c: char) -> bool {
    ||| '\u{9}' <= c <= '\u{D}'
    ||| c == ' '
    ||| c == '\u{85}'
    ||| c == '\u{A0}'
    ||| c == '\u{1680}'
    ||| '\u{2000}' <= c <= '\u{200A}'
    ||| c == '\u{2028}'
    ||| c == '\u{2029}'
    ||| c == '\u{202F}'
    ||| c == '\u{205F}'
    ||| c == '\u{3000}'
}

/// `s` without the whitespace it begins with.
pub open spec fn trim_start(s: Seq<char>) -> Seq<char>
    decreases s.len(),
{
    if s.len() > 0 && is_whitespace(s.first()) {
        trim_start(s.drop_first())
    } else {
        s
    }
}

/// `s` without the whitespace it ends with.
pub open spec fn trim_end(s: Seq<char>) -> Seq<char>
    decreases s.len(),
{
    if s.len() > 0 && is_whitespace(s.last()) {
        trim_end(s.drop_last())
    } else {
        s
    }
}

/// `s` without the whitespace at either end.
pub open spec fn trimmed(s: Seq<char>) -> Seq<char> {
    trim_end(trim_start(s))
}

/// Whether `c` is one of `0` to `9`.
pub open spec fn is_digit(c: char) -> bool {
    '0' <= c <= '9'
}

/// The number that the digit `c` stands for.
pub open spec fn digit_value(c: char) -> int {
    c as int - '0' as int
}

/// The number written by `digits` in base ten; zero for no digits at all.
pub open spec fn decimal_value(digits: Seq<char>) -> int
    decreases digits.len(),
{
    if digits.len() == 0 {
        0
    } else {
        10 * decimal_value(digits.drop_last()) + digit_value(digits.last())
    }
}

/// Whether `s` begins with `+` or `-`.
pub open spec fn has_sign(s: Seq<char>) -> bool {
    s.len() > 0 && (s[0] == '+' || s[0] == '-')
}

/// What follows the sign of `s`, or all of `s` when it has none.
pub open spec fn digits_of(s: Seq<char>) -> Seq<char> {
    if has_sign(s) {
        s.drop_first()
    } else {
        s
    }
}

/// Whether every character of `s` is a digit.
pub open spec fn all_digits(s: Seq<char>) -> bool {
    forall|i: int| 0 <= i < s.len() ==> is_digit(#[trigger] s[i])
}

/// An integer literal is an optional sign followed by one digit or more, and
/// nothing else.
pub open spec fn is_integer_literal(s: Seq<char>) -> bool {
    digits_of(s).len() > 0 && all_digits(digits_of(s))
}

/// The number that the literal `s` writes.
pub open spec fn literal_value(s: Seq<char>) -> int {
    if has_sign(s) && s[0] == '-' {
        -decimal_value(digits_of(s))
    } else {
        decimal_value(digits_of(s))
    }
}

/// What `s` is as a 32-bit signed integer: its value where `s` is an integer
/// literal whose value fits, and `ParseError` for every other text.
pub open spec fn parsed(s: Seq<char>) -> Result<i32, StepError> {
    if is_integer_literal(s) && i32::MIN <= literal_value(s) <= i32::MAX {
        Ok(literal_value(s) as i32)
    } else {
        Err(StepError::ParseError)
    }
}

/// A number written with digits alone is never negative.
pub proof fn lemma_decimal_value_nonnegative(digits: Seq<char>)
    requires
        all_digits(digits),
    ensures
        decimal_value(digits) >= 0,
    decreases digits.len(),
{
    if digits.len() > 0 {
        lemma_decimal_value_nonnegative(digits.drop_last());
    }
}

/// Writing more digits behind a number does not make it smaller.
pub proof fn lemma_decimal_value_grows(digits: Seq<char>, k: int)
    requires
        all_digits(digits),
        0 <= k <= digits.len(),
    ensures
        decimal_value(digits.take(k)) <= decimal_value(digits),
    decreases digits.len() - k,
{
    if k == digits.len() {
        assert(digits.take(k) =~= digits);
    } else {
        let front = digits.drop_last();
        assert(front.take(k) =~= digits.take(k));
        lemma_decimal_value_grows(front, k);
        lemma_decimal_value_nonnegative(front.take(k));
        lemma_decimal_value_nonnegative(front);
    }
}

/// Text that neither begins nor ends with whitespace is its own trimmed part.
pub proof fn lemma_trimmed_keeps_bare_text(s: Seq<char>)
    requires
        s.len() > 0 ==> !is_whitespace(s.first()) && !is_whitespace(s.last()),
    ensures
        trimmed(s) == s,
{
}

/// One more digit behind a number makes ten times the number, plus the digit.
pub proof fn lemma_decimal_value_push(digits: Seq<char>, c: char)
    ensures
        decimal_value(digits.push(c)) == 10 * decimal_value(digits) + digit_value(c),
{
    assert(digits.push(c).drop_last() =~= digits);
}

/// Whether `c` is whitespace.
pub fn is_whitespace_char(c: char) -> (b: bool)
    ensures
        b == is_whitespace(c),
{
    ('\u{9}' <= c && c <= '\u{D}') || c == ' ' || c == '\u{85}' || c == '\u{A0}' || c
        == '\u{1680}' || ('\u{2000}' <= c && c <= '\u{200A}') || c == '\u{2028}' || c
        == '\u{2029}' || c == '\u{202F}' || c == '\u{205F}' || c == '\u{3000}'
}

/// The characters of `text`, in order.
fn to_chars(text: &str) -> (chars: Vec<char>)
    ensures
        chars@ == text@,
{
    let mut chars: Vec<char> = Vec::new();
    for c in it: text.chars()
        invariant
            it.seq() == text@,
            chars@ == text@.take(it.index() as int),
    {
        chars.push(c);
    }
    chars
}

/// The positions between which `chars` holds its trimmed part.
fn trim_bounds(chars: &Vec<char>) -> (bounds: (usize, usize))
    ensures
        bounds.0 <= bounds.1 <= chars@.len(),
        chars@.subrange(bounds.0 as int, bounds.1 as int) == trimmed(chars@),
{
    let len = chars.len();
    let mut start: usize = 0;
    assert(chars@.subrange(0, len as int) =~= chars@);
    while start < len && is_whitespace_char(chars[start])
        invariant
            len == chars@.len(),
            start <= len,
            trim_start(chars@) == trim_start(chars@.subrange(start as int, len as int)),
        decreases len - start,
    {
        assert(chars@.subrange(start as int, len as int).drop_first() =~= chars@.subrange(
            start + 1,
            len as int,
        ));
        start += 1;
    }
    let mut end: usize = len;
    while end > start && is_whitespace_char(chars[end - 1])
        invariant
            len == chars@.len(),
            start <= end <= len,
            trimmed(chars@) == trim_end(chars@.subrange(start as int, end as int)),
        decreases end - start,
    {
        assert(chars@.subrange(start as int, end as int).drop_last() =~= chars@.subrange(
            start as int,
            end - 1,
        ));
        end -= 1;
    }
    (start, end)
}

/// `text` without the whitespace at either end, as a part of `text` itself.
pub fn trim(text: &str) -> (rest: &str)
    ensures
        rest@ == trimmed(text@),
{
    let chars = to_chars(text);
    let (start, end) = trim_bounds(&chars);
    text.substring_char(start, end)
}

/// Reads the characters of `chars` between `start` and `end` as a 32-bit
/// signed integer.
fn parse_range(chars: &Vec<char>, start: usize, end: usize) -> (r: Result<i32, StepError>)
    requires
        start <= end <= chars@.len(),
    ensures
        r == parsed(chars@.subrange(start as int, end as int)),
{
    let ghost s = chars@.subrange(start as int, end as int);
    if start == end {
        return Err(StepError::ParseError);
    }
    let negative = chars[start] == '-';
    let signed = negative || chars[start] == '+';
    let first: usize = if signed {
        start + 1
    } else {
        start
    };
    let ghost digits = chars@.subrange(first as int, end as int);
    assert(digits =~= digits_of(s));
    if first == end {
        return Err(StepError::ParseError);
    }
    let mut value: i64 = 0;
    let mut i: usize = first;
    assert(digits.take(0) =~= Seq::<char>::empty());
    while i < end
        invariant
            start <= first <= i <= end <= chars@.len(),
            digits == chars@.subrange(first as int, end as int),
            digits == digits_of(chars@.subrange(start as int, end as int)),
            all_digits(digits.take(i - first)),
            value == decimal_value(digits.take(i - first)),
            0 <= value <= 0x8000_0000,
        decreases end - i,
    {
        let c = chars[i];
        assert(c == digits[i - first]);
        if !('0' <= c && c <= '9') {
            return Err(StepError::ParseError);
        }
        let ghost longer = digits.take(i - first + 1);
        assert(longer.drop_last() =~= digits.take(i - first));
        assert(longer.last() == c);
        let digit: i64 = (c as u32 - '0' as u32) as i64;
        value = value * 10 + digit;
        if value > 0x8000_0000 {
            proof {
                if all_digits(digits) {
                    lemma_decimal_value_grows(digits, i - first + 1);
                }
            }
            return Err(StepError::ParseError);
        }
        i += 1;
    }
    assert(digits.take(i - first) =~= digits);
    if negative {
        Ok((-value) as i32)
    } else if value > 0x7FFF_FFFF {
        Err(StepError::ParseError)
    } else {
        Ok(value as i32)
    }
}

/// Reads `text` as a 32-bit signed integer: an optional sign, then digits.
/// Text that is not of this form, or whose value does not fit, is a
/// `ParseError`.
pub fn parse_i32(text: &str) -> (r: Result<i32, StepError>)
    ensures
        r == parsed(text@),
{
    let chars = to_chars(text);
    assert(chars@.subrange(0, chars@.len() as int) =~= chars@);
    parse_range(&chars, 0, chars.len())
}

} // verus!
