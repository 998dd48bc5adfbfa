//! Text handling shared by the rest of the library: trimming, and the JSON
//! form of a string.

use vstd::prelude::*;
use vstd::string::*;

verus! {

/// Whether a character is white space: one of the code points with the
/// Unicode property `White_Space`.
pub open spec fn is_whitespace(c: char) -> bool {
    let code = c as u32;
    ||| 0x0009 <= code <= 0x000D
    ||| code == 0x0020
    ||| code == 0x0085
    ||| code == 0x00A0
    ||| code == 0x1680
    ||| 0x2000 <= code <= 0x200A
    ||| code == 0x2028
    ||| code == 0x2029
    ||| code == 0x202F
    ||| code == 0x205F
    ||| code == 0x3000
}

/// The JSON string literal for a text, quotes included, as `serde_json`
/// writes it.
pub uninterp spec fn json_quoted(text: Seq<char>) -> Seq<char>;

/// The index of the first character at or after `from` that is not white
/// space, or the length of the text if there is none.
pub open spec fn skip_whitespace(text: Seq<char>, from: int) -> int
    decreases text.len() - from,
{
    if 0 <= from < text.len() && is_whitespace(text[from]) {
        skip_whitespace(text, from + 1)
    } else {
        from
    }
}

/// The index just behind the last character before `to` that is not white
/// space, looking no further back than `floor`.
pub open spec fn drop_whitespace(text: Seq<char>, floor: int, to: int) -> int
    decreases to - floor,
{
    if floor < to <= text.len() && is_whitespace(text[to - 1]) {
        drop_whitespace(text, floor, to - 1)
    } else {
        to
    }
}

/// A text without the white space at its two ends.
pub open spec fn trimmed(text: Seq<char>) -> Seq<char> {
    let start = skip_whitespace(text, 0);
    let end = drop_whitespace(text, start, text.len() as int);
    text.subrange(start, end)
}

/// Whether a text has no white space at either end.
pub open spec fn is_trimmed(text: Seq<char>) -> bool {
    text.len() > 0 ==> !is_whitespace(text[0]) && !is_whitespace(text.last())
}

/// The bounds that [`trimmed`] cuts at lie inside the text, in order.
pub proof fn lemma_trim_bounds(text: Seq<char>, from: int, floor: int, to: int)
    requires
        0 <= from <= text.len(),
        0 <= floor <= to <= text.len(),
    ensures
        from <= skip_whitespace(text, from) <= text.len(),
        floor <= drop_whitespace(text, floor, to) <= to,
        skip_whitespace(text, from) < text.len() ==> !is_whitespace(
            text[skip_whitespace(text, from)],
        ),
        floor < drop_whitespace(text, floor, to) ==> !is_whitespace(
            text[drop_whitespace(text, floor, to) - 1],
        ),
    decreases text.len() - from, to - floor,
{
    if from < text.len() && is_whitespace(text[from]) {
        lemma_trim_bounds(text, from + 1, floor, floor);
    }
    if floor < to && is_whitespace(text[to - 1]) {
        lemma_trim_bounds(text, text.len() as int, floor, to - 1);
    }
}

/// Trimming leaves no white space at either end, and a text that had none
/// comes back unchanged.
pub proof fn lemma_trimmed(text: Seq<char>)
    ensures
        is_trimmed(trimmed(text)),
        trimmed(text).len() <= text.len(),
        is_trimmed(text) ==> trimmed(text) == text,
{
    let start = skip_whitespace(text, 0);
    lemma_trim_bounds(text, 0, 0, 0);
    lemma_trim_bounds(text, 0, start, text.len() as int);
    if is_trimmed(text) {
        assert(trimmed(text) =~= text);
    }
}

/// `char::is_whitespace`: whether the character has the Unicode property
/// `White_Space`, whose code points [`is_whitespace`] lists.
#[verifier::external_body]
pub(crate) fn char_is_whitespace(c: char) -> (white: bool)
    ensures
        white == is_whitespace(c),
{
    c.is_whitespace()
}

/// The JSON string literal for `text`: `serde_json` displays the JSON value
/// that holds the string.
#[verifier::external_body]
pub(crate) fn json_string(text: &str) -> (quoted: String)
    ensures
        quoted@ == json_quoted(text@),
{
    serde_json::Value::String(text.to_owned()).to_string()
}

/// Removes the white space at both ends of a text.
pub fn trim(text: &str) -> (kept: String)
    ensures
        kept@ == trimmed(text@),
{
    let total = text.unicode_len();
    let mut start: usize = 0;
    while start < total && char_is_whitespace(text.get_char(start))
        invariant
            total == text@.len(),
            start <= total,
            skip_whitespace(text@, start as int) == skip_whitespace(text@, 0),
        decreases total - start,
    {
        start = start + 1;
    }
    let mut end: usize = total;
    while start < end && char_is_whitespace(text.get_char(end - 1))
        invariant
            total == text@.len(),
            start <= end <= total,
            drop_whitespace(text@, start as int, end as int) == drop_whitespace(
                text@,
                start as int,
                total as int,
            ),
        decreases end - start,
    {
        end = end - 1;
    }
    text.substring_char(start, end).to_owned()
}

/// The value of a decimal digit, or `None` for any other character.
pub open spec fn digit_value(c: char) -> Option<nat> {
    if '0' <= c <= '9' {
        Some((c as u32 - '0' as u32) as nat)
    } else {
        None
    }
}

/// The number that a run of decimal digits writes, or `None` if one of the
/// characters is no digit. The empty run writes zero.
pub open spec fn decimal_value(digits: Seq<char>) -> Option<nat>
    decreases digits.len(),
{
    if digits.len() == 0 {
        Some(0)
    } else {
        match (decimal_value(digits.drop_last()), digit_value(digits.last())) {
            (Some(value), Some(digit)) => Some(10 * value + digit),
            _ => None,
        }
    }
}

/// The digits of a number text: the text without one leading plus sign.
pub open spec fn unsigned_digits(text: Seq<char>) -> Seq<char> {
    if text.len() > 0 && text[0] == '+' {
        text.drop_first()
    } else {
        text
    }
}

/// The number that a text writes in 32 bits: an optional plus sign and then
/// one or more decimal digits, whose value fits. Any other text is no number.
pub open spec fn number_read(text: Seq<char>) -> Option<u32> {
    let digits = unsigned_digits(text);
    if digits.len() == 0 {
        None
    } else {
        match decimal_value(digits) {
            Some(value) => if value <= u32::MAX {
                Some(value as u32)
            } else {
                None
            },
            None => None,
        }
    }
}

/// Where a run of digits writes a number, each of its prefixes writes one
/// too, and no larger one.
pub proof fn lemma_decimal_prefix(digits: Seq<char>, length: int)
    requires
        0 <= length <= digits.len(),
        decimal_value(digits) is Some,
    ensures
        decimal_value(digits.subrange(0, length)) is Some,
        decimal_value(digits.subrange(0, length))->0 <= decimal_value(digits)->0,
    decreases digits.len(),
{
    if length == digits.len() {
        assert(digits.subrange(0, length) =~= digits);
    } else {
        lemma_decimal_prefix(digits.drop_last(), length);
        assert(digits.drop_last().subrange(0, length) =~= digits.subrange(0, length));
    }
}

/// Reads a number of 32 bits from a text.
pub fn parse_number(text: &str) -> (number: Option<u32>)
    ensures
        number == number_read(text@),
{
    let total = text.unicode_len();
    let start: usize = if total > 0 && text.get_char(0) == '+' {
        1
    } else {
        0
    };
    if start == total {
        return None;
    }
    let ghost digits = unsigned_digits(text@);
    assert(digits =~= text@.subrange(start as int, total as int));
    let mut value: u64 = 0;
    let mut next: usize = start;
    assert(digits.subrange(0, 0) =~= Seq::<char>::empty());
    while next < total
        invariant
            start <= next <= total,
            total == text@.len(),
            digits == text@.subrange(start as int, total as int),
            digits == unsigned_digits(text@),
            digits.len() > 0,
            decimal_value(digits.subrange(0, next - start)) == Some(value as nat),
            value <= u32::MAX,
        decreases total - next,
    {
        let c = text.get_char(next);
        let ghost prefix = digits.subrange(0, next - start + 1);
        assert(prefix.drop_last() =~= digits.subrange(0, next - start));
        assert(prefix.last() == c);
        if c < '0' || c > '9' {
            proof {
                if decimal_value(digits) is Some {
                    lemma_decimal_prefix(digits, next - start + 1);
                }
            }
            return None;
        }
        let digit = (c as u32 - '0' as u32) as u64;
        value = 10 * value + digit;
        if value > u32::MAX as u64 {
            proof {
                if decimal_value(digits) is Some {
                    lemma_decimal_prefix(digits, next - start + 1);
                }
            }
            return None;
        }
        next = next + 1;
    }
    assert(digits.subrange(0, next - start) =~= digits);
    Some(value as u32)
}

} // verus!
