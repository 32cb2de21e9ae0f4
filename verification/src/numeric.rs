//! Decimal integers as a text column writes them.
//!
//! A numeric text is an optional sign followed by one or more decimal
//! digits and nothing else: no blanks, no separators, no exponent. A serving
//! count is such a text whose value fits in 32 bits; every other text counts
//! as zero.

use vstd::prelude::*;

verus! {

/// Whether `c` is one of the ten decimal digits.
pub open spec fn is_digit(c: char) -> bool {
    '0' <= c && c <= '9'
}

/// The number that the digit `c` stands for.
pub open spec fn digit_value(c: char) -> int {
    c as int - '0' as int
}

/// Whether `text` holds decimal digits only.
pub open spec fn all_digits(text: Seq<char>) -> bool {
    forall|i: int| 0 <= i < text.len() ==> is_digit(#[trigger] text[i])
}

/// The number that a run of digits writes, most significant digit first.
pub open spec fn decimal_value(digits: Seq<char>) -> int
    decreases digits.len(),
{
    if digits.len() == 0 {
        0
    } else {
        10 * decimal_value(digits.drop_last()) + digit_value(digits.last())
    }
}

/// Whether `text` begins with a sign.
pub open spec fn has_sign(text: Seq<char>) -> bool {
    text.len() > 0 && (text[0] == '-' || text[0] == '+')
}

/// What follows the sign of `text`, or all of it where there is none.
pub open spec fn digits_of(text: Seq<char>) -> Seq<char> {
    if has_sign(text) {
        text.drop_first()
    } else {
        text
    }
}

/// Whether `text` writes an integer: an optional sign, then at least one
/// digit, then nothing.
pub open spec fn is_integer_text(text: Seq<char>) -> bool {
    digits_of(text).len() > 0 && all_digits(digits_of(text))
}

/// The integer that `text` writes, where it writes one.
pub open spec fn integer_value(text: Seq<char>) -> int {
    if text.len() > 0 && text[0] == '-' {
        -decimal_value(digits_of(text))
    } else {
        decimal_value(digits_of(text))
    }
}

/// The 32-bit reading of `text`: its value where it writes an integer
/// that fits, nothing otherwise.
pub open spec fn parsed_i32(text: Seq<char>) -> Option<i32> {
    if is_integer_text(text) && i32::MIN <= integer_value(text) <= i32::MAX {
        Some(integer_value(text) as i32)
    } else {
        None
    }
}

/// The serving count that `text` stands for: its 32-bit reading, or zero
/// where it has none.
pub open spec fn servings_of(text: Seq<char>) -> i32 {
    match parsed_i32(text) {
        Some(value) => value,
        None => 0,
    }
}

/// A run of digits is worth at least as much as any of its prefixes.
proof fn lemma_prefix_value(digits: Seq<char>, k: int)
    requires
        all_digits(digits),
        0 <= k <= digits.len(),
    ensures
        0 <= decimal_value(digits.take(k)) <= decimal_value(digits),
    decreases digits.len() - k,
{
    lemma_value_nonnegative(digits.take(k));
    if k < digits.len() {
        let longer = digits.take(k + 1);
        assert(longer.drop_last() == digits.take(k));
        assert(longer.last() == digits[k]);
        assert(is_digit(digits[k]));
        lemma_prefix_value(digits, k + 1);
    } else {
        assert(digits.take(k) == digits);
    }
}

/// A run of digits never writes a negative number.
proof fn lemma_value_nonnegative(digits: Seq<char>)
    requires
        all_digits(digits),
    ensures
        0 <= decimal_value(digits),
    decreases digits.len(),
{
    if digits.len() > 0 {
        assert(is_digit(digits.last()));
        lemma_value_nonnegative(digits.drop_last());
    }
}

/// Reads `text` as a 32-bit decimal integer.
pub fn parse_i32(text: &str) -> (value: Option<i32>)
    ensures
        value == parsed_i32(text@),
{
    let ghost whole = text@;
    let mut first = true;
    let mut signed = false;
    let mut negative = false;
    let mut any_digit = false;
    let mut magnitude: i64 = 0;
    for c in it: text.chars()
        invariant
            whole == text@,
            it.seq() == whole,
            first <==> it.index() == 0,
            signed <==> it.index() > 0 && has_sign(whole),
            negative <==> it.index() > 0 && whole[0] == '-',
            any_digit <==> it.index() > (if signed { 1int } else { 0int }),
            !first ==> all_digits(
                whole.subrange(if signed { 1int } else { 0int }, it.index() as int),
            ),
            !first ==> magnitude == decimal_value(
                whole.subrange(if signed { 1int } else { 0int }, it.index() as int),
            ),
            first ==> magnitude == 0,
            0 <= magnitude <= 2147483648,
    {
        let ghost at = it.index() as int;
        let ghost start = if has_sign(whole) { 1int } else { 0int };
        assert(whole[at] == c);
        if first && (c == '-' || c == '+') {
            signed = true;
            negative = c == '-';
            assert(whole.subrange(1, 1) =~= Seq::<char>::empty());
        } else if '0' <= c && c <= '9' {
            let digit: i64 = (c as u32 - '0' as u32) as i64;
            let ghost before = whole.subrange(start, at);
            let ghost after = whole.subrange(start, at + 1);
            proof {
                if first {
                    assert(before =~= Seq::<char>::empty());
                }
                assert(after.drop_last() =~= before);
                assert(after.last() == c);
                assert forall|i: int| 0 <= i < after.len() implies is_digit(#[trigger] after[i]) by {
                    if i < before.len() {
                        assert(after[i] == before[i]);
                    }
                }
            }
            magnitude = magnitude * 10 + digit;
            any_digit = true;
            if magnitude > 2147483648 {
                proof {
                    let digits = digits_of(whole);
                    if all_digits(digits) {
                        assert(digits.take(at + 1 - start) =~= after);
                        lemma_prefix_value(digits, at + 1 - start);
                    }
                }
                return None;
            }
        } else {
            proof {
                let digits = digits_of(whole);
                assert(digits[at - start] == c);
                assert(!is_digit(c));
            }
            return None;
        }
        first = false;
    }
    proof {
        let digits = digits_of(whole);
        let start = if has_sign(whole) { 1int } else { 0int };
        assert(digits =~= whole.subrange(start, whole.len() as int));
    }
    if !any_digit {
        None
    } else if negative {
        Some((-magnitude) as i32)
    } else if magnitude <= 2147483647 {
        Some(magnitude as i32)
    } else {
        None
    }
}

/// Reads `text` as a serving count: a text that is no 32-bit decimal
/// integer counts as zero.
pub fn parse_servings(text: &str) -> (count: i32)
    ensures
        count == servings_of(text@),
{
    match parse_i32(text) {
        Some(value) => value,
        None => 0,
    }
}

} // verus!
