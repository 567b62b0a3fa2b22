//! Numbers written in decimal digits.

use vstd::prelude::*;
use vstd::string::*;
use vstd::utf8::*;

verus! {

/// The ASCII code of `+`.
const PLUS: u8 = 43;

/// The ASCII code of `0`.
const ZERO: u8 = 48;

/// The ASCII code of `9`.
const NINE: u8 = 57;

/// The value of the digit `c`; nothing where `c` is not one of `0` to `9`.
pub open spec fn digit_value(c: char) -> Option<nat> {
    if '0' <= c <= '9' {
        Some((c as u32 - '0' as u32) as nat)
    } else {
        None
    }
}

/// The number that `digits` spells, most significant digit first; nothing
/// where one of them is not a digit. No digits at all spell zero.
pub open spec fn digits_value(digits: Seq<char>) -> Option<nat>
    decreases digits.len(),
{
    if digits.len() == 0 {
        Some(0)
    } else {
        match (digits_value(digits.drop_last()), digit_value(digits.last())) {
            (Some(value), Some(digit)) => Some(10 * value + digit),
            _ => None,
        }
    }
}

/// The digits of `text`: all of it but a leading `+`.
pub open spec fn unsigned_part(text: Seq<char>) -> Seq<char> {
    if text.len() > 0 && text[0] == '+' {
        text.skip(1)
    } else {
        text
    }
}

/// The number that `text` spells: an optional `+`, then at least one digit
/// and nothing but digits. No blank, no `-`, no `_` is taken.
pub open spec fn decimal_value(text: Seq<char>) -> Option<nat> {
    if unsigned_part(text).len() == 0 {
        None
    } else {
        digits_value(unsigned_part(text))
    }
}

/// The number that `text` spells, where it spells one that is not above
/// `max`.
pub open spec fn decimal_up_to(text: Seq<char>, max: u64) -> Option<u64> {
    match decimal_value(text) {
        Some(value) => if value <= max {
            Some(value as u64)
        } else {
            None
        },
        None => None,
    }
}

/// Text that spells a number holds digits only.
pub proof fn digits_only(digits: Seq<char>)
    requires
        digits_value(digits) is Some,
    ensures
        forall|i: int| 0 <= i < digits.len() ==> digit_value(#[trigger] digits[i]) is Some,
    decreases digits.len(),
{
    if digits.len() > 0 {
        let front = digits.drop_last();
        digits_only(front);
        assert forall|i: int| 0 <= i < digits.len() implies digit_value(#[trigger] digits[i])
            is Some by {
            if i < front.len() {
                assert(front[i] == digits[i]);
            }
        }
    }
}

/// The first `k` digits of a number spell a number too, and no greater one.
pub proof fn leading_digits_spell_no_more(digits: Seq<char>, k: int)
    requires
        0 <= k <= digits.len(),
        digits_value(digits) is Some,
    ensures
        digits_value(digits.take(k)) is Some,
        digits_value(digits.take(k))->0 <= digits_value(digits)->0,
    decreases digits.len(),
{
    if k == digits.len() {
        assert(digits.take(k) =~= digits);
    } else {
        leading_digits_spell_no_more(digits.drop_last(), k);
        assert(digits.drop_last().take(k) =~= digits.take(k));
    }
}

/// Text that spells a number is plain ASCII.
pub proof fn decimal_is_ascii(text: Seq<char>)
    requires
        decimal_value(text) is Some,
    ensures
        is_ascii_chars(text),
{
    let digits = unsigned_part(text);
    digits_only(digits);
    assert forall|i: int| 0 <= i < text.len() implies '\0' <= #[trigger] text[i] <= '\u{7f}' by {
        if text[0] == '+' {
            if i > 0 {
                assert(digits[i - 1] == text[i]);
                assert(digit_value(digits[i - 1]) is Some);
            }
        } else {
            assert(digit_value(digits[i]) is Some);
        }
    }
}

/// Reads the number that `text` spells, where it is not above `max`: an
/// optional `+`, then digits only and at least one.
pub fn parse_decimal(text: &str, max: u64) -> (value: Option<u64>)
    ensures
        value == decimal_up_to(text@, max),
{
    if !text.is_ascii() {
        proof {
            if decimal_value(text@) is Some {
                decimal_is_ascii(text@);
            }
        }
        return None;
    }
    // In ASCII text every byte is one character.
    let bytes = text.as_bytes();
    proof {
        is_ascii_chars_encode_utf8(text@);
    }
    let len = bytes.len();
    let start: usize = if len > 0 && bytes[0] == PLUS {
        1
    } else {
        0
    };
    let ghost digits = unsigned_part(text@);
    assert(digits =~= text@.skip(start as int));
    if start == len {
        return None;
    }
    let mut at: usize = start;
    let mut value: u64 = 0;
    while at < len
        invariant
            start <= at <= len,
            len == text@.len(),
            len == bytes@.len(),
            digits == text@.skip(start as int),
            digits == unsigned_part(text@),
            digits.len() > 0,
            digits_value(digits.take(at - start)) == Some(value as nat),
            value <= max,
            forall|i: int| 0 <= i < text@.len() ==> text@[i] as u8 == #[trigger] bytes@[i],
            is_ascii_chars(text@),
        decreases len - at,
    {
        let byte = bytes[at];
        let ghost c: char = text@[at as int];
        assert(c == digits[at - start]);
        assert('\0' <= c <= '\u{7f}');
        assert(byte == c as u32);
        if byte < ZERO || byte > NINE {
            proof {
                if digits_value(digits) is Some {
                    digits_only(digits);
                }
            }
            return None;
        }
        let digit: u64 = (byte - ZERO) as u64;
        assert(digit_value(c) == Some(digit as nat));
        let ghost longer = digits.take(at + 1 - start);
        assert(longer.drop_last() =~= digits.take(at - start));
        assert(digits_value(longer) == Some(10 * (value as nat) + (digit as nat)));
        // Would `10 * value + digit` go above `max`? Then so does the whole.
        if digit > max || value > (max - digit) / 10 {
            proof {
                if digits_value(digits) is Some {
                    leading_digits_spell_no_more(digits, at + 1 - start);
                }
            }
            return None;
        }
        value = value * 10 + digit;
        at += 1;
    }
    assert(digits.take(at - start) =~= digits);
    Some(value)
}

} // verus!
