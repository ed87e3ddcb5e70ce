//! Decimal integers in the text of an option.

use vstd::prelude::*;
use vstd::slice::slice_subrange;

verus! {

/// The byte `+`.
pub const PLUS: u8 = 0x2b;

/// The byte `-`.
pub const MINUS: u8 = 0x2d;

/// The byte `0`.
pub const DIGIT_ZERO: u8 = 0x30;

/// The byte `9`.
pub const DIGIT_NINE: u8 = 0x39;

/// Whether `b` is one of the bytes `0` to `9`.
pub open spec fn is_digit(b: u8) -> bool {
    DIGIT_ZERO <= b <= DIGIT_NINE
}

/// Whether `text` holds nothing but digits.
pub open spec fn all_digits(text: Seq<u8>) -> bool {
    forall|i: int| 0 <= i < text.len() ==> is_digit(#[trigger] text[i])
}

/// The number that a run of digits denotes in base ten; 0 for no digits.
pub open spec fn digits_value(digits: Seq<u8>) -> nat
    decreases digits.len(),
{
    if digits.len() == 0 {
        0
    } else {
        (10 * digits_value(digits.drop_last()) + (digits.last() - DIGIT_ZERO)) as nat
    }
}

/// Whether `text` opens with a sign.
pub open spec fn has_sign(text: Seq<u8>) -> bool {
    text.len() > 0 && (text[0] == PLUS || text[0] == MINUS)
}

/// The integer that `text` denotes, read as `i32`'s `FromStr` reads it: an
/// optional `+` or `-`, then one digit or more and nothing else, the whole
/// within the range of `i32`. `None` for any other text.
pub open spec fn integer_value(text: Seq<u8>) -> Option<int> {
    let digits = if has_sign(text) {
        text.subrange(1, text.len() as int)
    } else {
        text
    };
    let magnitude = digits_value(digits) as int;
    let value = if has_sign(text) && text[0] == MINUS {
        -magnitude
    } else {
        magnitude
    };
    if digits.len() > 0 && all_digits(digits) && i32::MIN <= value <= i32::MAX {
        Some(value)
    } else {
        None
    }
}

/// One more digit multiplies the value by ten and adds the digit.
pub proof fn lemma_digits_value_push(digits: Seq<u8>, digit: u8)
    requires
        is_digit(digit),
    ensures
        digits_value(digits.push(digit)) == 10 * digits_value(digits) + (digit - DIGIT_ZERO),
{
    assert(digits.push(digit).drop_last() =~= digits);
}

/// Reads the magnitude of a run of digits, as far as it stays within
/// `2^31`: `Some(m)` for digits that denote `m <= 2^31`, `None` where a
/// byte is no digit or the number is larger.
fn parse_magnitude(digits: &[u8]) -> (r: Option<u64>)
    ensures
        match r {
            Some(m) => all_digits(digits@) && m == digits_value(digits@) && m <= 0x8000_0000,
            None => !all_digits(digits@) || digits_value(digits@) > 0x8000_0000,
        },
{
    let mut acc: u64 = 0;
    let mut overflow = false;
    let mut i: usize = 0;
    while i < digits.len()
        invariant
            i <= digits.len(),
            all_digits(digits@.take(i as int)),
            !overflow ==> acc == digits_value(digits@.take(i as int)) && acc <= 0x8000_0000,
            overflow ==> digits_value(digits@.take(i as int)) > 0x8000_0000,
        decreases digits.len() - i,
    {
        let b = digits[i];
        if b < DIGIT_ZERO || b > DIGIT_NINE {
            return None;
        }
        proof {
            lemma_digits_value_push(digits@.take(i as int), b);
            assert(digits@.take(i as int).push(b) =~= digits@.take(i + 1));
        }
        if !overflow {
            acc = acc * 10 + (b - DIGIT_ZERO) as u64;
            if acc > 0x8000_0000 {
                overflow = true;
            }
        }
        i += 1;
    }
    proof {
        assert(digits@.take(i as int) =~= digits@);
    }
    if overflow {
        None
    } else {
        Some(acc)
    }
}

/// Reads a decimal integer, as [`integer_value`] defines it.
pub fn parse_integer(text: &[u8]) -> (r: Option<i32>)
    ensures
        match r {
            Some(v) => integer_value(text@) == Some(v as int),
            None => integer_value(text@) is None,
        },
{
    let signed = text.len() > 0 && (text[0] == PLUS || text[0] == MINUS);
    let negative = signed && text[0] == MINUS;
    let digits = if signed {
        slice_subrange(text, 1, text.len())
    } else {
        text
    };
    if digits.len() == 0 {
        return None;
    }
    match parse_magnitude(digits) {
        None => None,
        Some(m) => {
            if negative {
                Some((-(m as i64)) as i32)
            } else if m <= 0x7fff_ffff {
                Some(m as i32)
            } else {
                None
            }
        },
    }
}

} // verus!
