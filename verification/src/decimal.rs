//! Signed integers written in base ten, as bytes.
//!
//! The grammar is an optional `+` or `-`, then one or more ASCII digits, and
//! nothing else. The number must fit in an `i64`.

use vstd::prelude::*;

verus! {

/// The byte `-` of ASCII.
pub const MINUS: u8 = 0x2d;

/// The byte `+` of ASCII.
pub const PLUS: u8 = 0x2b;

/// The byte `0` of ASCII. The other digits follow it in order.
pub const DIGIT_ZERO: u8 = 0x30;

/// The byte `9` of ASCII.
pub const DIGIT_NINE: u8 = 0x39;

/// Whether `byte` is one of the ASCII digits `0` to `9`.
pub open spec fn is_digit(byte: u8) -> bool {
    DIGIT_ZERO <= byte <= DIGIT_NINE
}

/// Whether `digits` is a run of one or more ASCII digits.
pub open spec fn is_digits(digits: Seq<u8>) -> bool {
    &&& digits.len() > 0
    &&& forall|i: int| 0 <= i < digits.len() ==> is_digit(#[trigger] digits[i])
}

/// The number that a run of ASCII digits writes in base ten, the last digit
/// counting for one.
pub open spec fn digits_value(digits: Seq<u8>) -> int
    decreases digits.len(),
{
    if digits.len() == 0 {
        0
    } else {
        digits_value(digits.drop_last()) * 10 + (digits.last() - DIGIT_ZERO)
    }
}

/// Whether `text` starts with a minus sign.
pub open spec fn has_minus(text: Seq<u8>) -> bool {
    text.len() > 0 && text[0] == MINUS
}

/// Whether `text` starts with a plus sign.
pub open spec fn has_plus(text: Seq<u8>) -> bool {
    text.len() > 0 && text[0] == PLUS
}

/// What follows the sign, or all of `text` where it has none.
pub open spec fn unsigned_part(text: Seq<u8>) -> Seq<u8> {
    if has_minus(text) || has_plus(text) {
        text.skip(1)
    } else {
        text
    }
}

/// The integer that `text` writes, however large, or `None` where `text` is
/// not an optional sign followed by one or more digits.
pub open spec fn decimal_value(text: Seq<u8>) -> Option<int> {
    let digits = unsigned_part(text);
    if !is_digits(digits) {
        None
    } else if has_minus(text) {
        Some(-digits_value(digits))
    } else {
        Some(digits_value(digits))
    }
}

/// The `i64` that `text` writes: `decimal_value` where it fits, else `None`.
pub open spec fn decimal_i64(text: Seq<u8>) -> Option<i64> {
    match decimal_value(text) {
        Some(value) => if i64::MIN <= value <= i64::MAX {
            Some(value as i64)
        } else {
            None
        },
        None => None,
    }
}

/// Ten to the power `exponent`.
pub open spec fn pow10(exponent: nat) -> nat
    decreases exponent,
{
    if exponent == 0 {
        1
    } else {
        10 * pow10((exponent - 1) as nat)
    }
}

/// A run of `n` digits writes a number below ten to the power `n`.
pub proof fn lemma_digits_value_bound(digits: Seq<u8>)
    requires
        forall|i: int| 0 <= i < digits.len() ==> is_digit(#[trigger] digits[i]),
    ensures
        0 <= digits_value(digits) < pow10(digits.len()),
    decreases digits.len(),
{
    if digits.len() > 0 {
        assert(is_digit(digits.last()));
        lemma_digits_value_bound(digits.drop_last());
    }
}

/// Ten to a larger power is no smaller.
pub proof fn lemma_pow10_grows(low: nat, high: nat)
    requires
        low <= high,
    ensures
        0 < pow10(low) <= pow10(high),
    decreases high,
{
    if high > 0 {
        if low < high {
            lemma_pow10_grows(low, (high - 1) as nat);
        } else {
            lemma_pow10_grows((low - 1) as nat, (high - 1) as nat);
        }
    }
}

/// A run of digits writes no less than any of its prefixes does.
pub proof fn lemma_digits_value_prefix(digits: Seq<u8>, len: int)
    requires
        0 <= len <= digits.len(),
        forall|i: int| 0 <= i < digits.len() ==> is_digit(#[trigger] digits[i]),
    ensures
        0 <= digits_value(digits.take(len)) <= digits_value(digits),
    decreases digits.len() - len,
{
    if len == digits.len() {
        assert(digits.take(len) =~= digits);
        lemma_digits_value_nonnegative(digits);
    } else {
        let shorter = digits.drop_last();
        assert(shorter.take(len) =~= digits.take(len));
        assert(is_digit(digits.last()));
        lemma_digits_value_prefix(shorter, len);
    }
}

/// A run of digits writes a natural number.
pub proof fn lemma_digits_value_nonnegative(digits: Seq<u8>)
    requires
        forall|i: int| 0 <= i < digits.len() ==> is_digit(#[trigger] digits[i]),
    ensures
        0 <= digits_value(digits),
    decreases digits.len(),
{
    if digits.len() > 0 {
        assert(is_digit(digits.last()));
        lemma_digits_value_nonnegative(digits.drop_last());
    }
}

/// In a text that writes an integer every byte after the first is a digit.
pub proof fn lemma_decimal_bytes_are_digits(text: Seq<u8>, at: int)
    requires
        decimal_value(text) is Some,
        1 <= at < text.len(),
    ensures
        is_digit(text[at]),
{
    let digits = unsigned_part(text);
    if has_minus(text) || has_plus(text) {
        assert(digits[at - 1] == text[at]);
    } else {
        assert(digits[at] == text[at]);
    }
}

/// An integer written in `n` bytes lies strictly between minus and plus ten
/// to the power `n`.
pub proof fn lemma_decimal_value_bound(text: Seq<u8>)
    requires
        decimal_value(text) is Some,
    ensures
        -pow10(text.len()) < decimal_value(text)->0 < pow10(text.len()),
{
    let digits = unsigned_part(text);
    lemma_digits_value_bound(digits);
    lemma_pow10_grows(digits.len(), text.len());
}

/// Reads a signed integer in base ten: `Some` with the number where `text` is
/// an optional sign followed by digits that write a number in the range of
/// `i64`, and `None` for every other text.
pub fn parse_i64(text: &[u8]) -> (value: Option<i64>)
    ensures
        value == decimal_i64(text@),
{
    let len: usize = text.len();
    if len == 0 {
        return None;
    }
    let negative: bool = text[0] == MINUS;
    let start: usize = if negative || text[0] == PLUS { 1 } else { 0 };
    let ghost digits = unsigned_part(text@);
    assert(digits =~= text@.skip(start as int));
    if start == len {
        return None;
    }
    let mut total: i64 = 0;
    let mut at: usize = start;
    while at < len
        invariant
            start <= at <= len,
            len == text.len(),
            digits == text@.skip(start as int),
            digits == unsigned_part(text@),
            negative == has_minus(text@),
            forall|i: int| 0 <= i < at - start ==> is_digit(#[trigger] digits[i]),
            negative ==> total == -digits_value(digits.take(at - start)),
            !negative ==> total == digits_value(digits.take(at - start)),
        decreases len - at,
    {
        let byte: u8 = text[at];
        assert(byte == digits[at - start]);
        if byte < DIGIT_ZERO || byte > DIGIT_NINE {
            assert(!is_digit(digits[at - start]));
            return None;
        }
        let digit: i64 = (byte - DIGIT_ZERO) as i64;
        let ghost shorter = digits.take(at - start);
        let ghost longer = digits.take(at - start + 1);
        proof {
            assert(longer.drop_last() =~= shorter);
            assert(longer.last() == byte);
            assert(digits_value(longer) == digits_value(shorter) * 10 + digit);
            if is_digits(digits) {
                lemma_digits_value_prefix(digits, at - start + 1);
            }
        }
        let scaled: i64 = match total.checked_mul(10) {
            Some(scaled) => scaled,
            None => {
                return None;
            },
        };
        let next: Option<i64> = if negative {
            scaled.checked_sub(digit)
        } else {
            scaled.checked_add(digit)
        };
        total = match next {
            Some(next) => next,
            None => {
                return None;
            },
        };
        at = at + 1;
    }
    proof {
        assert(digits.take(at - start) =~= digits);
        assert(is_digits(digits));
    }
    Some(total)
}

} // verus!
