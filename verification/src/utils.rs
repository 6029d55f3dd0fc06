//! Small shared helpers for the serialized-format models.

use vstd::prelude::*;

use crate::error::Error;
use crate::protos::{Dimension, DimensionValue, TensorShapeProto};
use vstd::string::StrSliceExecFns;

verus! {

/// Turns a concrete shape into serialized dimensions, one numeric dimension
/// per axis.
pub fn shape_to_dimensions(shape: &[usize]) -> (r: Vec<Dimension>)
    ensures
        r@.len() == shape@.len(),
        forall|i: int|
            0 <= i < shape@.len() ==> #[trigger] r@[i] == (Dimension {
                value: Some(DimensionValue::DimValue(shape@[i] as i64)),
            }),
{
    let mut out: Vec<Dimension> = Vec::new();
    let mut i: usize = 0;
    while i < shape.len()
        invariant
            i <= shape@.len(),
            out@.len() == i,
            forall|j: int|
                0 <= j < i ==> #[trigger] out@[j] == (Dimension {
                    value: Some(DimensionValue::DimValue(shape@[j] as i64)),
                }),
        decreases shape@.len() - i,
    {
        out.push(Dimension { value: Some(DimensionValue::DimValue(shape[i] as i64)) });
        i = i + 1;
    }
    out
}

/// Turns a concrete shape into a serialized shape.
pub fn shape_to_tensor_shape_proto(shape: &[usize]) -> (r: TensorShapeProto)
    ensures
        r.dim@.len() == shape@.len(),
        forall|i: int|
            0 <= i < shape@.len() ==> #[trigger] r.dim@[i] == (Dimension {
                value: Some(DimensionValue::DimValue(shape@[i] as i64)),
            }),
{
    TensorShapeProto { dim: shape_to_dimensions(shape) }
}

/// Keeps a string only when it is non-empty, as the serialized format uses
/// the empty string for an absent field.
pub fn if_not_empty(s: String) -> (r: Option<String>)
    ensures
        s@.len() == 0 ==> r is None,
        s@.len() > 0 ==> r == Some(s),
{
    if s.as_str().is_empty() {
        None
    } else {
        Some(s)
    }
}

/// The digit portion of a decimal numeral: everything after an optional
/// leading plus sign.
pub open spec fn spec_digits(s: Seq<char>) -> Seq<char> {
    if s.len() > 0 && s[0] == '+' {
        s.drop_first()
    } else {
        s
    }
}

/// Whether a character is a decimal digit.
pub open spec fn is_dec_digit(c: char) -> bool {
    48 <= (c as u32) <= 57
}

/// Whether a string is a decimal numeral: an optional leading plus sign,
/// then one or more digits.
pub open spec fn spec_is_dec_string(s: Seq<char>) -> bool {
    spec_digits(s).len() > 0 && (forall|i: int|
        0 <= i < spec_digits(s).len() ==> is_dec_digit(#[trigger] spec_digits(s)[i]))
}

/// The numeric value of a digit string.
pub open spec fn spec_digits_value(s: Seq<char>) -> int
    decreases s.len(),
{
    if s.len() == 0 {
        0
    } else {
        spec_digits_value(s.drop_last()) * 10 + ((s.last() as u32) - 48)
    }
}

/// The numeric value of a decimal numeral.
pub open spec fn spec_dec_value(s: Seq<char>) -> int {
    spec_digits_value(spec_digits(s))
}

proof fn lemma_digits_value_nonneg(s: Seq<char>)
    requires
        forall|i: int| 0 <= i < s.len() ==> is_dec_digit(#[trigger] s[i]),
    ensures
        spec_digits_value(s) >= 0,
    decreases s.len(),
{
    if s.len() > 0 {
        lemma_digits_value_nonneg(s.drop_last());
    }
}

proof fn lemma_digits_value_prefix(s: Seq<char>, k: int)
    requires
        forall|i: int| 0 <= i < s.len() ==> is_dec_digit(#[trigger] s[i]),
        0 <= k <= s.len(),
    ensures
        spec_digits_value(s.take(k)) <= spec_digits_value(s),
    decreases s.len() - k,
{
    if k < s.len() {
        lemma_digits_value_prefix(s, k + 1);
        assert(s.take(k + 1).drop_last() =~= s.take(k));
        lemma_digits_value_nonneg(s.take(k));
    } else {
        assert(s.take(k) =~= s);
    }
}

/// Parses a decimal numeral, exactly when the text is an optional plus sign
/// followed by one or more digits whose value fits in `usize`.
pub fn parse_usize(s: &str) -> (r: Result<usize, Error>)
    ensures
        r is Ok <==> spec_is_dec_string(s@) && spec_dec_value(s@) <= usize::MAX,
        r matches Ok(v) ==> v == spec_dec_value(s@),
        r matches Err(e) ==> e is Validation,
{
    let n = s.unicode_len();
    let start: usize = if n > 0 && s.get_char(0) == '+' {
        1
    } else {
        0
    };
    if n == start {
        return Err(Error::new_validation("empty numeral".to_owned()));
    }
    let ghost digits = spec_digits(s@);
    proof {
        assert(digits =~= s@.subrange(start as int, n as int));
    }
    let mut acc: usize = 0;
    let mut i: usize = start;
    while i < n
        invariant
            start <= i <= n,
            n == s@.len(),
            start == 0 || start == 1,
            digits == spec_digits(s@),
            digits =~= s@.subrange(start as int, n as int),
            forall|j: int| 0 <= j < i - start ==> is_dec_digit(#[trigger] digits[j]),
            acc == spec_digits_value(digits.take(i - start)),
        decreases n - i,
    {
        let c = s.get_char(i);
        let d = c as u32;
        if d < 48 || d > 57 {
            proof {
                assert(digits[i - start] == s@[i as int]);
                assert(!is_dec_digit(digits[i - start]));
            }
            return Err(Error::new_validation("not a decimal numeral".to_owned()));
        }
        proof {
            assert(digits.take(i - start + 1).drop_last() =~= digits.take(i - start));
            assert(digits.take(i - start + 1).last() == digits[i - start]);
            assert(digits[i - start] == s@[i as int]);
        }
        let step = match acc.checked_mul(10) {
            Some(v) => v,
            None => {
                proof {
                    overflow_exceeds_whole(digits, i - start, d);
                }
                return Err(Error::new_validation("numeral is too large".to_owned()));
            },
        };
        let next = match step.checked_add((d - 48) as usize) {
            Some(v) => v,
            None => {
                proof {
                    overflow_exceeds_whole(digits, i - start, d);
                }
                return Err(Error::new_validation("numeral is too large".to_owned()));
            },
        };
        acc = next;
        i = i + 1;
    }
    proof {
        assert(digits.take(digits.len() as int) =~= digits);
    }
    Ok(acc)
}

/// If the value up to and including one more digit already exceeds
/// `usize::MAX`, the whole numeral's value does too.
proof fn overflow_exceeds_whole(digits: Seq<char>, k: int, d: u32)
    requires
        0 <= k < digits.len(),
        forall|j: int| 0 <= j <= k ==> is_dec_digit(#[trigger] digits[j]),
        (digits[k] as u32) == d,
        spec_digits_value(digits.take(k)) * 10 + (d - 48) > usize::MAX,
    ensures
        !(spec_is_dec_string_digits(digits) && spec_digits_value(digits) <= usize::MAX),
{
    if spec_is_dec_string_digits(digits) {
        lemma_digits_value_prefix(digits, k + 1);
        assert(digits.take(k + 1).drop_last() =~= digits.take(k));
        assert(spec_digits_value(digits.take(k + 1)) == spec_digits_value(digits.take(k)) * 10 + (
        (digits[k] as u32) - 48));
    }
}

/// Whether every character of a digit string is a digit and there is at
/// least one.
pub open spec fn spec_is_dec_string_digits(digits: Seq<char>) -> bool {
    digits.len() > 0 && (forall|i: int| 0 <= i < digits.len() ==> is_dec_digit(#[trigger] digits[i]))
}

} // verus!
