//! The parser boundary: what each scalar type accepts, and the value that
//! an accepted string stands for.

use vstd::prelude::*;
use crate::value::{ScalarType, Value, ValueView};

verus! {

/// An ASCII decimal digit.
pub open spec fn is_digit(c: char) -> bool {
    '0' <= c && c <= '9'
}

/// The number that a decimal digit stands for.
pub open spec fn digit_value(c: char) -> int {
    c as int - 48
}

/// A non-empty run of decimal digits.
pub open spec fn is_decimal(digits: Seq<char>) -> bool {
    &&& digits.len() > 0
    &&& forall|i: int| 0 <= i < digits.len() ==> is_digit(#[trigger] digits[i])
}

/// The number that a run of decimal digits stands for, leading zeros
/// allowed.
pub open spec fn decimal_value(digits: Seq<char>) -> int
    decreases digits.len(),
{
    if digits.len() == 0 {
        0
    } else {
        decimal_value(digits.drop_last()) * 10 + digit_value(digits.last())
    }
}

/// The number that a run of decimal digits stands for, if it is one.
pub open spec fn decimal_of(digits: Seq<char>) -> Option<int> {
    if is_decimal(digits) {
        Some(decimal_value(digits))
    } else {
        None
    }
}

/// The integer that `s` denotes: decimal digits behind an optional `+` or,
/// where `signed`, an optional `-`. Anything else, white space included,
/// denotes nothing.
pub open spec fn integer_of(s: Seq<char>, signed: bool) -> Option<int> {
    if s.len() > 0 && s[0] == '+' {
        decimal_of(s.drop_first())
    } else if signed && s.len() > 0 && s[0] == '-' {
        match decimal_of(s.drop_first()) {
            Some(n) => Some(-n),
            None => None,
        }
    } else {
        decimal_of(s)
    }
}

/// The integer that `s` denotes, where it lies between `min` and `max`.
pub open spec fn integer_within(s: Seq<char>, min: int, max: int) -> Option<int> {
    match integer_of(s, min < 0) {
        Some(n) if min <= n <= max => Some(n),
        _ => None,
    }
}

/// The truth value that `s` denotes: exactly `true` or `false`.
pub open spec fn bool_of(s: Seq<char>) -> Option<bool> {
    if s == "true"@ {
        Some(true)
    } else if s == "false"@ {
        Some(false)
    } else {
        None
    }
}

/// The value of type `ty` that the raw string `s` parses into, or `None`
/// where the type does not accept it.
pub open spec fn parse_scalar(ty: ScalarType, s: Seq<char>) -> Option<ValueView> {
    match ty {
        ScalarType::Text => Some(ValueView::Text(s)),
        ScalarType::Bool => match bool_of(s) {
            Some(b) => Some(ValueView::Bool(b)),
            None => None,
        },
        ScalarType::U16 => match integer_within(s, 0, 0xffff) {
            Some(n) => Some(ValueView::U16(n as u16)),
            None => None,
        },
        ScalarType::U64 => match integer_within(s, 0, 0xffff_ffff_ffff_ffff) {
            Some(n) => Some(ValueView::U64(n as u64)),
            None => None,
        },
        ScalarType::I64 => match integer_within(
            s,
            -0x8000_0000_0000_0000,
            0x7fff_ffff_ffff_ffff,
        ) {
            Some(n) => Some(ValueView::I64(n as i64)),
            None => None,
        },
    }
}

/// Whether a value is one that type `ty` parses into.
pub open spec fn has_type(v: ValueView, ty: ScalarType) -> bool {
    match ty {
        ScalarType::Text => v is Text,
        ScalarType::Bool => v is Bool,
        ScalarType::U16 => v is U16,
        ScalarType::U64 => v is U64,
        ScalarType::I64 => v is I64,
    }
}

/// The model of an optional value.
pub open spec fn option_view(v: Option<Value>) -> Option<ValueView> {
    match v {
        Some(v) => Some(v@),
        None => None,
    }
}

/// Calls `str::parse::<bool>`. The standard library accepts the two strings
/// `true` and `false` and nothing else.
#[verifier::external_body]
fn parse_bool(raw: &str) -> (r: Option<bool>)
    ensures
        r == bool_of(raw@),
{
    raw.parse::<bool>().ok()
}

/// Calls `str::parse::<u16>`. The standard library accepts an optional `+`
/// followed by decimal digits only, and rejects a number that does not fit.
#[verifier::external_body]
fn parse_u16(raw: &str) -> (r: Option<u16>)
    ensures
        r == match integer_within(raw@, 0, 0xffff) {
            Some(n) => Some(n as u16),
            None => None,
        },
{
    raw.parse::<u16>().ok()
}

/// Calls `str::parse::<u64>`. The standard library accepts an optional `+`
/// followed by decimal digits only, and rejects a number that does not fit.
#[verifier::external_body]
fn parse_u64(raw: &str) -> (r: Option<u64>)
    ensures
        r == match integer_within(raw@, 0, 0xffff_ffff_ffff_ffff) {
            Some(n) => Some(n as u64),
            None => None,
        },
{
    raw.parse::<u64>().ok()
}

/// Calls `str::parse::<i64>`. The standard library accepts an optional `+`
/// or `-` followed by decimal digits only, and rejects a number that does
/// not fit.
#[verifier::external_body]
fn parse_i64(raw: &str) -> (r: Option<i64>)
    ensures
        r == match integer_within(raw@, -0x8000_0000_0000_0000, 0x7fff_ffff_ffff_ffff) {
            Some(n) => Some(n as i64),
            None => None,
        },
{
    raw.parse::<i64>().ok()
}

/// Parses `raw` into a value of type `ty`.
pub fn parse_value(ty: ScalarType, raw: &str) -> (r: Option<Value>)
    ensures
        option_view(r) == parse_scalar(ty, raw@),
{
    match ty {
        ScalarType::Text => Some(Value::Text(raw.to_owned())),
        ScalarType::Bool => match parse_bool(raw) {
            Some(b) => Some(Value::Bool(b)),
            None => None,
        },
        ScalarType::U16 => match parse_u16(raw) {
            Some(n) => Some(Value::U16(n)),
            None => None,
        },
        ScalarType::U64 => match parse_u64(raw) {
            Some(n) => Some(Value::U64(n)),
            None => None,
        },
        ScalarType::I64 => match parse_i64(raw) {
            Some(n) => Some(Value::I64(n)),
            None => None,
        },
    }
}

} // verus!
