use vstd::prelude::*;

use crate::errors::ErrorCode;

verus! {

/// Overflow-checked multiplication: the exact product when it fits in a
/// `u64`, `ArithmeticOverflow` otherwise.
pub fn checked_mul_u64(a: u64, b: u64) -> (r: Result<u64, ErrorCode>)
    ensures
        a * b <= u64::MAX ==> r == Ok::<u64, ErrorCode>((a * b) as u64),
        a * b > u64::MAX ==> r == Err::<u64, ErrorCode>(ErrorCode::ArithmeticOverflow),
{
    match a.checked_mul(b) {
        Some(v) => Ok(v),
        None => Err(ErrorCode::ArithmeticOverflow),
    }
}

/// Checked division: the truncating quotient when the divisor is nonzero,
/// `ArithmeticOverflow` on division by zero.
pub fn checked_div_u64(a: u64, b: u64) -> (r: Result<u64, ErrorCode>)
    ensures
        b != 0 ==> r == Ok::<u64, ErrorCode>((a / b) as u64),
        b == 0 ==> r == Err::<u64, ErrorCode>(ErrorCode::ArithmeticOverflow),
{
    match a.checked_div(b) {
        Some(v) => Ok(v),
        None => Err(ErrorCode::ArithmeticOverflow),
    }
}

/// Overflow-checked addition: the exact sum when it fits in a `u64`,
/// `ArithmeticOverflow` otherwise.
pub fn checked_add_u64(a: u64, b: u64) -> (r: Result<u64, ErrorCode>)
    ensures
        a + b <= u64::MAX ==> r == Ok::<u64, ErrorCode>((a + b) as u64),
        a + b > u64::MAX ==> r == Err::<u64, ErrorCode>(ErrorCode::ArithmeticOverflow),
{
    match a.checked_add(b) {
        Some(v) => Ok(v),
        None => Err(ErrorCode::ArithmeticOverflow),
    }
}

/// Underflow-checked subtraction: the exact difference when the subtrahend
/// does not exceed the minuend, `ArithmeticOverflow` otherwise.
pub fn checked_sub_u64(a: u64, b: u64) -> (r: Result<u64, ErrorCode>)
    ensures
        b <= a ==> r == Ok::<u64, ErrorCode>((a - b) as u64),
        b > a ==> r == Err::<u64, ErrorCode>(ErrorCode::ArithmeticOverflow),
{
    match a.checked_sub(b) {
        Some(v) => Ok(v),
        None => Err(ErrorCode::ArithmeticOverflow),
    }
}

} // verus!
