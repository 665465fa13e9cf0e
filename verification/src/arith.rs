//! Checked arithmetic on balances: every operation either yields the exact
//! mathematical result or reports why that result cannot be represented.
//! Nothing here wraps or saturates.

use vstd::prelude::*;

verus! {

/// Why an arithmetic step could not be carried out exactly.
#[derive(Clone, Copy, Debug, PartialEq, Eq, Structural)]
pub enum ArithmeticError {
    /// The exact result is not a number that fits below the upper bound of
    /// the type. A quotient by zero is reported under this kind as well.
    Overflow,
    /// The exact result lies below the lower bound of the type.
    Underflow,
}

/// `a + b`, or `Overflow` when the sum exceeds `u64::MAX`.
pub fn checked_add(a: u64, b: u64) -> (r: Result<u64, ArithmeticError>)
    ensures
        match r {
            Ok(v) => v == a + b,
            Err(e) => e == ArithmeticError::Overflow && a + b > u64::MAX,
        },
{
    match a.checked_add(b) {
        Some(v) => Ok(v),
        None => Err(ArithmeticError::Overflow),
    }
}

/// `a - b`, or `Underflow` when `b` exceeds `a`.
pub fn checked_sub(a: u64, b: u64) -> (r: Result<u64, ArithmeticError>)
    ensures
        match r {
            Ok(v) => v == a - b,
            Err(e) => e == ArithmeticError::Underflow && a < b,
        },
{
    match a.checked_sub(b) {
        Some(v) => Ok(v),
        None => Err(ArithmeticError::Underflow),
    }
}

/// `a * b`, or `Overflow` when the product exceeds `u64::MAX`.
pub fn checked_mul(a: u64, b: u64) -> (r: Result<u64, ArithmeticError>)
    ensures
        match r {
            Ok(v) => v == a * b,
            Err(e) => e == ArithmeticError::Overflow && a * b > u64::MAX,
        },
{
    match a.checked_mul(b) {
        Some(v) => Ok(v),
        None => Err(ArithmeticError::Overflow),
    }
}

/// The quotient `a / b` rounded down, or `Overflow` when `b` is zero.
pub fn checked_div(a: u64, b: u64) -> (r: Result<u64, ArithmeticError>)
    ensures
        match r {
            Ok(v) => b != 0 && v == a / b,
            Err(e) => e == ArithmeticError::Overflow && b == 0,
        },
{
    match a.checked_div(b) {
        Some(v) => Ok(v),
        None => Err(ArithmeticError::Overflow),
    }
}

/// `a * b / d` rounded down, for a divisor `d` that is not zero. Only the
/// product can fail: the quotient of a `u64` by a positive number fits.
pub open spec fn scaled(a: u64, b: u64, d: u64) -> int {
    (a * b) / (d as int)
}

/// Computes [`scaled`]: multiplies first, then divides, so that no precision
/// is lost before the single rounding step.
pub fn checked_mul_div(a: u64, b: u64, d: u64) -> (r: Result<u64, ArithmeticError>)
    ensures
        match r {
            Ok(v) => d != 0 && a * b <= u64::MAX && v == scaled(a, b, d),
            Err(e) => e == ArithmeticError::Overflow && (d == 0 || a * b > u64::MAX),
        },
{
    match checked_mul(a, b) {
        Ok(product) => checked_div(product, d),
        Err(e) => Err(e),
    }
}

} // verus!
