//! Checked arithmetic on balances: every change of a balance goes through
//! these, so that no balance ever wraps.

use crate::error::LedgerError;
use vstd::prelude::*;

verus! {

/// The sum `a + b`, or `Overflow` exactly when it exceeds `u64::MAX`.
pub fn checked_add(a: u64, b: u64) -> (r: Result<u64, LedgerError>)
    ensures
        r is Err <==> a + b > u64::MAX,
        r is Ok ==> r->Ok_0 == a + b,
        r is Err ==> r->Err_0 == LedgerError::Overflow,
{
    match a.checked_add(b) {
        Some(sum) => Ok(sum),
        None => Err(LedgerError::Overflow),
    }
}

/// The difference `a - b`, or `Underflow` exactly when `b` exceeds `a`.
pub fn checked_sub(a: u64, b: u64) -> (r: Result<u64, LedgerError>)
    ensures
        r is Err <==> a < b,
        r is Ok ==> r->Ok_0 == a - b,
        r is Err ==> r->Err_0 == LedgerError::Underflow,
{
    match a.checked_sub(b) {
        Some(difference) => Ok(difference),
        None => Err(LedgerError::Underflow),
    }
}

/// The product `a * b`, or `Overflow` exactly when it exceeds `u64::MAX`.
pub fn checked_mul(a: u64, b: u64) -> (r: Result<u64, LedgerError>)
    ensures
        r is Err <==> a * b > u64::MAX,
        r is Ok ==> r->Ok_0 == a * b,
        r is Err ==> r->Err_0 == LedgerError::Overflow,
{
    match a.checked_mul(b) {
        Some(product) => Ok(product),
        None => Err(LedgerError::Overflow),
    }
}

/// What a `u64` holds after an unchecked operation whose true result is
/// `value`: the result reduced into the range of the type.
pub open spec fn wrapped(value: int) -> u64 {
    (value % 0x1_0000_0000_0000_0000) as u64
}

/// The sum `a + b` as unchecked addition leaves it: silently reduced where
/// it exceeds `u64::MAX`.
pub fn unchecked_add(a: u64, b: u64) -> (r: u64)
    ensures
        r == wrapped(a + b),
        a + b <= u64::MAX ==> r == a + b,
        a + b > u64::MAX ==> r == a + b - 0x1_0000_0000_0000_0000,
{
    a.wrapping_add(b)
}

/// The difference `a - b` as unchecked subtraction leaves it: silently
/// raised into the range where `b` exceeds `a`.
pub fn unchecked_sub(a: u64, b: u64) -> (r: u64)
    ensures
        r == wrapped(a - b),
        a >= b ==> r == a - b,
        a < b ==> r == a - b + 0x1_0000_0000_0000_0000,
{
    a.wrapping_sub(b)
}

/// The product `a * b` as unchecked multiplication leaves it.
pub fn unchecked_mul(a: u64, b: u64) -> (r: u64)
    ensures
        r == wrapped(a * b),
        a * b <= u64::MAX ==> r == a * b,
{
    assert(a * b >= 0) by (nonlinear_arith)
        requires
            a >= 0,
            b >= 0,
    ;
    a.wrapping_mul(b)
}

} // verus!
