//! Counters that fail where they would wrap.

use vstd::prelude::*;
use crate::errors::ErrorCode;

verus! {

/// The value of `counter` raised by `by`, or `Overflow` where that passes `u64::MAX`.
pub open spec fn incremented(counter: u64, by: u64) -> Result<u64, ErrorCode> {
    if counter + by <= u64::MAX {
        Ok((counter + by) as u64)
    } else {
        Err(ErrorCode::Overflow)
    }
}

/// The value of `counter` lowered by `by`, or `Underflow` where that falls below zero.
pub open spec fn decremented(counter: u64, by: u64) -> Result<u64, ErrorCode> {
    if by <= counter {
        Ok((counter - by) as u64)
    } else {
        Err(ErrorCode::Underflow)
    }
}

/// Raises a counter. The sum is exact: it never wraps and never saturates.
pub fn increment(counter: u64, by: u64) -> (r: Result<u64, ErrorCode>)
    ensures
        r == incremented(counter, by),
{
    match counter.checked_add(by) {
        Some(n) => Ok(n),
        None => Err(ErrorCode::Overflow),
    }
}

/// Lowers a counter. The difference is exact: it never wraps and never saturates.
pub fn decrement(counter: u64, by: u64) -> (r: Result<u64, ErrorCode>)
    ensures
        r == decremented(counter, by),
{
    match counter.checked_sub(by) {
        Some(n) => Ok(n),
        None => Err(ErrorCode::Underflow),
    }
}

} // verus!
