//! Overflow-checked arithmetic over unsigned 64-bit quantities.
//!
//! Every cost and total computation of the sale routes through these
//! guards: each either returns the exact mathematical result or reports
//! that the result would leave the 64-bit domain, and never wraps.

use vstd::prelude::*;

verus! {

/// Checked multiply: the exact product, or `None` when it would not fit.
pub fn checked_mul(a: u64, b: u64) -> (r: Option<u64>)
    ensures
        a * b <= u64::MAX ==> r == Some((a * b) as u64),
        a * b > u64::MAX ==> r is None,
{
    a.checked_mul(b)
}

/// Checked add: the exact sum, or `None` when it would not fit.
pub fn checked_add(a: u64, b: u64) -> (r: Option<u64>)
    ensures
        a + b <= u64::MAX ==> r == Some((a + b) as u64),
        a + b > u64::MAX ==> r is None,
{
    a.checked_add(b)
}

/// Checked divide: the truncated quotient, or `None` for a zero divisor.
pub fn checked_div(a: u64, b: u64) -> (r: Option<u64>)
    ensures
        b != 0 ==> r == Some(a / b),
        b == 0 ==> r is None,
{
    a.checked_div(b)
}

} // verus!
