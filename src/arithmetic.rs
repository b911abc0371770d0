use vstd::prelude::*;

verus! {

/// Sum of two numbers; the sum must fit in a `u64`.
pub fn add(left: u64, right: u64) -> (r: u64)
    requires
        left + right <= u64::MAX,
    ensures
        r == left + right,
{
    left + right
}

/// Difference of two numbers; `right` may not exceed `left`.
pub fn sub(left: u64, right: u64) -> (r: u64)
    requires
        right <= left,
    ensures
        r == left - right,
{
    left - right
}

/// Quotient of two numbers, rounded down; `right` may not be zero.
pub fn div(left: u64, right: u64) -> (r: u64)
    requires
        right != 0,
    ensures
        r == left / right,
{
    left / right
}

/// Product of two numbers; the product must fit in a `u64`.
pub fn mul(left: u64, right: u64) -> (r: u64)
    requires
        left * right <= u64::MAX,
    ensures
        r == left * right,
{
    left * right
}

} // verus!
