//! IEEE 754 binary64 values, held by their 64-bit encoding.
//!
//! An encoding is a sign bit followed by 63 bits of magnitude. Among values
//! that are not NaN, the numeric order is the order of the signed magnitude,
//! with both zeros equal.
use std::cmp::Ordering;
use vstd::prelude::*;

verus! {

/// The sign bit of a binary64 encoding.
pub const SIGN_BIT: u64 = 0x8000_0000_0000_0000;

/// The encoding of positive infinity: the largest magnitude that is no NaN.
pub const INFINITY_BITS: u64 = 0x7ff0_0000_0000_0000;

/// The sign bit is set.
pub open spec fn is_negative(b: u64) -> bool {
    b >= SIGN_BIT
}

/// The encoding without its sign bit.
pub open spec fn magnitude(b: u64) -> int {
    if is_negative(b) {
        b - SIGN_BIT
    } else {
        b as int
    }
}

/// All exponent bits set and a nonzero fraction.
pub open spec fn is_nan_spec(b: u64) -> bool {
    magnitude(b) > INFINITY_BITS
}

/// A value's place in the numeric order: equal ranks are equal numbers, and
/// the two zeros share rank 0. Meaningful where the value is no NaN.
pub open spec fn rank(b: u64) -> int {
    if is_negative(b) {
        -magnitude(b)
    } else {
        magnitude(b)
    }
}

/// How two mathematical integers compare.
pub open spec fn int_order(x: int, y: int) -> Ordering {
    if x < y {
        Ordering::Less
    } else if x == y {
        Ordering::Equal
    } else {
        Ordering::Greater
    }
}

/// What `partial_cmp` gives on two binary64 values.
pub open spec fn compare_spec(a: u64, b: u64) -> Option<Ordering> {
    if is_nan_spec(a) || is_nan_spec(b) {
        None
    } else {
        Some(int_order(rank(a), rank(b)))
    }
}

/// What `==` gives on two binary64 values: false wherever a NaN takes part.
pub open spec fn equal_spec(a: u64, b: u64) -> bool {
    !is_nan_spec(a) && !is_nan_spec(b) && rank(a) == rank(b)
}

/// The smaller of two values, a NaN giving way to the other operand. Of two
/// equal values the first is kept.
pub open spec fn minimum_spec(a: u64, b: u64) -> u64 {
    if is_nan_spec(a) {
        b
    } else if is_nan_spec(b) {
        a
    } else if rank(b) < rank(a) {
        b
    } else {
        a
    }
}

/// Whether the value is a NaN.
pub fn is_nan(b: u64) -> (r: bool)
    ensures
        r == is_nan_spec(b),
{
    let m: u64 = if b >= SIGN_BIT { b - SIGN_BIT } else { b };
    m > INFINITY_BITS
}

/// The rank of a value, as a machine integer.
fn rank_of(b: u64) -> (r: i64)
    ensures
        r as int == rank(b),
{
    if b >= SIGN_BIT {
        -((b - SIGN_BIT) as i64)
    } else {
        b as i64
    }
}

/// Compares two values as `partial_cmp` does: `None` when either is a NaN.
pub fn compare(a: u64, b: u64) -> (r: Option<Ordering>)
    ensures
        r == compare_spec(a, b),
{
    if is_nan(a) || is_nan(b) {
        None
    } else {
        let ra: i64 = rank_of(a);
        let rb: i64 = rank_of(b);
        if ra < rb {
            Some(Ordering::Less)
        } else if ra == rb {
            Some(Ordering::Equal)
        } else {
            Some(Ordering::Greater)
        }
    }
}

/// Tests two values for numeric equality as `==` does.
pub fn equal(a: u64, b: u64) -> (r: bool)
    ensures
        r == equal_spec(a, b),
{
    !is_nan(a) && !is_nan(b) && rank_of(a) == rank_of(b)
}

/// The smaller of two values, as `min` gives it: a NaN operand is ignored,
/// and the result is a NaN only where both are.
pub fn minimum(a: u64, b: u64) -> (r: u64)
    ensures
        r == minimum_spec(a, b),
        r == a || r == b,
        is_nan_spec(r) <==> (is_nan_spec(a) && is_nan_spec(b)),
        !is_nan_spec(r) ==> (!is_nan_spec(a) ==> rank(r) <= rank(a)) && (!is_nan_spec(b)
            ==> rank(r) <= rank(b)),
{
    if is_nan(a) {
        b
    } else if is_nan(b) {
        a
    } else if rank_of(b) < rank_of(a) {
        b
    } else {
        a
    }
}

} // verus!
