//! Incrementing a signed 32-bit integer by one.
//!
//! Overflow policy: the increment wraps in two's complement, so the
//! successor of `i32::MAX` is `i32::MIN`. Every input has a result and no
//! call panics.

use vstd::prelude::*;

verus! {

/// The successor of `x` among 32-bit signed integers, wrapping at the top of
/// the range.
pub open spec fn incremented(x: i32) -> int {
    if x < i32::MAX {
        x + 1
    } else {
        i32::MIN as int
    }
}

/// Returns `x + 1`; at `i32::MAX` the result wraps to `i32::MIN`.
pub fn plus_one(x: i32) -> (r: i32)
    ensures
        r == incremented(x),
        x < i32::MAX ==> r == x + 1,
        x == i32::MAX ==> r == i32::MIN,
{
    if x < i32::MAX {
        x + 1
    } else {
        i32::MIN
    }
}

/// The increment is a pure function of its input: any two results that
/// `plus_one` may return for the same argument are equal, at the top of the
/// range as everywhere else.
pub proof fn lemma_plus_one_deterministic(x: i32, r1: i32, r2: i32)
    requires
        r1 == incremented(x),
        r2 == incremented(x),
    ensures
        r1 == r2,
        x < i32::MAX ==> r1 == x + 1,
        x == i32::MAX ==> r1 == i32::MIN && r2 == i32::MIN,
{
}

} // verus!
