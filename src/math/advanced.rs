//! Integer helpers that build on multiplication.

use vstd::prelude::*;

verus! {

/// The square of `x`; the caller guarantees that it fits in an `i32`.
pub fn square(x: i32) -> (r: i32)
    requires
        x * x <= i32::MAX,
    ensures
        r == x * x,
{
    assert(0 <= x * x) by (nonlinear_arith);
    x * x
}

} // verus!
