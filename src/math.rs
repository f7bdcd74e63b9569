//! Integer helpers on `i32`.

pub mod advanced;

use vstd::prelude::*;

verus! {

/// Sum of two integers; the caller guarantees that it fits in an `i32`.
fn private_add(a: i32, b: i32) -> (r: i32)
    requires
        i32::MIN <= a + b <= i32::MAX,
    ensures
        r == a + b,
{
    a + b
}

/// Sum of two integers; the caller guarantees that it fits in an `i32`.
pub fn add(a: i32, b: i32) -> (r: i32)
    requires
        i32::MIN <= a + b <= i32::MAX,
    ensures
        r == a + b,
{
    private_add(a, b)
}

} // verus!
