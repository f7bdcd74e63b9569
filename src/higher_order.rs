//! Functions that take functions.

use vstd::prelude::*;

verus! {

/// Calls `f` on `x` and `y`.
pub fn apply<F: Fn(i32, i32) -> i32>(f: F, x: i32, y: i32) -> (r: i32)
    requires
        f.requires((x, y)),
    ensures
        f.ensures((x, y), r),
{
    f(x, y)
}

/// Calls `f` on `x`, then on what that returned.
pub fn apply_twice<F: Fn(i32) -> i32>(f: F, x: i32) -> (r: i32)
    requires
        f.requires((x,)),
        forall|y: i32| f.ensures((x,), y) ==> f.requires((y,)),
    ensures
        exists|y: i32| f.ensures((x,), y) && f.ensures((y,), r),
{
    let once = f(x);
    f(once)
}

} // verus!
