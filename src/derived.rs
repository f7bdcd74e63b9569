//! A point of `i32` coordinates with the usual traits derived.

use vstd::prelude::*;

verus! {

/// Compared field by field, `x` first; the default is the origin.
#[derive(Debug, Clone, Copy, PartialEq, Eq, Structural, PartialOrd, Ord, Hash)]
pub struct Point {
    pub x: i32,
    pub y: i32,
}

impl Default for Point {
    fn default() -> (r: Self)
        ensures
            r.x == 0,
            r.y == 0,
    {
        Point { x: 0, y: 0 }
    }
}

} // verus!
