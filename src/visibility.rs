//! Structs whose fields are public in part or in whole.

use vstd::prelude::*;

verus! {

/// `x` is public; `y` is reached through its methods only.
pub struct PublicStruct {
    pub x: i32,
    y: i32,
}

/// Every field public.
pub struct AllPublic {
    pub a: i32,
    pub b: i32,
}

impl PublicStruct {
    pub closed spec fn spec_x(self) -> i32 {
        self.x
    }

    pub closed spec fn spec_y(self) -> i32 {
        self.y
    }

    pub fn new(x: i32, y: i32) -> (r: Self)
        ensures
            r.spec_x() == x,
            r.spec_y() == y,
    {
        PublicStruct { x, y }
    }

    pub fn get_y(&self) -> (r: i32)
        ensures
            r == self.spec_y(),
    {
        self.y
    }

    pub fn set_y(&mut self, new_y: i32)
        ensures
            final(self).spec_y() == new_y,
            final(self).spec_x() == old(self).spec_x(),
    {
        self.y = new_y;
    }

    pub fn set_x(&mut self, new_x: i32)
        ensures
            final(self).spec_x() == new_x,
            final(self).spec_y() == old(self).spec_y(),
    {
        self.x = new_x;
    }

    pub fn get_x(&self) -> (r: i32)
        ensures
            r == self.spec_x(),
    {
        self.x
    }
}

} // verus!
