//! A counter that only counts up.

use vstd::prelude::*;

verus! {

pub struct Counter {
    value: i32,
}

impl Counter {
    pub closed spec fn spec_value(self) -> i32 {
        self.value
    }

    pub fn new(start: i32) -> (r: Self)
        ensures
            r.spec_value() == start,
    {
        Counter { value: start }
    }

    /// Adds one; the count must not be at `i32::MAX` already.
    pub fn inc(&mut self)
        requires
            old(self).spec_value() < i32::MAX,
        ensures
            final(self).spec_value() == old(self).spec_value() + 1,
    {
        self.value = self.value + 1;
    }

    pub fn get(&self) -> (r: i32)
        ensures
            r == self.spec_value(),
    {
        self.value
    }
}

} // verus!
