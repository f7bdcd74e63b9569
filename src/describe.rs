//! Values that can describe themselves in a line of text.

use vstd::prelude::*;
use vstd::string::StringExecFns;
use crate::number::{decimal, decimal_text};

verus! {

/// A type whose values have a one-line description.
pub trait Describable {
    /// The description of this value.
    spec fn description(&self) -> Seq<char>;

    fn describe(&self) -> (r: String)
        ensures
            r@ == self.description(),
    ;
}

pub struct Person {
    pub name: String,
    pub age: u32,
}

pub struct Company {
    pub name: String,
    pub employee_count: usize,
}

impl Describable for Person {
    /// `Person: <name> (<age> years old)`.
    open spec fn description(&self) -> Seq<char> {
        "Person: "@ + self.name@ + " ("@ + decimal(self.age as nat) + " years old)"@
    }

    fn describe(&self) -> (r: String) {
        let mut r = String::from_str("Person: ");
        r.append(self.name.as_str());
        r.append(" (");
        let age = decimal_text(self.age as u64);
        r.append(age.as_str());
        r.append(" years old)");
        r
    }
}

impl Describable for Company {
    /// `Company: <name> (<employee_count> employees)`.
    open spec fn description(&self) -> Seq<char> {
        "Company: "@ + self.name@ + " ("@ + decimal(self.employee_count as nat) + " employees)"@
    }

    fn describe(&self) -> (r: String) {
        let mut r = String::from_str("Company: ");
        r.append(self.name.as_str());
        r.append(" (");
        let count = decimal_text(self.employee_count as u64);
        r.append(count.as_str());
        r.append(" employees)");
        r
    }
}

} // verus!
