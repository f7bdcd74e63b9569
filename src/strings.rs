//! Borrowing strings: measuring, extending and choosing between them.

use vstd::prelude::*;
use vstd::string::{StringExecFns, StringSliceAdditionalSpecFns};
use vstd::utf8::encode_utf8;

verus! {

/// The length of `s` in bytes of UTF-8.
pub fn calculate_length(s: &String) -> (r: usize)
    ensures
        r == encode_utf8(s@).len() as usize,
{
    s.as_str().len()
}

/// Appends `, borrow!` to `s`.
pub fn change(s: &mut String)
    ensures
        final(s)@ == old(s)@ + ", borrow!"@,
{
    s.append(", borrow!");
}

/// The longer of two strings by bytes of UTF-8; `y` when they are as long.
pub fn longest<'a>(x: &'a str, y: &'a str) -> (r: &'a str)
    ensures
        r == (if x.spec_bytes().len() as usize > y.spec_bytes().len() as usize {
            x
        } else {
            y
        }),
{
    if x.len() > y.len() {
        x
    } else {
        y
    }
}

/// A book that borrows its title and author.
pub struct Book<'a> {
    pub title: &'a str,
    pub author: &'a str,
}

impl<'a> Book<'a> {
    /// `'<title>' by <author>`.
    pub fn summary(&self) -> (r: String)
        ensures
            r@ == "'"@ + self.title@ + "' by "@ + self.author@,
    {
        let mut r = String::from_str("'");
        r.append(self.title);
        r.append("' by ");
        r.append(self.author);
        r
    }

    pub fn title(&self) -> (r: &'a str)
        ensures
            r == self.title,
    {
        self.title
    }
}

} // verus!
