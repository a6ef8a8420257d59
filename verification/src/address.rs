//! A validated-by-type wrapper for source and destination addresses.

use vstd::prelude::*;

verus! {

/// A source or destination address (an MSISDN or an alphanumeric
/// originator), held as the string the caller supplied.
#[derive(Clone, Debug)]
pub struct Address(String);

impl View for Address {
    type V = Seq<char>;

    closed spec fn view(&self) -> Seq<char> {
        self.0@
    }
}

impl Address {
    pub fn new(value: String) -> (r: Address)
        ensures
            r@ == value@,
    {
        Address(value)
    }

    pub fn as_str(&self) -> (r: &str)
        ensures
            r@ == self@,
    {
        self.0.as_str()
    }

    pub fn into_inner(self) -> (r: String)
        ensures
            r@ == self@,
    {
        self.0
    }
}

} // verus!
