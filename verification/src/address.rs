//! Account addresses.

use vstd::prelude::*;
use vstd::string::*;

verus! {

/// The address of an account, kept in its string form. Nothing is assumed
/// of the text: addresses are compared and printed, never taken apart.
#[derive(Clone, Debug)]
pub struct Address {
    pub raw: String,
}

impl View for Address {
    type V = Seq<char>;

    open spec fn view(&self) -> Seq<char> {
        self.raw@
    }
}

impl Address {
    /// The address written as `raw`.
    pub fn new(raw: String) -> (address: Address)
        ensures
            address@ == raw@,
    {
        Address { raw }
    }

    /// The string form of the address.
    pub fn as_str(&self) -> (raw: &str)
        ensures
            raw@ == self@,
    {
        self.raw.as_str()
    }

    /// Whether two addresses are written alike.
    pub fn same_as(&self, other: &Address) -> (same: bool)
        ensures
            same == (self@ == other@),
    {
        crate::text::str_eq(self.raw.as_str(), other.raw.as_str())
    }
}

} // verus!
