//! Token amounts.

use vstd::prelude::*;

verus! {

/// An amount of a token, counted in its smallest unit.
#[derive(Clone, Copy, Debug, PartialEq, Eq, Structural)]
pub struct Amount {
    pub micro: u64,
}

impl Amount {
    /// The amount of `micro` smallest units.
    pub fn from_micro(micro: u64) -> (amount: Amount)
        ensures
            amount.micro == micro,
    {
        Amount { micro }
    }
}

impl Default for Amount {
    fn default() -> (amount: Amount)
        ensures
            amount.micro == 0,
    {
        Amount { micro: 0 }
    }
}

} // verus!
