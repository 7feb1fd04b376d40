//! The result of a query for bonds.

use crate::token::Amount;
use vstd::prelude::*;

verus! {

/// The bonds of a delegator or validator, summed up.
#[derive(Clone, Copy, Debug)]
pub struct BondQueryResult {
    /// Total bonds
    pub bonds: Amount,
    /// Active bonds
    pub active: Amount,
    /// Total unbonds
    pub unbonds: Amount,
    /// Withdrawable unbonds
    pub withdrawable: Amount,
}

impl Default for BondQueryResult {
    fn default() -> (result: BondQueryResult)
        ensures
            result.bonds.micro == 0,
            result.active.micro == 0,
            result.unbonds.micro == 0,
            result.withdrawable.micro == 0,
    {
        BondQueryResult {
            bonds: Amount::from_micro(0),
            active: Amount::from_micro(0),
            unbonds: Amount::from_micro(0),
            withdrawable: Amount::from_micro(0),
        }
    }
}

} // verus!
