//! Amounts of the network's currency.

use vstd::prelude::*;

verus! {

/// An amount of hbar, held in tinybars, the smallest unit.
#[derive(Debug, Clone, Copy, PartialEq, Eq, Hash, Structural)]
pub struct Hbar {
    pub tinybars: i64,
}

impl Hbar {
    pub fn from_tinybars(tinybars: i64) -> (amount: Self)
        ensures
            amount.tinybars == tinybars,
    {
        Hbar { tinybars }
    }

    pub fn to_tinybars(self) -> (tinybars: i64)
        ensures
            tinybars == self.tinybars,
    {
        self.tinybars
    }
}

} // verus!
