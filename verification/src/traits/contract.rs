use vstd::prelude::*;

use crate::node::AccountId32;

verus! {

/// A contract that charges customers for DDC usage during payouts.
pub trait DdcPayoutsPayer {
    /// Charges each customer of `batch` into `vault`, and returns what was charged.
    fn charge(&mut self, vault: AccountId32, batch: Vec<(AccountId32, u128)>) -> Vec<(AccountId32, u128)>;
}

} // verus!
