use vstd::prelude::*;

use crate::contracts::types::{AccountId, Balance};
use crate::BlockNumber;

verus! {

/// What a customer has deposited in a DDC cluster.
#[derive(Debug, Clone, PartialEq, Eq)]
pub struct Ledger {
    /// The owner account whose balance is actually locked and can be used to pay for DDC
    /// network usage.
    pub owner: AccountId,
    /// The total amount of the owner's balance that we are currently accounting for.
    /// It's just `active` plus all the `unlocking` balances.
    pub total: Balance,
    /// The total amount of the owner's balance that will be accessible for DDC network payouts
    /// in any forthcoming rounds.
    pub active: Balance,
    /// Any balance that is becoming free, which may eventually be transferred out of the owner
    /// (assuming that the content owner has to pay for network usage). It is assumed that this
    /// will be treated as a first in, first out queue where the new (higher value) eras get
    /// pushed on the back.
    pub unlocking: Vec<UnlockChunk>,
}

/// Funds that become free at a given block.
#[derive(Debug, Clone, Copy, PartialEq, Eq, Structural)]
pub struct UnlockChunk {
    /// Amount of funds to be unlocked.
    pub value: Balance,
    /// Block number at which point it'll be unlocked.
    pub block: BlockNumber,
}

} // verus!
