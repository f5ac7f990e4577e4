use vstd::prelude::*;

use crate::contracts::customer_deposit::errors::Error;
use crate::contracts::customer_deposit::types::Ledger;
use crate::contracts::types::{AccountId, Balance};

verus! {

/// This trait is required to be implemented by any customer deposit contract
/// as it enables fetching of customer balances in DDC cluster required by the protocol.
pub trait DdcBalancesFetcher {
    /// Fetches customer balance in DDC cluster.
    fn get_balance(&self, owner: AccountId) -> Option<Ledger>;
}

/// This trait is optional to be implemented by any customer deposit contract
/// as it enables utilities (i.e. wallet, payment gateway, ramp service, etc.) that are not required by the protocol.
pub trait DdcBalancesDepositor {
    /// Top up deposit balance on behalf its owner.
    fn deposit(&mut self) -> Result<(), Error>;

    /// Top up deposit balance for specific owner on behalf faucet.
    fn deposit_for(&mut self, owner: AccountId) -> Result<(), Error>;

    /// Initiate unlocking of deposit balance on behalf its owner.
    fn unlock_deposit(&mut self, value: Balance) -> Result<(), Error>;

    /// Withdraw unlocked deposit balance on behalf its owner.
    fn withdraw_unlocked(&mut self) -> Result<(), Error>;
}

/// This trait is required to be implemented by any customer deposit contract
/// as it enables charges for DDC service required by the protocol.
pub trait DdcPayoutsPayer {
    /// Charges customers for DDC service usage while DAC-based payouts are in progress.
    fn charge(&mut self, vault: AccountId, batch: Vec<(AccountId, Balance)>) -> Vec<(AccountId, Balance)>;
}

} // verus!
