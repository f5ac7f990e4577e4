use vstd::prelude::*;

use crate::contracts::types::{AccountId, Balance, ClusterId};

verus! {

/// A customer deposited funds in a cluster.
#[derive(Debug, Clone, PartialEq, Eq)]
pub struct DdcBalanceDeposited {
    pub cluster_id: ClusterId,
    pub owner_id: AccountId,
    pub amount: Balance,
}

/// A customer started to unlock deposited funds.
#[derive(Debug, Clone, PartialEq, Eq)]
pub struct DdcBalanceUnlocked {
    pub cluster_id: ClusterId,
    pub owner_id: AccountId,
    pub amount: Balance,
}

/// A customer withdrew unlocked funds.
#[derive(Debug, Clone, PartialEq, Eq)]
pub struct DdcBalanceWithdrawn {
    pub cluster_id: ClusterId,
    pub owner_id: AccountId,
    pub amount: Balance,
}

/// A customer was charged for DDC usage: `charged` of the `expected` amount.
#[derive(Debug, Clone, PartialEq, Eq)]
pub struct DdcBalanceCharged {
    pub cluster_id: ClusterId,
    pub owner_id: AccountId,
    pub charged: Balance,
    pub expected: Balance,
}

} // verus!
