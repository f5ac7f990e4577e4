//! Types shared by the contract interfaces.
use vstd::prelude::*;

verus! {

/// Cluster ID type used accross contracts extensions
pub type ClusterId = [u8; 20];

/// Account ID type used accross contracts extensions
pub type AccountId = crate::node::AccountId32;

/// Balance type used accross contracts extensions
pub type Balance = u128;

} // verus!
