//! Primitive types of the DDC (Decentralized Data Cloud) protocol: node and
//! cluster parameters, payout state, keys and hashes in their hexadecimal
//! string form, and the merge of Merkle Mountain Range nodes.
use vstd::prelude::*;

pub mod cluster;
pub mod contracts;
pub mod hash;
pub mod hexadecimal;
pub mod node;
pub mod payout;
pub mod traits;

pub use cluster::{
    ClusterBondingParams, ClusterFeesParams, ClusterNodeKind, ClusterNodeState, ClusterNodeStatus,
    ClusterNodesStats, ClusterParams, ClusterPricingParams, ClusterProtocolParams, ClusterStatus,
    Perquintill,
};
pub use hash::{try_hex_from_string, MergeMMRHash, H160, H256};
pub use node::{
    AccountId32, AccountId32Hex, AggregateKey, AggregatorInfo, InspectionDryRunParams, NodeParams,
    NodePubKey, NodeType, StorageNodeMode, StorageNodeParams,
};
pub use payout::{
    BucketParams, CustomerCharge, MMRProof, NodeRepositoryError, OffchainIdentifierId, PayoutError,
    PayoutFingerprintParams, PayoutReceiptParams, PayoutState, ProviderReward,
};

verus! {

/// An index to a block.
pub type BlockNumber = u32;

/// Some way of identifying an account on the chain: a 32-byte public key.
pub type AccountId = AccountId32;

/// The type for looking up accounts. We don't expect more than 4 billion of them.
pub type AccountIndex = u32;

/// Balance of an account.
pub type Balance = u128;

/// Type used for expressing timestamp.
pub type Moment = u64;

/// Index of a transaction in the chain.
pub type Nonce = u32;

/// A hash of some data used by the chain.
pub type Hash = H256;

/// A timestamp: milliseconds since the unix epoch.
/// `u64` is enough to represent a duration of half a billion years, when the
/// time scale is milliseconds.
pub type Timestamp = u64;

pub const MAX_PAYOUT_BATCH_COUNT: u16 = 1000;

pub const MAX_PAYOUT_BATCH_SIZE: u16 = 500;

pub const MILLICENTS: u128 = 100_000;

/// Assume this is worth about a cent.
pub const CENTS: u128 = 1_000 * MILLICENTS;

pub const DOLLARS: u128 = 100 * CENTS;

pub type ClusterId = H160;

pub type PaymentEra = u32;

pub type EhdEra = u32;

pub type TcaEra = u32;

/// Identifier of a bucket.
pub type BucketId = u64;

pub type ClusterNodesCount = u16;

pub type StorageNodePubKey = AccountId32;

/// Hash of verified or unverified delta usage of a bucket or a node.
pub type DeltaUsageHash = H256;

/// Hash of usage that a customer is supposed to be charged for, or a provider supposed to be
/// rewarded for. Includes the current usage and verified delta usage.
pub type PayableUsageHash = H256;

/// Selective hash of sensitive information for payouts.
pub type Fingerprint = H256;

pub type BatchIndex = u16;

/// 30.44 days of 24 hours of 3600 seconds.
pub const AVG_SECONDS_MONTH: i64 = 2630016;

/// The key type of the keys with which the DAC verifies.
pub const DAC_VERIFICATION_KEY_TYPE: [u8; 4] = [99, 101, 114, 33];

} // verus!
