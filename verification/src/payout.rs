//! Charges, rewards and the state of DAC-based payouts.
use vstd::prelude::*;
use vstd::std_specs::convert::{FromSpec, FromSpecImpl, TryFromSpec, TryFromSpecImpl};

use std::collections::BTreeSet;

use crate::hash::{H160, H256};
use crate::{BatchIndex, ClusterId, DeltaUsageHash, EhdEra, Fingerprint, PayableUsageHash};

verus! {

/// Stores charge in tokens(units) of customer
#[derive(Clone, Copy, Debug, PartialEq, Eq, Structural)]
pub struct CustomerCharge {
    /// charge in tokens for transferred bytes
    pub transfer: u128,
    /// charge in tokens for stored bytes
    pub storage: u128,
    /// charge in tokens for number of puts
    pub puts: u128,
    /// charge in tokens for number of gets
    pub gets: u128,
    /// charge in tokens for compute
    pub compute: u128,
}

/// Stores reward in tokens(units) of node provider
#[derive(Clone, Copy, Debug, PartialEq, Eq, Structural)]
pub struct ProviderReward {
    /// reward in tokens for transferred bytes
    pub transfer: u128,
    /// reward in tokens for stored bytes
    pub storage: u128,
    /// reward in tokens for number of puts
    pub puts: u128,
    /// reward in tokens for number of gets
    pub gets: u128,
    /// reward in tokens for compute
    pub compute: u128,
}

/// A Merkle Mountain Range proof: the hashes on the path to the root.
#[derive(Clone, Debug, PartialEq)]
pub struct MMRProof {
    pub proof: Vec<DeltaUsageHash>,
}

/// Why a change to the node repository was refused.
#[derive(Clone, Copy, Debug, PartialEq, Eq, Structural)]
pub enum NodeRepositoryError {
    StorageNodeAlreadyExists,
    StorageNodeDoesNotExist,
}

/// Why a payout request was refused.
#[derive(Clone, Copy, Debug, PartialEq, Eq, Structural)]
pub enum PayoutError {
    PayoutReceiptDoesNotExist,
    InvalidPayoutReceiptParams,
}

/// Where a payout stands. A payout that has not started is `NotInitialized`.
/// The DAC relies on the codes of the states, 1 to 7 in the order below (see
/// `From<PayoutState> for u8`): they are never changed, and a new state takes
/// a new code at the end.
#[derive(Clone, Copy, Debug, PartialEq, Eq, Structural)]
pub enum PayoutState {
    NotInitialized,
    Initialized,
    ChargingCustomers,
    CustomersChargedWithFees,
    RewardingProviders,
    ProvidersRewarded,
    Finalized,
}

/// The one-byte code of a payout state.
pub open spec fn payout_state_code(state: PayoutState) -> u8 {
    match state {
        PayoutState::NotInitialized => 1,
        PayoutState::Initialized => 2,
        PayoutState::ChargingCustomers => 3,
        PayoutState::CustomersChargedWithFees => 4,
        PayoutState::RewardingProviders => 5,
        PayoutState::ProvidersRewarded => 6,
        PayoutState::Finalized => 7,
    }
}

/// The payout state that a one-byte code names, if any.
pub open spec fn payout_state_from_code(code: u8) -> Result<PayoutState, ()> {
    if code == 1 {
        Ok(PayoutState::NotInitialized)
    } else
    if code == 2 {
        Ok(PayoutState::Initialized)
    } else
    if code == 3 {
        Ok(PayoutState::ChargingCustomers)
    } else
    if code == 4 {
        Ok(PayoutState::CustomersChargedWithFees)
    } else
    if code == 5 {
        Ok(PayoutState::RewardingProviders)
    } else
    if code == 6 {
        Ok(PayoutState::ProvidersRewarded)
    } else
    if code == 7 {
        Ok(PayoutState::Finalized)
    } else {
        Err(())
    }
}

impl From<PayoutState> for u8 {
    fn from(state: PayoutState) -> (code: u8) {
        match state {
            PayoutState::NotInitialized => 1,
            PayoutState::Initialized => 2,
            PayoutState::ChargingCustomers => 3,
            PayoutState::CustomersChargedWithFees => 4,
            PayoutState::RewardingProviders => 5,
            PayoutState::ProvidersRewarded => 6,
            PayoutState::Finalized => 7,
        }
    }
}

impl FromSpecImpl<PayoutState> for u8 {
    open spec fn obeys_from_spec() -> bool {
        true
    }

    open spec fn from_spec(state: PayoutState) -> u8 {
        payout_state_code(state)
    }
}

impl TryFrom<u8> for PayoutState {
    type Error = ();

    fn try_from(value: u8) -> (res: Result<PayoutState, ()>) {
        match value {
            1 => Ok(PayoutState::NotInitialized),
            2 => Ok(PayoutState::Initialized),
            3 => Ok(PayoutState::ChargingCustomers),
            4 => Ok(PayoutState::CustomersChargedWithFees),
            5 => Ok(PayoutState::RewardingProviders),
            6 => Ok(PayoutState::ProvidersRewarded),
            7 => Ok(PayoutState::Finalized),
            _ => Err(()),
        }
    }
}

impl TryFromSpecImpl<u8> for PayoutState {
    open spec fn obeys_try_from_spec() -> bool {
        true
    }

    open spec fn try_from_spec(value: u8) -> Result<PayoutState, ()> {
        payout_state_from_code(value)
    }
}

/// Converting a payout state to its code and back gives the same state, and
/// only the codes 1 to 7 name a state.
pub proof fn lemma_payout_state_code_roundtrip(state: PayoutState, code: u8)
    ensures
        <u8 as FromSpec<PayoutState>>::obeys_from_spec(),
        <PayoutState as TryFromSpec<u8>>::obeys_try_from_spec(),
        <u8 as FromSpec<PayoutState>>::from_spec(PayoutState::NotInitialized) == 1,
        <u8 as FromSpec<PayoutState>>::from_spec(PayoutState::Initialized) == 2,
        <u8 as FromSpec<PayoutState>>::from_spec(PayoutState::ChargingCustomers) == 3,
        <u8 as FromSpec<PayoutState>>::from_spec(PayoutState::CustomersChargedWithFees) == 4,
        <u8 as FromSpec<PayoutState>>::from_spec(PayoutState::RewardingProviders) == 5,
        <u8 as FromSpec<PayoutState>>::from_spec(PayoutState::ProvidersRewarded) == 6,
        <u8 as FromSpec<PayoutState>>::from_spec(PayoutState::Finalized) == 7,
        <PayoutState as TryFromSpec<u8>>::try_from_spec(<u8 as FromSpec<PayoutState>>::from_spec(state))
            == Ok::<PayoutState, ()>(state),
        <PayoutState as TryFromSpec<u8>>::try_from_spec(code) is Ok <==> 1 <= code <= 7,
{
}

/// Whether a bucket is public.
#[derive(Clone, Copy, Debug, PartialEq, Eq, Structural)]
pub struct BucketParams {
    pub is_public: bool,
}

/// The identity with which off-chain workers sign what they submit.
#[derive(Clone, Copy, Debug)]
pub struct OffchainIdentifierId;

/// The parameters of a payout receipt.
#[derive(Debug)]
pub struct PayoutReceiptParams {
    pub cluster_id: ClusterId,
    pub era: EhdEra,
    pub state: PayoutState,
    pub fingerprint: Fingerprint,
    pub total_collected_charges: u128,
    pub total_distributed_rewards: u128,
    pub total_settled_fees: u128,
    pub charging_max_batch_index: BatchIndex,
    pub charging_processed_batches: Vec<BatchIndex>,
    pub rewarding_max_batch_index: BatchIndex,
    pub rewarding_processed_batches: Vec<BatchIndex>,
}

/// What the fingerprint of a payout is computed over.
#[derive(Debug)]
pub struct PayoutFingerprintParams<AccountId> {
    pub cluster_id: ClusterId,
    pub era: EhdEra,
    pub inspection_hash: H256,
    pub ehd_merkle_root: H256,
    pub payers_merkle_root: PayableUsageHash,
    pub payees_merkle_root: PayableUsageHash,
    pub validators: BTreeSet<AccountId>,
}

impl Default for CustomerCharge {
    /// Zero in every part.
    fn default() -> (v: CustomerCharge)
        ensures
            v.transfer == 0,
            v.storage == 0,
            v.puts == 0,
            v.gets == 0,
            v.compute == 0,
    {
        CustomerCharge { transfer: 0, storage: 0, puts: 0, gets: 0, compute: 0 }
    }
}

impl Default for ProviderReward {
    /// Zero in every part.
    fn default() -> (v: ProviderReward)
        ensures
            v.transfer == 0,
            v.storage == 0,
            v.puts == 0,
            v.gets == 0,
            v.compute == 0,
    {
        ProviderReward { transfer: 0, storage: 0, puts: 0, gets: 0, compute: 0 }
    }
}

impl Default for MMRProof {
    /// The proof with no hashes.
    fn default() -> (proof: MMRProof)
        ensures
            proof.proof@ == Seq::<DeltaUsageHash>::empty(),
    {
        MMRProof { proof: Vec::new() }
    }
}

impl Default for PayoutState {
    /// A payout that has not started.
    fn default() -> (state: PayoutState)
        ensures
            state == PayoutState::NotInitialized,
    {
        PayoutState::NotInitialized
    }
}

impl Default for PayoutReceiptParams {
    /// The zero cluster and fingerprint, era 0, a payout that has not started,
    /// no totals, and no batches.
    fn default() -> (params: PayoutReceiptParams)
        ensures
            forall|i: int| 0 <= i < 20 ==> params.cluster_id.0@[i] == 0u8,
            params.era == 0,
            params.state == PayoutState::NotInitialized,
            forall|i: int| 0 <= i < 32 ==> params.fingerprint.0@[i] == 0u8,
            params.total_collected_charges == 0,
            params.total_distributed_rewards == 0,
            params.total_settled_fees == 0,
            params.charging_max_batch_index == 0,
            params.charging_processed_batches@ == Seq::<BatchIndex>::empty(),
            params.rewarding_max_batch_index == 0,
            params.rewarding_processed_batches@ == Seq::<BatchIndex>::empty(),
    {
        PayoutReceiptParams {
            cluster_id: H160::default(),
            era: 0,
            state: PayoutState::default(),
            fingerprint: H256::default(),
            total_collected_charges: 0,
            total_distributed_rewards: 0,
            total_settled_fees: 0,
            charging_max_batch_index: 0,
            charging_processed_batches: Vec::new(),
            rewarding_max_batch_index: 0,
            rewarding_processed_batches: Vec::new(),
        }
    }
}

impl<AccountId> Default for PayoutFingerprintParams<AccountId> {
    /// The zero cluster and hashes, era 0, and no validators.
    fn default() -> (params: PayoutFingerprintParams<AccountId>)
        ensures
            forall|i: int| 0 <= i < 20 ==> params.cluster_id.0@[i] == 0u8,
            params.era == 0,
            forall|i: int| 0 <= i < 32 ==> params.inspection_hash.0@[i] == 0u8,
            forall|i: int| 0 <= i < 32 ==> params.ehd_merkle_root.0@[i] == 0u8,
            forall|i: int| 0 <= i < 32 ==> params.payers_merkle_root.0@[i] == 0u8,
            forall|i: int| 0 <= i < 32 ==> params.payees_merkle_root.0@[i] == 0u8,
            params.validators@ == Set::<AccountId>::empty(),
    {
        PayoutFingerprintParams {
            cluster_id: H160::default(),
            era: 0,
            inspection_hash: H256::default(),
            ehd_merkle_root: H256::default(),
            payers_merkle_root: H256::default(),
            payees_merkle_root: H256::default(),
            validators: BTreeSet::new(),
        }
    }
}

} // verus!
