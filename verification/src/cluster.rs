//! DDC clusters: their governance parameters, status and node membership.
use vstd::prelude::*;

use crate::node::InspectionDryRunParams;
use crate::ClusterNodesCount;

verus! {

/// A fraction, held as parts per quintillion (10^18 parts make the whole).
#[derive(Clone, Copy, Debug, PartialEq, Eq, PartialOrd, Ord, Hash, Structural)]
pub struct Perquintill(pub u64);

impl Default for Perquintill {
    /// Nothing: zero parts.
    fn default() -> (share: Perquintill)
        ensures
            share.0 == 0,
    {
        Perquintill(0)
    }
}

/// The non-sensitive governance parameters of a cluster.
#[derive(Clone, Debug, PartialEq)]
pub struct ClusterParams<AccountId> {
    pub node_provider_auth_contract: Option<AccountId>,
    pub erasure_coding_required: u32,
    pub erasure_coding_total: u32,
    pub replication_total: u32,
    pub inspection_dry_run_params: Option<InspectionDryRunParams>,
}

impl<AccountId> Default for ClusterParams<AccountId> {
    /// No authorization contract, no erasure coding or replication, no dry run.
    fn default() -> (params: ClusterParams<AccountId>)
        ensures
            params.node_provider_auth_contract is None,
            params.erasure_coding_required == 0,
            params.erasure_coding_total == 0,
            params.replication_total == 0,
            params.inspection_dry_run_params is None,
    {
        ClusterParams {
            node_provider_auth_contract: None,
            erasure_coding_required: 0,
            erasure_coding_total: 0,
            replication_total: 0,
            inspection_dry_run_params: None,
        }
    }
}

/// The governance-sensitive parameters of a cluster.
#[derive(Clone, Debug, PartialEq)]
pub struct ClusterProtocolParams<Balance, BlockNumber, AccountId> {
    pub treasury_share: Perquintill,
    pub validators_share: Perquintill,
    pub cluster_reserve_share: Perquintill,
    pub storage_bond_size: Balance,
    pub storage_chill_delay: BlockNumber,
    pub storage_unbonding_delay: BlockNumber,
    pub cost_per_mb_stored: u128,
    pub cost_per_mb_streamed: u128,
    pub cost_per_put_request: u128,
    pub cost_per_get_request: u128,
    pub cost_per_gpu_unit: u128,
    pub cost_per_cpu_unit: u128,
    pub cost_per_ram_unit: u128,
    pub customer_deposit_contract: AccountId,
}

impl<Balance: Default, BlockNumber: Default, AccountId: Default> Default for ClusterProtocolParams<
    Balance,
    BlockNumber,
    AccountId,
> {
    /// No shares and no costs; the bond, the delays and the contract are the
    /// defaults of their types.
    fn default() -> (params: ClusterProtocolParams<Balance, BlockNumber, AccountId>)
        ensures
            params.treasury_share.0 == 0,
            params.validators_share.0 == 0,
            params.cluster_reserve_share.0 == 0,
            params.cost_per_mb_stored == 0,
            params.cost_per_mb_streamed == 0,
            params.cost_per_put_request == 0,
            params.cost_per_get_request == 0,
            params.cost_per_gpu_unit == 0,
            params.cost_per_cpu_unit == 0,
            params.cost_per_ram_unit == 0,
    {
        ClusterProtocolParams {
            treasury_share: Perquintill(0),
            validators_share: Perquintill(0),
            cluster_reserve_share: Perquintill(0),
            storage_bond_size: Balance::default(),
            storage_chill_delay: BlockNumber::default(),
            storage_unbonding_delay: BlockNumber::default(),
            cost_per_mb_stored: 0,
            cost_per_mb_streamed: 0,
            cost_per_put_request: 0,
            cost_per_get_request: 0,
            cost_per_gpu_unit: 0,
            cost_per_cpu_unit: 0,
            cost_per_ram_unit: 0,
            customer_deposit_contract: AccountId::default(),
        }
    }
}

/// What a cluster charges per unit of each resource.
#[derive(Clone, Copy, Debug, PartialEq, Eq, Structural)]
pub struct ClusterPricingParams {
    pub cost_per_mb_stored: u128,
    pub cost_per_mb_streamed: u128,
    pub cost_per_put_request: u128,
    pub cost_per_get_request: u128,
    pub cost_per_gpu_unit: u128,
    pub cost_per_cpu_unit: u128,
    pub cost_per_ram_unit: u128,
}

/// The shares of a cluster's fees that go to the treasury, the validators and
/// the cluster reserve.
#[derive(Clone, Copy, Debug, PartialEq, Eq, Structural)]
pub struct ClusterFeesParams {
    pub treasury_share: Perquintill,
    pub validators_share: Perquintill,
    pub cluster_reserve_share: Perquintill,
}

/// What a storage node bonds to join a cluster, and the delays of leaving it.
#[derive(Clone, Copy, Debug, PartialEq, Eq)]
pub struct ClusterBondingParams<BlockNumber> {
    pub storage_bond_size: u128,
    pub storage_chill_delay: BlockNumber,
    pub storage_unbonding_delay: BlockNumber,
}

/// DDC cluster status
#[derive(Clone, Copy, Debug, PartialEq, Eq, Structural)]
pub enum ClusterStatus {
    Unbonded,
    Bonded,
    Activated,
    Unbonding,
}

/// DDC node kind added to DDC cluster
#[derive(Clone, Copy, Debug, PartialEq, Eq, Structural)]
pub enum ClusterNodeKind {
    Genesis,
    External,
}

/// DDC node status in to DDC cluster
#[derive(Clone, Copy, Debug, PartialEq, Eq, Structural)]
pub enum ClusterNodeStatus {
    AwaitsValidation,
    ValidationSucceeded,
    ValidationFailed,
}

/// How and when a node joined a cluster, and where its validation stands.
#[derive(Clone, Copy, Debug, PartialEq, Eq)]
pub struct ClusterNodeState<BlockNumber> {
    pub kind: ClusterNodeKind,
    pub status: ClusterNodeStatus,
    pub added_at: BlockNumber,
}

/// How many nodes of a cluster are in each validation status.
#[derive(Clone, Copy, Debug, PartialEq, Eq, Structural)]
pub struct ClusterNodesStats {
    pub await_validation: ClusterNodesCount,
    pub validation_succeeded: ClusterNodesCount,
    pub validation_failed: ClusterNodesCount,
}

impl Default for ClusterNodesStats {
    /// No nodes in any status.
    fn default() -> (stats: ClusterNodesStats)
        ensures
            stats.await_validation == 0,
            stats.validation_succeeded == 0,
            stats.validation_failed == 0,
    {
        ClusterNodesStats { await_validation: 0, validation_succeeded: 0, validation_failed: 0 }
    }
}

} // verus!
