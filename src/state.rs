use vstd::prelude::*;
use crate::circuit_breaker::CircuitBreakerState;
use crate::daily_limits::DailyLimits;
use crate::identity::Identity;

verus! {

/// Minimum seconds between two claims of one user.
pub const MIN_CLAIM_INTERVAL: i64 = 60;

/// Minimum timelock of an upgrade proposal, in seconds.
pub const MIN_UPGRADE_TIMELOCK: i64 = 3600;

/// The policy constants in which deployments of the ledger differ.
#[derive(Clone, Copy, Debug, PartialEq, Eq, Structural)]
pub struct StakingPolicy {
    /// Minimum seconds between two stake or unstake operations of one user.
    pub min_action_interval: i64,
    /// Longest span, in seconds, over which a single accrual is computed.
    pub max_accrual_window: i64,
}

impl StakingPolicy {
    /// The canonical policy: five minutes between operations, at most 48 hours accrued at once.
    pub fn standard() -> (r: StakingPolicy)
        ensures
            r.min_action_interval == 300,
            r.max_accrual_window == 172_800,
    {
        StakingPolicy { min_action_interval: 300, max_accrual_window: 172_800 }
    }

    /// The relaxed policy: one second between operations, at most 30 days accrued at once.
    pub fn relaxed() -> (r: StakingPolicy)
        ensures
            r.min_action_interval == 1,
            r.max_accrual_window == 2_592_000,
    {
        StakingPolicy { min_action_interval: 1, max_accrual_window: 2_592_000 }
    }
}

/// A scheduled version bump.
#[derive(Clone, Copy, Debug, PartialEq, Eq)]
pub struct PendingUpgrade {
    pub new_version: u32,
    pub scheduled_timestamp: i64,
    pub proposer: Identity,
}

/// The vault: global totals, configuration, and the embedded safety and
/// governance state.
#[derive(Clone, Copy, Debug, PartialEq, Eq)]
pub struct VaultAccount {
    pub authority: Identity,
    pub total_staked: u32,
    pub reward_token_mint: Identity,
    pub reward_rate_per_second: u64,
    pub collection_mint: Identity,
    pub paused: bool,
    pub last_update_timestamp: i64,
    pub bump: u8,
    pub upgrade_authority: Identity,
    pub version: u32,
    pub upgrade_locked: bool,
    pub pending_upgrade: Option<PendingUpgrade>,
    pub circuit_breaker: CircuitBreakerState,
    pub daily_limit: DailyLimits,
    pub policy: StakingPolicy,
}

impl VaultAccount {
    /// The vault's invariant: rewards accrue at a positive rate, and the
    /// policy's interval and accrual window are not negative.
    pub open spec fn wf(self) -> bool {
        &&& self.reward_rate_per_second > 0
        &&& self.policy.min_action_interval >= 0
        &&& self.policy.max_accrual_window >= 0
    }
}

/// The staking record of one user.
#[derive(Clone, Copy, Debug, PartialEq, Eq)]
pub struct UserStakeAccount {
    pub user: Identity,
    pub staked_nfts: u32,
    pub pending_rewards: u64,
    pub last_update_timestamp: i64,
}

impl UserStakeAccount {
    /// The record of a user who has never staked.
    pub fn new(user: Identity) -> (r: UserStakeAccount)
        ensures
            r.user == user,
            r.staked_nfts == 0,
            r.pending_rewards == 0,
            r.last_update_timestamp == 0,
    {
        UserStakeAccount { user, staked_nfts: 0, pending_rewards: 0, last_update_timestamp: 0 }
    }
}

/// The collection entry of an item's metadata.
#[derive(Clone, Copy, Debug, PartialEq, Eq)]
pub struct CollectionInfo {
    pub key: Identity,
    pub verified: bool,
}

/// What a stake reads of the item offered: its mint, the mint's decimals, the
/// amount held by the staker, and the collection named in its metadata.
#[derive(Clone, Copy, Debug, PartialEq, Eq)]
pub struct NftInfo {
    pub mint: Identity,
    pub decimals: u8,
    pub holder_amount: u64,
    pub collection: Option<CollectionInfo>,
}

} // verus!
