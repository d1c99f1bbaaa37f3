//! A custodial staking ledger for non-fungible collection items.
//!
//! Users deposit items into a shared vault and accrue rewards in a fungible
//! token, proportional to the number of items staked and the time they stay
//! staked. The library holds the ledger's state machine: reward accrual with
//! checked arithmetic, a circuit breaker, daily operation quotas, role-based
//! access control and a timelocked upgrade protocol. Moving assets, reading the
//! clock and emitting events belong to the host; every operation here takes the
//! current timestamp and the facts it needs as plain values, changes the
//! records only when it succeeds, and returns the event that the host emits
//! once it has carried out the asset movement.

mod circuit_breaker;
mod daily_limits;
mod error;
mod events;
mod governance;
mod identity;
mod mint;
mod reward_math;
mod roles;
mod state;
mod vault;

pub use circuit_breaker::{lemma_breaker_trips, CircuitBreakerState, FAILURE_THRESHOLD, RESET_TIMEOUT};
pub use daily_limits::{lemma_daily_stake_quota, DailyLimits, SECONDS_PER_DAY};
pub use error::ErrorCode;
pub use events::{
    ConfigUpdated, NftStaked, NftUnstaked, RewardsClaimed, RoleGranted, RoleRevoked, UpgradeCancelled,
    UpgradeExecuted, UpgradeProposed, UpgradesLocked, VaultPaused, VaultUnpaused,
};
pub use governance::{
    cancel_upgrade, execute_upgrade, lemma_lock_is_permanent, lemma_upgrade_timelock, lock_upgrades,
    pause_vault, propose_upgrade, spec_cancel, spec_execute, spec_lock, spec_propose, spec_set_paused,
    spec_update_config, unpause_vault, update_config,
};
pub use identity::Identity;
pub use mint::{spec_check_mint_authority, spec_mint_authority, verify_mint_authority_transfer, MINT_ACCOUNT_LEN};
pub use reward_math::{calculate_rewards, lemma_accrue_monotonic, lemma_accrue_overflow_fails, spec_accrue};
pub use roles::{
    authorize, grant_role, lemma_role_gating, permits, revoke_role, spec_authorize, AccountRole, Capability, Role,
};
pub use state::{
    CollectionInfo, NftInfo, PendingUpgrade, StakingPolicy, UserStakeAccount, VaultAccount, MIN_CLAIM_INTERVAL,
    MIN_UPGRADE_TIMELOCK,
};
pub use vault::{
    claim_rewards, daily_cap, initialize_vault, lemma_claim_leaves_nothing, lemma_nothing_to_claim, lemma_records_move_together,
    lemma_stake_then_unstake, spec_accrued, spec_claim, spec_new_vault, spec_stake, spec_unstake, stake_nft,
    theoretical_cap, too_soon, unstake_nft,
};
