use vstd::prelude::*;
use crate::circuit_breaker::CircuitBreakerState;
use crate::daily_limits::DailyLimits;
use crate::error::ErrorCode;
use crate::events::{NftStaked, NftUnstaked, RewardsClaimed};
use crate::identity::Identity;
use crate::mint::{check_mint_authority, spec_check_mint_authority};
use crate::reward_math::{calculate_rewards, spec_accrue};
use crate::state::{NftInfo, StakingPolicy, UserStakeAccount, VaultAccount, MIN_CLAIM_INTERVAL};

verus! {

/// The vault as `initialize_vault` creates it.
pub open spec fn spec_new_vault(
    authority: Identity,
    reward_token_mint: Identity,
    reward_rate_per_second: u64,
    collection_mint: Identity,
    bump: u8,
    policy: StakingPolicy,
    now: i64,
) -> VaultAccount {
    VaultAccount {
        authority,
        total_staked: 0,
        reward_token_mint,
        reward_rate_per_second,
        collection_mint,
        paused: false,
        last_update_timestamp: now,
        bump,
        upgrade_authority: authority,
        version: 1,
        upgrade_locked: false,
        pending_upgrade: None,
        circuit_breaker: CircuitBreakerState {
            failure_count: 0,
            last_failure_timestamp: 0,
            blocked: false,
            total_transactions: 0,
            failed_transactions: 0,
        },
        daily_limit: DailyLimits {
            max_stakes_per_day: 100,
            max_claims_per_day: 50,
            max_total_rewards_per_day: 1_000_000_000,
            stakes_today: 0,
            claims_today: 0,
            rewards_claimed_today: 0,
            last_reset_timestamp: 0,
        },
        policy,
    }
}

/// Creates the vault of a deployment. The rate must be positive and the
/// policy's interval and accrual window not negative. The host then
/// hands the reward mint's authority to the vault and confirms the handover
/// with `verify_mint_authority_transfer`.
pub fn initialize_vault(
    authority: Identity,
    reward_token_mint: Identity,
    reward_rate_per_second: u64,
    collection_mint: Identity,
    bump: u8,
    policy: StakingPolicy,
    now: i64,
) -> (r: Result<VaultAccount, ErrorCode>)
    ensures
        reward_rate_per_second == 0 ==> r == Err::<VaultAccount, ErrorCode>(ErrorCode::InvalidRewardRate),
        reward_rate_per_second > 0 && (policy.min_action_interval < 0 || policy.max_accrual_window < 0)
            ==> r == Err::<VaultAccount, ErrorCode>(ErrorCode::InvalidPolicy),
        reward_rate_per_second > 0 && policy.min_action_interval >= 0 && policy.max_accrual_window >= 0
            ==> r == Ok::<VaultAccount, ErrorCode>(
            spec_new_vault(authority, reward_token_mint, reward_rate_per_second, collection_mint, bump, policy, now),
        ),
        r matches Ok(v) ==> v.wf(),
{
    if reward_rate_per_second == 0 {
        return Err(ErrorCode::InvalidRewardRate);
    }
    if policy.min_action_interval < 0 || policy.max_accrual_window < 0 {
        return Err(ErrorCode::InvalidPolicy);
    }
    Ok(VaultAccount {
        authority,
        total_staked: 0,
        reward_token_mint,
        reward_rate_per_second,
        collection_mint,
        paused: false,
        last_update_timestamp: now,
        bump,
        upgrade_authority: authority,
        version: 1,
        upgrade_locked: false,
        pending_upgrade: None,
        circuit_breaker: CircuitBreakerState::new(),
        daily_limit: DailyLimits::new(),
        policy,
    })
}

/// The reward accrued by `stake` from its last update until `now`.
pub open spec fn spec_accrued(vault: VaultAccount, stake: UserStakeAccount, now: int) -> Result<u64, ErrorCode> {
    spec_accrue(
        now - stake.last_update_timestamp,
        vault.policy.max_accrual_window as int,
        vault.reward_rate_per_second as int,
        stake.staked_nfts as int,
    )
}

fn accrued_since(vault: &VaultAccount, stake: &UserStakeAccount, now: i64) -> (r: Result<u64, ErrorCode>)
    ensures
        r == spec_accrued(*vault, *stake, now as int),
{
    let elapsed: i128 = now as i128 - stake.last_update_timestamp as i128;
    if elapsed < 0 || elapsed > vault.policy.max_accrual_window as i128 {
        return Err(ErrorCode::InvalidTimeElapsed);
    }
    calculate_rewards(
        elapsed as i64,
        vault.policy.max_accrual_window,
        vault.reward_rate_per_second,
        stake.staked_nfts as u64,
    )
}

/// Whether fewer than `min_action_interval` seconds separate `now` from the user's last operation.
pub open spec fn too_soon(vault: VaultAccount, stake: UserStakeAccount, now: int) -> bool {
    now - stake.last_update_timestamp < vault.policy.min_action_interval
}

/// The effect of a stake: either the error, or the new vault and user records.
pub open spec fn spec_stake(
    vault: VaultAccount,
    stake: UserStakeAccount,
    user: Identity,
    nft: NftInfo,
    now: int,
) -> Result<(VaultAccount, UserStakeAccount), ErrorCode> {
    let limits = vault.daily_limit.reset_at(now);
    let accrued: Result<u64, ErrorCode> = if stake.staked_nfts > 0 {
        spec_accrued(vault, stake, now)
    } else {
        Ok(0u64)
    };
    if stake.user != user {
        Err(ErrorCode::Unauthorized)
    } else if vault.paused {
        Err(ErrorCode::VaultPaused)
    } else if !vault.circuit_breaker.allows(now) {
        Err(ErrorCode::CircuitBreakerActive)
    } else if !limits.allows_stake() {
        Err(ErrorCode::DailyLimitExceeded)
    } else if nft.decimals != 0 || nft.holder_amount != 1 {
        Err(ErrorCode::InvalidNft)
    } else if nft.collection is None {
        Err(ErrorCode::NoCollectionFound)
    } else if !nft.collection->0.verified {
        Err(ErrorCode::CollectionNotVerified)
    } else if nft.collection->0.key != vault.collection_mint {
        Err(ErrorCode::WrongCollection)
    } else if stake.last_update_timestamp > 0 && too_soon(vault, stake, now) {
        Err(ErrorCode::TooFrequent)
    } else if accrued is Err {
        Err(accrued->Err_0)
    } else if stake.pending_rewards + accrued->Ok_0 > u64::MAX {
        Err(ErrorCode::MathOverflow)
    } else if stake.staked_nfts + 1 > u32::MAX || vault.total_staked + 1 > u32::MAX {
        Err(ErrorCode::MathOverflow)
    } else {
        Ok((
            VaultAccount {
                total_staked: (vault.total_staked + 1) as u32,
                daily_limit: limits.after_stake(),
                circuit_breaker: vault.circuit_breaker.after_success(),
                ..vault
            },
            UserStakeAccount {
                user,
                staked_nfts: (stake.staked_nfts + 1) as u32,
                pending_rewards: (stake.pending_rewards + accrued->Ok_0) as u64,
                last_update_timestamp: now as i64,
            },
        ))
    }
}

/// Stakes the item `nft` of `user` into the vault. Reward accrued so far is
/// added to the pending balance before the count changes. On success the host
/// moves the item from the user to the vault and emits the returned event; on
/// error nothing changes.
pub fn stake_nft(
    vault: &mut VaultAccount,
    user_stake: &mut UserStakeAccount,
    user: Identity,
    nft: &NftInfo,
    now: i64,
) -> (r: Result<NftStaked, ErrorCode>)
    ensures
        match spec_stake(*old(vault), *old(user_stake), user, *nft, now as int) {
            Ok((v, s)) => {
                &&& *final(vault) == v
                &&& *final(user_stake) == s
                &&& r == Ok::<NftStaked, ErrorCode>(NftStaked { user, nft_mint: nft.mint, timestamp: now })
            },
            Err(e) => {
                &&& r == Err::<NftStaked, ErrorCode>(e)
                &&& *final(vault) == *old(vault)
                &&& *final(user_stake) == *old(user_stake)
            },
        },
{
    if user_stake.user != user {
        return Err(ErrorCode::Unauthorized);
    }
    if vault.paused {
        return Err(ErrorCode::VaultPaused);
    }
    if !vault.circuit_breaker.can_execute(now) {
        return Err(ErrorCode::CircuitBreakerActive);
    }
    let mut limits = vault.daily_limit;
    limits.reset_if_new_day(now);
    if !limits.can_stake() {
        return Err(ErrorCode::DailyLimitExceeded);
    }
    if nft.decimals != 0 || nft.holder_amount != 1 {
        return Err(ErrorCode::InvalidNft);
    }
    let collection = match nft.collection {
        None => return Err(ErrorCode::NoCollectionFound),
        Some(c) => c,
    };
    if !collection.verified {
        return Err(ErrorCode::CollectionNotVerified);
    }
    if collection.key != vault.collection_mint {
        return Err(ErrorCode::WrongCollection);
    }
    if user_stake.last_update_timestamp > 0
        && (now as i128) - (user_stake.last_update_timestamp as i128) < vault.policy.min_action_interval as i128 {
        return Err(ErrorCode::TooFrequent);
    }
    let mut pending = user_stake.pending_rewards;
    if user_stake.staked_nfts > 0 {
        let earned = accrued_since(vault, user_stake, now)?;
        pending = match pending.checked_add(earned) {
            Some(p) => p,
            None => return Err(ErrorCode::MathOverflow),
        };
    }
    let staked = match user_stake.staked_nfts.checked_add(1) {
        Some(n) => n,
        None => return Err(ErrorCode::MathOverflow),
    };
    let total = match vault.total_staked.checked_add(1) {
        Some(n) => n,
        None => return Err(ErrorCode::MathOverflow),
    };
    user_stake.user = user;
    user_stake.staked_nfts = staked;
    user_stake.pending_rewards = pending;
    user_stake.last_update_timestamp = now;
    vault.total_staked = total;
    limits.record_stake();
    vault.daily_limit = limits;
    vault.circuit_breaker.on_success();
    Ok(NftStaked { user, nft_mint: nft.mint, timestamp: now })
}

/// The effect of an unstake: either the error, or the new vault and user records.
pub open spec fn spec_unstake(
    vault: VaultAccount,
    stake: UserStakeAccount,
    user: Identity,
    now: int,
) -> Result<(VaultAccount, UserStakeAccount), ErrorCode> {
    let accrued = spec_accrued(vault, stake, now);
    if stake.user != user {
        Err(ErrorCode::Unauthorized)
    } else if vault.paused {
        Err(ErrorCode::VaultPaused)
    } else if stake.staked_nfts == 0 {
        Err(ErrorCode::NoNftsStaked)
    } else if too_soon(vault, stake, now) {
        Err(ErrorCode::TooFrequent)
    } else if accrued is Err {
        Err(accrued->Err_0)
    } else if stake.pending_rewards + accrued->Ok_0 > u64::MAX {
        Err(ErrorCode::MathOverflow)
    } else if vault.total_staked == 0 {
        Err(ErrorCode::MathUnderflow)
    } else {
        Ok((
            VaultAccount { total_staked: (vault.total_staked - 1) as u32, ..vault },
            UserStakeAccount {
                staked_nfts: (stake.staked_nfts - 1) as u32,
                pending_rewards: (stake.pending_rewards + accrued->Ok_0) as u64,
                last_update_timestamp: now as i64,
                ..stake
            },
        ))
    }
}

/// Unstakes one item `nft_mint` of `user`. Reward accrued so far is added to
/// the pending balance before the count changes. On success the host moves
/// the item from the vault back to the user and emits the returned event; on
/// error nothing changes.
pub fn unstake_nft(
    vault: &mut VaultAccount,
    user_stake: &mut UserStakeAccount,
    user: Identity,
    nft_mint: Identity,
    now: i64,
) -> (r: Result<NftUnstaked, ErrorCode>)
    ensures
        match spec_unstake(*old(vault), *old(user_stake), user, now as int) {
            Ok((v, s)) => {
                &&& *final(vault) == v
                &&& *final(user_stake) == s
                &&& r == Ok::<NftUnstaked, ErrorCode>(NftUnstaked { user, nft_mint, timestamp: now })
            },
            Err(e) => {
                &&& r == Err::<NftUnstaked, ErrorCode>(e)
                &&& *final(vault) == *old(vault)
                &&& *final(user_stake) == *old(user_stake)
            },
        },
{
    if user_stake.user != user {
        return Err(ErrorCode::Unauthorized);
    }
    if vault.paused {
        return Err(ErrorCode::VaultPaused);
    }
    if user_stake.staked_nfts == 0 {
        return Err(ErrorCode::NoNftsStaked);
    }
    if (now as i128) - (user_stake.last_update_timestamp as i128) < vault.policy.min_action_interval as i128 {
        return Err(ErrorCode::TooFrequent);
    }
    let earned = accrued_since(vault, user_stake, now)?;
    let pending = match user_stake.pending_rewards.checked_add(earned) {
        Some(p) => p,
        None => return Err(ErrorCode::MathOverflow),
    };
    let total = match vault.total_staked.checked_sub(1) {
        Some(n) => n,
        None => return Err(ErrorCode::MathUnderflow),
    };
    user_stake.staked_nfts = user_stake.staked_nfts - 1;
    user_stake.pending_rewards = pending;
    user_stake.last_update_timestamp = now;
    vault.total_staked = total;
    Ok(NftUnstaked { user, nft_mint, timestamp: now })
}

/// The most a claim may pay out: one day's reward for the items staked.
pub open spec fn daily_cap(vault: VaultAccount, stake: UserStakeAccount) -> int {
    vault.reward_rate_per_second * 86400 * stake.staked_nfts
}

/// The most a claim may pay out: the reward accrued since the vault's reference timestamp.
pub open spec fn theoretical_cap(vault: VaultAccount, stake: UserStakeAccount, now: int) -> int {
    vault.reward_rate_per_second * (now - vault.last_update_timestamp) * stake.staked_nfts
}

/// The effect of a claim: either the error, or the new vault and user records
/// together with the amount paid out.
pub open spec fn spec_claim(
    vault: VaultAccount,
    stake: UserStakeAccount,
    user: Identity,
    vault_key: Identity,
    mint_data: Seq<u8>,
    now: int,
) -> Result<(VaultAccount, UserStakeAccount, u64), ErrorCode> {
    let accrued = spec_accrued(vault, stake, now);
    let total = stake.pending_rewards + accrued->Ok_0;
    let limits = vault.daily_limit.reset_at(now);
    let rate = vault.reward_rate_per_second as int;
    let span = now - vault.last_update_timestamp;
    let mint_check = spec_check_mint_authority(mint_data, vault_key, ErrorCode::InvalidMintAuthority);
    if stake.user != user {
        Err(ErrorCode::Unauthorized)
    } else if vault.paused {
        Err(ErrorCode::VaultPaused)
    } else if !vault.circuit_breaker.allows(now) {
        Err(ErrorCode::CircuitBreakerActive)
    } else if now - stake.last_update_timestamp < MIN_CLAIM_INTERVAL {
        Err(ErrorCode::TooFrequentClaim)
    } else if accrued is Err {
        Err(accrued->Err_0)
    } else if total > u64::MAX {
        Err(ErrorCode::MathOverflow)
    } else if total == 0 {
        Err(ErrorCode::NoRewardsToClaim)
    } else if !limits.allows_claim(total) {
        Err(ErrorCode::DailyLimitExceeded)
    } else if rate * 86400 > u64::MAX || daily_cap(vault, stake) > u64::MAX {
        Err(ErrorCode::MathOverflow)
    } else if total > daily_cap(vault, stake) {
        Err(ErrorCode::ExcessiveRewardClaim)
    } else if span < 0 {
        Err(ErrorCode::ExcessiveRewardClaim)
    } else if rate * span > u64::MAX || theoretical_cap(vault, stake, now) > u64::MAX {
        Err(ErrorCode::MathOverflow)
    } else if total > theoretical_cap(vault, stake, now) {
        Err(ErrorCode::ExcessiveRewardClaim)
    } else if mint_check is Err {
        Err(mint_check->Err_0)
    } else {
        Ok((
            VaultAccount {
                daily_limit: limits.after_claim(total),
                circuit_breaker: vault.circuit_breaker.after_success(),
                ..vault
            },
            UserStakeAccount { pending_rewards: 0, last_update_timestamp: now as i64, ..stake },
            total as u64,
        ))
    }
}

/// Claims all reward owed to `user`: the pending balance plus what accrued
/// since the last update. The amount may not exceed one day's reward for the
/// items staked, nor what accrued since the vault's reference timestamp, nor
/// the day's payout quota, and the reward mint, whose account data is
/// `mint_data`, must have `vault_key` as its mint authority. On success the
/// host mints the returned amount to the user and emits the event; on error
/// nothing changes.
pub fn claim_rewards(
    vault: &mut VaultAccount,
    user_stake: &mut UserStakeAccount,
    user: Identity,
    vault_key: Identity,
    mint_data: &[u8],
    now: i64,
) -> (r: Result<RewardsClaimed, ErrorCode>)
    ensures
        match spec_claim(*old(vault), *old(user_stake), user, vault_key, mint_data@, now as int) {
            Ok((v, s, amount)) => {
                &&& *final(vault) == v
                &&& *final(user_stake) == s
                &&& r == Ok::<RewardsClaimed, ErrorCode>(RewardsClaimed { user, amount, timestamp: now })
            },
            Err(e) => {
                &&& r == Err::<RewardsClaimed, ErrorCode>(e)
                &&& *final(vault) == *old(vault)
                &&& *final(user_stake) == *old(user_stake)
            },
        },
{
    if user_stake.user != user {
        return Err(ErrorCode::Unauthorized);
    }
    if vault.paused {
        return Err(ErrorCode::VaultPaused);
    }
    if !vault.circuit_breaker.can_execute(now) {
        return Err(ErrorCode::CircuitBreakerActive);
    }
    if (now as i128) - (user_stake.last_update_timestamp as i128) < MIN_CLAIM_INTERVAL as i128 {
        return Err(ErrorCode::TooFrequentClaim);
    }
    let earned = accrued_since(vault, user_stake, now)?;
    let total = match user_stake.pending_rewards.checked_add(earned) {
        Some(t) => t,
        None => return Err(ErrorCode::MathOverflow),
    };
    if total == 0 {
        return Err(ErrorCode::NoRewardsToClaim);
    }
    let mut limits = vault.daily_limit;
    limits.reset_if_new_day(now);
    if !limits.can_claim(total) {
        return Err(ErrorCode::DailyLimitExceeded);
    }
    let rate = vault.reward_rate_per_second;
    let staked = user_stake.staked_nfts as u64;
    let per_item_day = match rate.checked_mul(86400) {
        Some(m) => m,
        None => return Err(ErrorCode::MathOverflow),
    };
    let max_total = match per_item_day.checked_mul(staked) {
        Some(m) => m,
        None => return Err(ErrorCode::MathOverflow),
    };
    if total > max_total {
        return Err(ErrorCode::ExcessiveRewardClaim);
    }
    let span: i128 = now as i128 - vault.last_update_timestamp as i128;
    if span < 0 {
        return Err(ErrorCode::ExcessiveRewardClaim);
    }
    let per_item_span = match rate.checked_mul(span as u64) {
        Some(m) => m,
        None => return Err(ErrorCode::MathOverflow),
    };
    let theoretical_max = match per_item_span.checked_mul(staked) {
        Some(m) => m,
        None => return Err(ErrorCode::MathOverflow),
    };
    if total > theoretical_max {
        return Err(ErrorCode::ExcessiveRewardClaim);
    }
    check_mint_authority(mint_data, vault_key, ErrorCode::InvalidMintAuthority)?;
    user_stake.pending_rewards = 0;
    user_stake.last_update_timestamp = now;
    limits.record_claim(total);
    vault.daily_limit = limits;
    vault.circuit_breaker.on_success();
    Ok(RewardsClaimed { user, amount: total, timestamp: now })
}

/// Staking an item and later unstaking it restores the vault's total and the
/// user's count. Once the minimum interval has passed, the unstake can fail
/// only for the accrual itself: an elapsed time outside the accrual window, or
/// an overflow.
pub proof fn lemma_stake_then_unstake(
    v0: VaultAccount,
    s0: UserStakeAccount,
    user: Identity,
    nft: NftInfo,
    t1: i64,
    t2: i64,
)
    requires
        spec_stake(v0, s0, user, nft, t1 as int) is Ok,
    ensures
        ({
            let (v1, s1) = spec_stake(v0, s0, user, nft, t1 as int)->Ok_0;
            &&& spec_unstake(v1, s1, user, t2 as int) matches Ok((v2, s2)) ==> {
                &&& v2.total_staked == v0.total_staked
                &&& s2.staked_nfts == s0.staked_nfts
                &&& s2.user == user
            }
            &&& t2 - t1 >= v0.policy.min_action_interval ==> (
                spec_unstake(v1, s1, user, t2 as int) is Ok
                || spec_unstake(v1, s1, user, t2 as int) == Err::<(VaultAccount, UserStakeAccount), ErrorCode>(ErrorCode::InvalidTimeElapsed)
                || spec_unstake(v1, s1, user, t2 as int) == Err::<(VaultAccount, UserStakeAccount), ErrorCode>(ErrorCode::MathOverflow))
        }),
{
}

/// A successful claim pays out a positive amount and leaves the pending
/// balance at zero, and another claim within the minimum claim interval is
/// refused with `TooFrequentClaim`. A refused claim changes nothing (see
/// `claim_rewards`).
pub proof fn lemma_claim_leaves_nothing(
    v0: VaultAccount,
    s0: UserStakeAccount,
    user: Identity,
    vault_key: Identity,
    mint_data: Seq<u8>,
    t1: i64,
    t2: i64,
)
    requires
        spec_claim(v0, s0, user, vault_key, mint_data, t1 as int) is Ok,
        t1 <= t2 < t1 + MIN_CLAIM_INTERVAL,
    ensures
        ({
            let (v1, s1, amount) = spec_claim(v0, s0, user, vault_key, mint_data, t1 as int)->Ok_0;
            &&& s1.pending_rewards == 0
            &&& amount > 0
            &&& spec_claim(v1, s1, user, vault_key, mint_data, t2 as int)
                == Err::<(VaultAccount, UserStakeAccount, u64), ErrorCode>(ErrorCode::TooFrequentClaim)
        }),
{
}

/// With no pending reward and nothing accruing, a claim that passes the
/// earlier guards is refused with `NoRewardsToClaim`.
pub proof fn lemma_nothing_to_claim(
    vault: VaultAccount,
    stake: UserStakeAccount,
    user: Identity,
    vault_key: Identity,
    mint_data: Seq<u8>,
    now: int,
)
    requires
        stake.user == user,
        !vault.paused,
        vault.circuit_breaker.allows(now),
        now - stake.last_update_timestamp >= MIN_CLAIM_INTERVAL,
        stake.pending_rewards == 0,
        spec_accrued(vault, stake, now) == Ok::<u64, ErrorCode>(0),
    ensures
        spec_claim(vault, stake, user, vault_key, mint_data, now)
            == Err::<(VaultAccount, UserStakeAccount, u64), ErrorCode>(ErrorCode::NoRewardsToClaim),
{
}

/// The records move together: a stake adds one item to both the vault's total
/// and the user's count, an unstake removes one from both, and a claim changes
/// neither, so the total keeps matching the sum of the users' counts. The
/// pending reward only grows, except on a claim, which pays it out and resets
/// it to zero.
pub proof fn lemma_records_move_together(
    vault: VaultAccount,
    stake: UserStakeAccount,
    user: Identity,
    nft: NftInfo,
    vault_key: Identity,
    mint_data: Seq<u8>,
    now: int,
)
    ensures
        spec_stake(vault, stake, user, nft, now) matches Ok((v, s)) ==> {
            &&& v.total_staked == vault.total_staked + 1
            &&& s.staked_nfts == stake.staked_nfts + 1
            &&& s.pending_rewards >= stake.pending_rewards
        },
        spec_unstake(vault, stake, user, now) matches Ok((v, s)) ==> {
            &&& v.total_staked == vault.total_staked - 1
            &&& s.staked_nfts == stake.staked_nfts - 1
            &&& s.pending_rewards >= stake.pending_rewards
        },
        spec_claim(vault, stake, user, vault_key, mint_data, now) matches Ok((v, s, amount)) ==> {
            &&& v.total_staked == vault.total_staked
            &&& s.staked_nfts == stake.staked_nfts
            &&& s.pending_rewards == 0
            &&& amount >= stake.pending_rewards
        },
{
}

} // verus!
