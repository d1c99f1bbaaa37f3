use solana_nft_staking_vault::{
    claim_rewards, initialize_vault, stake_nft, unstake_nft, verify_mint_authority_transfer, CollectionInfo,
    ErrorCode, Identity, NftInfo, NftStaked, NftUnstaked, RewardsClaimed, StakingPolicy, UserStakeAccount,
    VaultAccount,
};

const VAULT: u8 = 1;
const AUTHORITY: u8 = 2;
const REWARD_MINT: u8 = 3;
const COLLECTION: u8 = 4;
const USER: u8 = 5;

fn id(b: u8) -> Identity {
    Identity::new([b; 32])
}

fn new_vault(rate: u64, now: i64) -> VaultAccount {
    initialize_vault(id(AUTHORITY), id(REWARD_MINT), rate, id(COLLECTION), 254, StakingPolicy::standard(), now)
        .unwrap()
}

fn item(mint: u8) -> NftInfo {
    NftInfo {
        mint: id(mint),
        decimals: 0,
        holder_amount: 1,
        collection: Some(CollectionInfo { key: id(COLLECTION), verified: true }),
    }
}

/// An 82-byte token mint account with the given authority tag and key.
fn mint_bytes(tag: u8, authority: u8, initialized: u8) -> Vec<u8> {
    let mut data = Vec::new();
    data.extend_from_slice(&[tag, 0, 0, 0]);
    data.extend_from_slice(&[authority; 32]);
    data.extend_from_slice(&1_000u64.to_le_bytes());
    data.push(6);
    data.push(initialized);
    data.extend_from_slice(&[0, 0, 0, 0]);
    data.extend_from_slice(&[0; 32]);
    data
}

fn vault_mint() -> Vec<u8> {
    mint_bytes(1, VAULT, 1)
}

#[test]
fn initialize_sets_defaults() {
    let v = new_vault(10, 42);
    assert_eq!(v.authority, id(AUTHORITY));
    assert_eq!(v.upgrade_authority, id(AUTHORITY));
    assert_eq!(v.reward_token_mint, id(REWARD_MINT));
    assert_eq!(v.collection_mint, id(COLLECTION));
    assert_eq!(v.total_staked, 0);
    assert_eq!(v.reward_rate_per_second, 10);
    assert_eq!(v.last_update_timestamp, 42);
    assert_eq!(v.version, 1);
    assert!(!v.paused && !v.upgrade_locked && v.pending_upgrade.is_none());
    assert_eq!(v.daily_limit.max_stakes_per_day, 100);
    assert_eq!(v.daily_limit.max_claims_per_day, 50);
    assert_eq!(v.daily_limit.max_total_rewards_per_day, 1_000_000_000);
    assert_eq!(v.policy.min_action_interval, 300);
    assert_eq!(v.policy.max_accrual_window, 172_800);
}

#[test]
fn initialize_rejects_zero_rate() {
    let r = initialize_vault(id(AUTHORITY), id(REWARD_MINT), 0, id(COLLECTION), 254, StakingPolicy::standard(), 0);
    assert_eq!(r, Err(ErrorCode::InvalidRewardRate));
}

#[test]
fn initialize_rejects_negative_policy() {
    let bad_interval = StakingPolicy { min_action_interval: -1, max_accrual_window: 172_800 };
    let r = initialize_vault(id(AUTHORITY), id(REWARD_MINT), 10, id(COLLECTION), 254, bad_interval, 0);
    assert_eq!(r, Err(ErrorCode::InvalidPolicy));
    let bad_window = StakingPolicy { min_action_interval: 300, max_accrual_window: -5 };
    let r = initialize_vault(id(AUTHORITY), id(REWARD_MINT), 10, id(COLLECTION), 254, bad_window, 0);
    assert_eq!(r, Err(ErrorCode::InvalidPolicy));
    let zero = StakingPolicy { min_action_interval: 0, max_accrual_window: 0 };
    assert!(initialize_vault(id(AUTHORITY), id(REWARD_MINT), 10, id(COLLECTION), 254, zero, 0).is_ok());
}

#[test]
fn mint_authority_transfer_checked() {
    assert_eq!(verify_mint_authority_transfer(&vault_mint(), id(VAULT)), Ok(()));
    assert_eq!(
        verify_mint_authority_transfer(&mint_bytes(1, AUTHORITY, 1), id(VAULT)),
        Err(ErrorCode::MintAuthorityTransferFailed)
    );
    assert_eq!(
        verify_mint_authority_transfer(&mint_bytes(0, 0, 1), id(VAULT)),
        Err(ErrorCode::MintAuthorityTransferFailed)
    );
}

#[test]
fn unreadable_mint_account_rejected() {
    assert_eq!(verify_mint_authority_transfer(&mint_bytes(1, VAULT, 0), id(VAULT)), Err(ErrorCode::InvalidMintAccount));
    assert_eq!(verify_mint_authority_transfer(&mint_bytes(2, VAULT, 1), id(VAULT)), Err(ErrorCode::InvalidMintAccount));
    let mut short = vault_mint();
    short.pop();
    assert_eq!(verify_mint_authority_transfer(&short, id(VAULT)), Err(ErrorCode::InvalidMintAccount));
    assert_eq!(verify_mint_authority_transfer(&[], id(VAULT)), Err(ErrorCode::InvalidMintAccount));
}

#[test]
fn example_two_items_one_hour_claim() {
    let mut v = new_vault(10, 0);
    let mut s = UserStakeAccount::new(id(USER));
    assert_eq!(
        stake_nft(&mut v, &mut s, id(USER), &item(10), 0),
        Ok(NftStaked { user: id(USER), nft_mint: id(10), timestamp: 0 })
    );
    assert!(stake_nft(&mut v, &mut s, id(USER), &item(11), 0).is_ok());
    assert_eq!(s.staked_nfts, 2);
    assert_eq!(v.total_staked, 2);
    let r = claim_rewards(&mut v, &mut s, id(USER), id(VAULT), &vault_mint(), 3600);
    assert_eq!(r, Ok(RewardsClaimed { user: id(USER), amount: 72_000, timestamp: 3600 }));
    assert_eq!(s.pending_rewards, 0);
    assert_eq!(s.last_update_timestamp, 3600);
    assert_eq!(v.daily_limit.claims_today, 1);
    assert_eq!(v.daily_limit.rewards_claimed_today, 72_000);
    assert_eq!(v.daily_limit.stakes_today, 2);
    assert_eq!(v.circuit_breaker.total_transactions, 3);
}

#[test]
fn stake_then_unstake_restores_counts() {
    let mut v = new_vault(3, 1_000);
    let mut s = UserStakeAccount::new(id(USER));
    let (v0, s0) = (v, s);
    let staked = stake_nft(&mut v, &mut s, id(USER), &item(10), 1_000).unwrap();
    assert_eq!(v.total_staked, v0.total_staked + 1);
    let unstaked = unstake_nft(&mut v, &mut s, id(USER), id(10), 1_300).unwrap();
    assert_eq!(unstaked, NftUnstaked { user: id(USER), nft_mint: id(10), timestamp: 1_300 });
    assert_eq!(staked.user, unstaked.user);
    assert_eq!(staked.nft_mint, unstaked.nft_mint);
    assert_eq!(v.total_staked, v0.total_staked);
    assert_eq!(s.staked_nfts, s0.staked_nfts);
    assert_eq!(s.pending_rewards, 900);
}

#[test]
fn stake_accrues_before_count_changes() {
    let mut v = new_vault(2, 0);
    let mut s = UserStakeAccount::new(id(USER));
    stake_nft(&mut v, &mut s, id(USER), &item(10), 100).unwrap();
    stake_nft(&mut v, &mut s, id(USER), &item(11), 500).unwrap();
    assert_eq!(s.pending_rewards, 800);
    assert_eq!(s.staked_nfts, 2);
    assert_eq!(s.last_update_timestamp, 500);
}

#[test]
fn second_claim_right_away_changes_nothing() {
    let mut v = new_vault(10, 0);
    let mut s = UserStakeAccount::new(id(USER));
    stake_nft(&mut v, &mut s, id(USER), &item(10), 0).unwrap();
    claim_rewards(&mut v, &mut s, id(USER), id(VAULT), &vault_mint(), 600).unwrap();
    let (v1, s1) = (v, s);
    let r = claim_rewards(&mut v, &mut s, id(USER), id(VAULT), &vault_mint(), 600);
    assert_eq!(r, Err(ErrorCode::TooFrequentClaim));
    assert_eq!((v, s), (v1, s1));
}

#[test]
fn claim_with_nothing_staked_or_pending_fails() {
    let mut v = new_vault(10, 0);
    let mut s = UserStakeAccount::new(id(USER));
    let (v0, s0) = (v, s);
    let r = claim_rewards(&mut v, &mut s, id(USER), id(VAULT), &vault_mint(), 100);
    assert_eq!(r, Err(ErrorCode::NoRewardsToClaim));
    assert_eq!((v, s), (v0, s0));
}

#[test]
fn stake_guards_item_and_collection() {
    let mut v = new_vault(10, 0);
    let mut s = UserStakeAccount::new(id(USER));
    let mut bad = item(10);
    bad.decimals = 1;
    assert_eq!(stake_nft(&mut v, &mut s, id(USER), &bad, 5), Err(ErrorCode::InvalidNft));
    let mut bad = item(10);
    bad.holder_amount = 2;
    assert_eq!(stake_nft(&mut v, &mut s, id(USER), &bad, 5), Err(ErrorCode::InvalidNft));
    let mut bad = item(10);
    bad.collection = None;
    assert_eq!(stake_nft(&mut v, &mut s, id(USER), &bad, 5), Err(ErrorCode::NoCollectionFound));
    let mut bad = item(10);
    bad.collection = Some(CollectionInfo { key: id(COLLECTION), verified: false });
    assert_eq!(stake_nft(&mut v, &mut s, id(USER), &bad, 5), Err(ErrorCode::CollectionNotVerified));
    let mut bad = item(10);
    bad.collection = Some(CollectionInfo { key: id(9), verified: true });
    assert_eq!(stake_nft(&mut v, &mut s, id(USER), &bad, 5), Err(ErrorCode::WrongCollection));
    assert_eq!(s, UserStakeAccount::new(id(USER)));
    assert_eq!(v.total_staked, 0);
}

#[test]
fn stake_guards_vault_state() {
    let mut v = new_vault(10, 0);
    let mut s = UserStakeAccount::new(id(USER));
    assert_eq!(stake_nft(&mut v, &mut s, id(9), &item(10), 5), Err(ErrorCode::Unauthorized));
    v.paused = true;
    assert_eq!(stake_nft(&mut v, &mut s, id(USER), &item(10), 5), Err(ErrorCode::VaultPaused));
    v.paused = false;
    for _ in 0..10 {
        v.circuit_breaker.on_failure(5);
    }
    assert_eq!(stake_nft(&mut v, &mut s, id(USER), &item(10), 5), Err(ErrorCode::CircuitBreakerActive));
    assert!(stake_nft(&mut v, &mut s, id(USER), &item(10), 606).is_ok());
    assert_eq!(v.circuit_breaker.failure_count, 9);
}

#[test]
fn stake_respects_daily_quota_and_interval() {
    let mut v = new_vault(10, 0);
    v.daily_limit.max_stakes_per_day = 1;
    let mut s = UserStakeAccount::new(id(USER));
    stake_nft(&mut v, &mut s, id(USER), &item(10), 100).unwrap();
    assert_eq!(stake_nft(&mut v, &mut s, id(USER), &item(11), 1_000), Err(ErrorCode::DailyLimitExceeded));
    v.daily_limit.max_stakes_per_day = 5;
    assert_eq!(stake_nft(&mut v, &mut s, id(USER), &item(11), 399), Err(ErrorCode::TooFrequent));
    assert!(stake_nft(&mut v, &mut s, id(USER), &item(11), 400).is_ok());
}

#[test]
fn relaxed_policy_allows_quick_operations() {
    let mut v = initialize_vault(id(AUTHORITY), id(REWARD_MINT), 1, id(COLLECTION), 1, StakingPolicy::relaxed(), 0)
        .unwrap();
    let mut s = UserStakeAccount::new(id(USER));
    stake_nft(&mut v, &mut s, id(USER), &item(10), 10).unwrap();
    assert!(stake_nft(&mut v, &mut s, id(USER), &item(11), 11).is_ok());
    assert!(unstake_nft(&mut v, &mut s, id(USER), id(11), 12).is_ok());
    assert!(unstake_nft(&mut v, &mut s, id(USER), id(10), 12 + 2_592_000).is_ok());
}

#[test]
fn stake_count_overflow() {
    let mut v = new_vault(1, 0);
    let mut s = UserStakeAccount::new(id(USER));
    v.total_staked = u32::MAX;
    assert_eq!(stake_nft(&mut v, &mut s, id(USER), &item(10), 5), Err(ErrorCode::MathOverflow));
}

#[test]
fn unstake_guards() {
    let mut v = new_vault(1, 0);
    let mut s = UserStakeAccount::new(id(USER));
    assert_eq!(unstake_nft(&mut v, &mut s, id(USER), id(10), 1_000), Err(ErrorCode::NoNftsStaked));
    stake_nft(&mut v, &mut s, id(USER), &item(10), 1_000).unwrap();
    assert_eq!(unstake_nft(&mut v, &mut s, id(USER), id(10), 1_299), Err(ErrorCode::TooFrequent));
    assert_eq!(unstake_nft(&mut v, &mut s, id(USER), id(10), 1_000 + 172_801), Err(ErrorCode::InvalidTimeElapsed));
    assert_eq!(unstake_nft(&mut v, &mut s, id(9), id(10), 2_000), Err(ErrorCode::Unauthorized));
    v.total_staked = 0;
    assert_eq!(unstake_nft(&mut v, &mut s, id(USER), id(10), 2_000), Err(ErrorCode::MathUnderflow));
    v.total_staked = 1;
    v.paused = true;
    assert_eq!(unstake_nft(&mut v, &mut s, id(USER), id(10), 2_000), Err(ErrorCode::VaultPaused));
}

#[test]
fn claim_caps() {
    let mut v = new_vault(1, 0);
    let mut s = UserStakeAccount::new(id(USER));
    stake_nft(&mut v, &mut s, id(USER), &item(10), 0).unwrap();
    s.pending_rewards = 90_000;
    assert_eq!(
        claim_rewards(&mut v, &mut s, id(USER), id(VAULT), &vault_mint(), 100),
        Err(ErrorCode::ExcessiveRewardClaim)
    );
    s.pending_rewards = 500;
    assert_eq!(
        claim_rewards(&mut v, &mut s, id(USER), id(VAULT), &vault_mint(), 100),
        Err(ErrorCode::ExcessiveRewardClaim)
    );
    s.pending_rewards = 0;
    assert_eq!(
        claim_rewards(&mut v, &mut s, id(USER), id(VAULT), &vault_mint(), 30),
        Err(ErrorCode::TooFrequentClaim)
    );
    assert_eq!(
        claim_rewards(&mut v, &mut s, id(USER), id(VAULT), &mint_bytes(1, AUTHORITY, 1), 100),
        Err(ErrorCode::InvalidMintAuthority)
    );
    assert_eq!(
        claim_rewards(&mut v, &mut s, id(USER), id(VAULT), &mint_bytes(1, VAULT, 0), 100),
        Err(ErrorCode::InvalidMintAccount)
    );
    v.daily_limit.max_total_rewards_per_day = 99;
    assert_eq!(
        claim_rewards(&mut v, &mut s, id(USER), id(VAULT), &vault_mint(), 100),
        Err(ErrorCode::DailyLimitExceeded)
    );
    v.daily_limit.max_total_rewards_per_day = 100;
    assert_eq!(
        claim_rewards(&mut v, &mut s, id(USER), id(VAULT), &vault_mint(), 100),
        Ok(RewardsClaimed { user: id(USER), amount: 100, timestamp: 100 })
    );
}

#[test]
fn claim_overflow_and_guards() {
    let mut v = new_vault(u64::MAX / 1_000, 0);
    v.daily_limit.max_total_rewards_per_day = u64::MAX;
    let mut s = UserStakeAccount::new(id(USER));
    stake_nft(&mut v, &mut s, id(USER), &item(10), 0).unwrap();
    assert_eq!(
        claim_rewards(&mut v, &mut s, id(USER), id(VAULT), &vault_mint(), 100),
        Err(ErrorCode::MathOverflow)
    );
    v.paused = true;
    assert_eq!(
        claim_rewards(&mut v, &mut s, id(USER), id(VAULT), &vault_mint(), 100),
        Err(ErrorCode::VaultPaused)
    );
    v.paused = false;
    for _ in 0..10 {
        v.circuit_breaker.on_failure(90);
    }
    assert_eq!(
        claim_rewards(&mut v, &mut s, id(USER), id(VAULT), &vault_mint(), 100),
        Err(ErrorCode::CircuitBreakerActive)
    );
}
