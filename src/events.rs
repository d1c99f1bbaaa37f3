use vstd::prelude::*;
use crate::identity::Identity;
use crate::roles::Role;

verus! {

/// One item moved from `user` into the vault's custody.
#[derive(Clone, Copy, Debug, PartialEq, Eq)]
pub struct NftStaked {
    pub user: Identity,
    pub nft_mint: Identity,
    pub timestamp: i64,
}

/// One item moved from the vault's custody back to `user`.
#[derive(Clone, Copy, Debug, PartialEq, Eq)]
pub struct NftUnstaked {
    pub user: Identity,
    pub nft_mint: Identity,
    pub timestamp: i64,
}

/// `amount` new reward units minted to `user`.
#[derive(Clone, Copy, Debug, PartialEq, Eq)]
pub struct RewardsClaimed {
    pub user: Identity,
    pub amount: u64,
    pub timestamp: i64,
}

#[derive(Clone, Copy, Debug, PartialEq, Eq)]
pub struct VaultPaused {
    pub authority: Identity,
    pub timestamp: i64,
}

#[derive(Clone, Copy, Debug, PartialEq, Eq)]
pub struct VaultUnpaused {
    pub authority: Identity,
    pub timestamp: i64,
}

#[derive(Clone, Copy, Debug, PartialEq, Eq)]
pub struct RoleGranted {
    pub user: Identity,
    pub role: Role,
    pub granted_by: Identity,
    pub timestamp: i64,
}

#[derive(Clone, Copy, Debug, PartialEq, Eq)]
pub struct RoleRevoked {
    pub user: Identity,
    pub revoked_by: Identity,
    pub timestamp: i64,
}

#[derive(Clone, Copy, Debug, PartialEq, Eq)]
pub struct UpgradeProposed {
    pub new_version: u32,
    pub scheduled_timestamp: i64,
    pub proposer: Identity,
    pub timestamp: i64,
}

#[derive(Clone, Copy, Debug, PartialEq, Eq)]
pub struct UpgradeExecuted {
    pub new_version: u32,
    pub executor: Identity,
    pub timestamp: i64,
}

#[derive(Clone, Copy, Debug, PartialEq, Eq)]
pub struct UpgradeCancelled {
    pub cancelled_by: Identity,
    pub timestamp: i64,
}

#[derive(Clone, Copy, Debug, PartialEq, Eq)]
pub struct UpgradesLocked {
    pub locked_by: Identity,
    pub timestamp: i64,
}

#[derive(Clone, Copy, Debug, PartialEq, Eq)]
pub struct ConfigUpdated {
    pub updated_by: Identity,
    pub timestamp: i64,
}

} // verus!
