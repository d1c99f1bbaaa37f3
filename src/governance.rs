use vstd::prelude::*;
use crate::error::ErrorCode;
use crate::events::{
    ConfigUpdated, UpgradeCancelled, UpgradeExecuted, UpgradeProposed, UpgradesLocked, VaultPaused,
    VaultUnpaused,
};
use crate::identity::Identity;
use crate::roles::{authorize, spec_authorize, AccountRole, Capability};
use crate::state::{PendingUpgrade, VaultAccount, MIN_UPGRADE_TIMELOCK};

verus! {

/// The effect of pausing (`pause` true) or unpausing the vault.
pub open spec fn spec_set_paused(vault: VaultAccount, signer: Identity, role: AccountRole, pause: bool) -> Result<VaultAccount, ErrorCode> {
    let auth = spec_authorize(signer, role, Capability::PauseVault);
    if pause && vault.paused {
        Err(ErrorCode::AlreadyPaused)
    } else if !pause && !vault.paused {
        Err(ErrorCode::NotPaused)
    } else if auth is Err {
        Err(auth->Err_0)
    } else {
        Ok(VaultAccount { paused: pause, ..vault })
    }
}

/// Pauses the vault; fails if it is already paused or the signer may not pause.
pub fn pause_vault(vault: &mut VaultAccount, authority: Identity, user_role: &AccountRole, now: i64) -> (r: Result<VaultPaused, ErrorCode>)
    ensures
        match spec_set_paused(*old(vault), authority, *user_role, true) {
            Ok(v) => *final(vault) == v && r == Ok::<VaultPaused, ErrorCode>(VaultPaused { authority, timestamp: now }),
            Err(e) => *final(vault) == *old(vault) && r == Err::<VaultPaused, ErrorCode>(e),
        },
{
    if vault.paused {
        return Err(ErrorCode::AlreadyPaused);
    }
    authorize(authority, user_role, Capability::PauseVault)?;
    vault.paused = true;
    Ok(VaultPaused { authority, timestamp: now })
}

/// Unpauses the vault; fails if it is not paused or the signer may not pause.
pub fn unpause_vault(vault: &mut VaultAccount, authority: Identity, user_role: &AccountRole, now: i64) -> (r: Result<VaultUnpaused, ErrorCode>)
    ensures
        match spec_set_paused(*old(vault), authority, *user_role, false) {
            Ok(v) => *final(vault) == v && r == Ok::<VaultUnpaused, ErrorCode>(VaultUnpaused { authority, timestamp: now }),
            Err(e) => *final(vault) == *old(vault) && r == Err::<VaultUnpaused, ErrorCode>(e),
        },
{
    if !vault.paused {
        return Err(ErrorCode::NotPaused);
    }
    authorize(authority, user_role, Capability::PauseVault)?;
    vault.paused = false;
    Ok(VaultUnpaused { authority, timestamp: now })
}

/// The effect of a configuration update.
pub open spec fn spec_update_config(
    vault: VaultAccount,
    signer: Identity,
    role: AccountRole,
    new_reward_rate: Option<u64>,
    new_collection_mint: Option<Identity>,
) -> Result<VaultAccount, ErrorCode> {
    let auth = spec_authorize(signer, role, Capability::UpdateConfig);
    if auth is Err {
        Err(auth->Err_0)
    } else if new_reward_rate == Some(0u64) {
        Err(ErrorCode::InvalidRewardRate)
    } else {
        Ok(VaultAccount {
            reward_rate_per_second: match new_reward_rate {
                Some(rate) => rate,
                None => vault.reward_rate_per_second,
            },
            collection_mint: match new_collection_mint {
                Some(mint) => mint,
                None => vault.collection_mint,
            },
            ..vault
        })
    }
}

/// Replaces the reward rate and/or the accepted collection. A zero rate is refused.
pub fn update_config(
    vault: &mut VaultAccount,
    updater: Identity,
    updater_role: &AccountRole,
    new_reward_rate: Option<u64>,
    new_collection_mint: Option<Identity>,
    now: i64,
) -> (r: Result<ConfigUpdated, ErrorCode>)
    ensures
        match spec_update_config(*old(vault), updater, *updater_role, new_reward_rate, new_collection_mint) {
            Ok(v) => *final(vault) == v && r == Ok::<ConfigUpdated, ErrorCode>(ConfigUpdated { updated_by: updater, timestamp: now }),
            Err(e) => *final(vault) == *old(vault) && r == Err::<ConfigUpdated, ErrorCode>(e),
        },
        old(vault).wf() ==> final(vault).wf(),
{
    authorize(updater, updater_role, Capability::UpdateConfig)?;
    if let Some(rate) = new_reward_rate {
        if rate == 0 {
            return Err(ErrorCode::InvalidRewardRate);
        }
    }
    if let Some(rate) = new_reward_rate {
        vault.reward_rate_per_second = rate;
    }
    if let Some(mint) = new_collection_mint {
        vault.collection_mint = mint;
    }
    Ok(ConfigUpdated { updated_by: updater, timestamp: now })
}

/// The effect of proposing `new_version` to take effect `timelock_seconds` after `now`.
pub open spec fn spec_propose(
    vault: VaultAccount,
    proposer: Identity,
    role: AccountRole,
    new_version: u32,
    timelock_seconds: i64,
    now: i64,
) -> Result<VaultAccount, ErrorCode> {
    let auth = spec_authorize(proposer, role, Capability::ManageUpgrades);
    if vault.upgrade_locked {
        Err(ErrorCode::UpgradesLocked)
    } else if vault.pending_upgrade is Some {
        Err(ErrorCode::UpgradePending)
    } else if auth is Err {
        Err(auth->Err_0)
    } else if new_version <= vault.version {
        Err(ErrorCode::InvalidVersion)
    } else if timelock_seconds < MIN_UPGRADE_TIMELOCK {
        Err(ErrorCode::InvalidTimelock)
    } else if now + timelock_seconds > i64::MAX {
        Err(ErrorCode::MathOverflow)
    } else {
        Ok(VaultAccount {
            pending_upgrade: Some(PendingUpgrade {
                new_version,
                scheduled_timestamp: (now + timelock_seconds) as i64,
                proposer,
            }),
            ..vault
        })
    }
}

/// Schedules an upgrade to `new_version` at `now + timelock_seconds`. Fails
/// when upgrades are locked, one is pending, the version does not grow, or the
/// timelock is under an hour.
pub fn propose_upgrade(
    vault: &mut VaultAccount,
    proposer: Identity,
    proposer_role: &AccountRole,
    new_version: u32,
    timelock_seconds: i64,
    now: i64,
) -> (r: Result<UpgradeProposed, ErrorCode>)
    ensures
        match spec_propose(*old(vault), proposer, *proposer_role, new_version, timelock_seconds, now) {
            Ok(v) => {
                &&& *final(vault) == v
                &&& r == Ok::<UpgradeProposed, ErrorCode>(UpgradeProposed {
                    new_version,
                    scheduled_timestamp: v.pending_upgrade->0.scheduled_timestamp,
                    proposer,
                    timestamp: now,
                })
            },
            Err(e) => *final(vault) == *old(vault) && r == Err::<UpgradeProposed, ErrorCode>(e),
        },
{
    if vault.upgrade_locked {
        return Err(ErrorCode::UpgradesLocked);
    }
    if vault.pending_upgrade.is_some() {
        return Err(ErrorCode::UpgradePending);
    }
    authorize(proposer, proposer_role, Capability::ManageUpgrades)?;
    if new_version <= vault.version {
        return Err(ErrorCode::InvalidVersion);
    }
    if timelock_seconds < MIN_UPGRADE_TIMELOCK {
        return Err(ErrorCode::InvalidTimelock);
    }
    let scheduled_timestamp = match now.checked_add(timelock_seconds) {
        Some(t) => t,
        None => return Err(ErrorCode::MathOverflow),
    };
    vault.pending_upgrade = Some(PendingUpgrade { new_version, scheduled_timestamp, proposer });
    Ok(UpgradeProposed { new_version, scheduled_timestamp, proposer, timestamp: now })
}

/// The effect of executing the pending upgrade at `now`.
pub open spec fn spec_execute(vault: VaultAccount, executor: Identity, role: AccountRole, now: i64) -> Result<VaultAccount, ErrorCode> {
    let auth = spec_authorize(executor, role, Capability::ManageUpgrades);
    if auth is Err {
        Err(auth->Err_0)
    } else if vault.pending_upgrade is None {
        Err(ErrorCode::NoUpgradePending)
    } else if now < vault.pending_upgrade->0.scheduled_timestamp {
        Err(ErrorCode::TimelockNotExpired)
    } else {
        Ok(VaultAccount { version: vault.pending_upgrade->0.new_version, pending_upgrade: None, ..vault })
    }
}

/// Applies the pending upgrade once its timelock has expired.
pub fn execute_upgrade(vault: &mut VaultAccount, executor: Identity, executor_role: &AccountRole, now: i64) -> (r: Result<UpgradeExecuted, ErrorCode>)
    ensures
        match spec_execute(*old(vault), executor, *executor_role, now) {
            Ok(v) => {
                &&& *final(vault) == v
                &&& r == Ok::<UpgradeExecuted, ErrorCode>(UpgradeExecuted { new_version: v.version, executor, timestamp: now })
            },
            Err(e) => *final(vault) == *old(vault) && r == Err::<UpgradeExecuted, ErrorCode>(e),
        },
{
    authorize(executor, executor_role, Capability::ManageUpgrades)?;
    let pending = match vault.pending_upgrade {
        Some(p) => p,
        None => return Err(ErrorCode::NoUpgradePending),
    };
    if now < pending.scheduled_timestamp {
        return Err(ErrorCode::TimelockNotExpired);
    }
    vault.version = pending.new_version;
    vault.pending_upgrade = None;
    Ok(UpgradeExecuted { new_version: vault.version, executor, timestamp: now })
}

/// The effect of cancelling the pending upgrade.
pub open spec fn spec_cancel(vault: VaultAccount, canceller: Identity, role: AccountRole) -> Result<VaultAccount, ErrorCode> {
    let auth = spec_authorize(canceller, role, Capability::ManageUpgrades);
    if auth is Err {
        Err(auth->Err_0)
    } else if vault.pending_upgrade is None {
        Err(ErrorCode::NoUpgradePending)
    } else {
        Ok(VaultAccount { pending_upgrade: None, ..vault })
    }
}

/// Drops the pending upgrade.
pub fn cancel_upgrade(vault: &mut VaultAccount, canceller: Identity, canceller_role: &AccountRole, now: i64) -> (r: Result<UpgradeCancelled, ErrorCode>)
    ensures
        match spec_cancel(*old(vault), canceller, *canceller_role) {
            Ok(v) => *final(vault) == v && r == Ok::<UpgradeCancelled, ErrorCode>(UpgradeCancelled { cancelled_by: canceller, timestamp: now }),
            Err(e) => *final(vault) == *old(vault) && r == Err::<UpgradeCancelled, ErrorCode>(e),
        },
{
    authorize(canceller, canceller_role, Capability::ManageUpgrades)?;
    if vault.pending_upgrade.is_none() {
        return Err(ErrorCode::NoUpgradePending);
    }
    vault.pending_upgrade = None;
    Ok(UpgradeCancelled { cancelled_by: canceller, timestamp: now })
}

/// The effect of locking upgrades.
pub open spec fn spec_lock(vault: VaultAccount, locker: Identity, role: AccountRole) -> Result<VaultAccount, ErrorCode> {
    let auth = spec_authorize(locker, role, Capability::ManageUpgrades);
    if auth is Err {
        Err(auth->Err_0)
    } else if vault.upgrade_locked {
        Err(ErrorCode::UpgradesAlreadyLocked)
    } else {
        Ok(VaultAccount { upgrade_locked: true, pending_upgrade: None, ..vault })
    }
}

/// Locks upgrades for good and drops any pending proposal. There is no unlock.
pub fn lock_upgrades(vault: &mut VaultAccount, locker: Identity, locker_role: &AccountRole, now: i64) -> (r: Result<UpgradesLocked, ErrorCode>)
    ensures
        match spec_lock(*old(vault), locker, *locker_role) {
            Ok(v) => *final(vault) == v && r == Ok::<UpgradesLocked, ErrorCode>(UpgradesLocked { locked_by: locker, timestamp: now }),
            Err(e) => *final(vault) == *old(vault) && r == Err::<UpgradesLocked, ErrorCode>(e),
        },
{
    authorize(locker, locker_role, Capability::ManageUpgrades)?;
    if vault.upgrade_locked {
        return Err(ErrorCode::UpgradesAlreadyLocked);
    }
    vault.upgrade_locked = true;
    vault.pending_upgrade = None;
    Ok(UpgradesLocked { locked_by: locker, timestamp: now })
}

/// Upgrade timelock: a proposal of the next version with the minimum timelock
/// cannot be executed before the timelock has expired, and succeeds from that
/// instant on, setting the new version. Once upgrades are locked, every
/// proposal is refused, and no governance operation unlocks them.
pub proof fn lemma_upgrade_timelock(
    v0: VaultAccount,
    admin: Identity,
    role: AccountRole,
    t: i64,
    t_exec: i64,
)
    requires
        spec_authorize(admin, role, Capability::ManageUpgrades) is Ok,
        !v0.upgrade_locked,
        v0.pending_upgrade is None,
        v0.version < u32::MAX,
        t + MIN_UPGRADE_TIMELOCK <= i64::MAX,
    ensures
        spec_propose(v0, admin, role, (v0.version + 1) as u32, MIN_UPGRADE_TIMELOCK, t) is Ok,
        ({
            let v1 = spec_propose(v0, admin, role, (v0.version + 1) as u32, MIN_UPGRADE_TIMELOCK, t)->Ok_0;
            &&& t_exec < t + MIN_UPGRADE_TIMELOCK ==> spec_execute(v1, admin, role, t_exec)
                == Err::<VaultAccount, ErrorCode>(ErrorCode::TimelockNotExpired)
            &&& t_exec >= t + MIN_UPGRADE_TIMELOCK ==> (spec_execute(v1, admin, role, t_exec) matches Ok(v2)
                && v2.version == v0.version + 1 && v2.pending_upgrade is None)
        }),
{
}

/// Locking is permanent: a locked vault refuses every proposal, and no
/// governance operation clears the lock.
pub proof fn lemma_lock_is_permanent(
    vault: VaultAccount,
    signer: Identity,
    role: AccountRole,
    new_version: u32,
    timelock_seconds: i64,
    now: i64,
    pause: bool,
    new_reward_rate: Option<u64>,
    new_collection_mint: Option<Identity>,
)
    ensures
        spec_lock(vault, signer, role) matches Ok(v) ==> v.upgrade_locked,
        vault.upgrade_locked ==> {
            &&& spec_propose(vault, signer, role, new_version, timelock_seconds, now)
                == Err::<VaultAccount, ErrorCode>(ErrorCode::UpgradesLocked)
            &&& spec_execute(vault, signer, role, now) matches Ok(v) ==> v.upgrade_locked
            &&& spec_cancel(vault, signer, role) matches Ok(v) ==> v.upgrade_locked
            &&& spec_set_paused(vault, signer, role, pause) matches Ok(v) ==> v.upgrade_locked
            &&& spec_update_config(vault, signer, role, new_reward_rate, new_collection_mint) matches Ok(v)
                ==> v.upgrade_locked
        },
{
}

} // verus!
