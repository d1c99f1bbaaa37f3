use vstd::prelude::*;
use crate::error::ErrorCode;
use crate::events::{RoleGranted, RoleRevoked};
use crate::identity::Identity;

verus! {

/// The privilege tiers of the access-control layer.
#[derive(Clone, Copy, Debug, PartialEq, Eq, Structural)]
pub enum Role {
    SuperAdmin,
    Admin,
    Moderator,
    Operator,
}

/// The privileged actions, each checked by its own predicate.
#[derive(Clone, Copy, Debug, PartialEq, Eq, Structural)]
pub enum Capability {
    PauseVault,
    UpdateConfig,
    ManageRoles,
    ModerateUsers,
    ManageTreasury,
    ManageUpgrades,
}

/// The permission table: which role may perform which action.
pub open spec fn permits(role: Role, cap: Capability) -> bool {
    match cap {
        Capability::PauseVault | Capability::ModerateUsers => {
            role is SuperAdmin || role is Admin || role is Moderator
        },
        Capability::UpdateConfig | Capability::ManageTreasury | Capability::ManageUpgrades => {
            role is SuperAdmin || role is Admin
        },
        Capability::ManageRoles => role is SuperAdmin,
    }
}

impl Role {
    pub fn can_pause_vault(&self) -> (r: bool)
        ensures
            r == permits(*self, Capability::PauseVault),
    {
        matches!(self, Role::SuperAdmin | Role::Admin | Role::Moderator)
    }

    pub fn can_update_config(&self) -> (r: bool)
        ensures
            r == permits(*self, Capability::UpdateConfig),
    {
        matches!(self, Role::SuperAdmin | Role::Admin)
    }

    pub fn can_manage_roles(&self) -> (r: bool)
        ensures
            r == permits(*self, Capability::ManageRoles),
    {
        matches!(self, Role::SuperAdmin)
    }

    pub fn can_moderate_users(&self) -> (r: bool)
        ensures
            r == permits(*self, Capability::ModerateUsers),
    {
        matches!(self, Role::SuperAdmin | Role::Admin | Role::Moderator)
    }

    pub fn can_manage_treasury(&self) -> (r: bool)
        ensures
            r == permits(*self, Capability::ManageTreasury),
    {
        matches!(self, Role::SuperAdmin | Role::Admin)
    }

    pub fn can_manage_upgrades(&self) -> (r: bool)
        ensures
            r == permits(*self, Capability::ManageUpgrades),
    {
        matches!(self, Role::SuperAdmin | Role::Admin)
    }
}

/// The role record of one identity. `role` is `None` when no role was ever
/// granted or the last grant was revoked: such a record authorizes nothing.
#[derive(Clone, Copy, Debug, PartialEq, Eq)]
pub struct AccountRole {
    pub user: Identity,
    pub role: Option<Role>,
    pub granted_by: Identity,
    pub granted_at: i64,
}

impl AccountRole {
    /// Whether the record authorizes `cap`.
    pub open spec fn grants(self, cap: Capability) -> bool {
        match self.role {
            Some(role) => permits(role, cap),
            None => false,
        }
    }

    /// A record of `user` that holds no role.
    pub fn empty(user: Identity) -> (r: AccountRole)
        ensures
            r.user == user,
            r.role is None,
            r.granted_by == user,
            r.granted_at == 0,
    {
        AccountRole { user, role: None, granted_by: user, granted_at: 0 }
    }
}

/// The outcome of presenting `record` as the role of `signer` for `cap`.
pub open spec fn spec_authorize(signer: Identity, record: AccountRole, cap: Capability) -> Result<(), ErrorCode> {
    if record.user != signer {
        Err(ErrorCode::Unauthorized)
    } else if !record.grants(cap) {
        Err(ErrorCode::InsufficientPermissions)
    } else {
        Ok(())
    }
}

/// Checks that `record` is the role record of `signer` and that it authorizes `cap`.
pub fn authorize(signer: Identity, record: &AccountRole, cap: Capability) -> (r: Result<(), ErrorCode>)
    ensures
        r == spec_authorize(signer, *record, cap),
{
    if record.user != signer {
        return Err(ErrorCode::Unauthorized);
    }
    let allowed = match record.role {
        None => false,
        Some(role) => match cap {
            Capability::PauseVault => role.can_pause_vault(),
            Capability::UpdateConfig => role.can_update_config(),
            Capability::ManageRoles => role.can_manage_roles(),
            Capability::ModerateUsers => role.can_moderate_users(),
            Capability::ManageTreasury => role.can_manage_treasury(),
            Capability::ManageUpgrades => role.can_manage_upgrades(),
        },
    };
    if !allowed {
        return Err(ErrorCode::InsufficientPermissions);
    }
    Ok(())
}

/// Grants `role` to `user`, creating or overwriting the record `user_role`.
/// Only a signer whose own record allows managing roles may do so.
pub fn grant_role(
    granter: Identity,
    granter_role: &AccountRole,
    user_role: &mut AccountRole,
    user: Identity,
    role: Role,
    now: i64,
) -> (r: Result<RoleGranted, ErrorCode>)
    ensures
        match spec_authorize(granter, *granter_role, Capability::ManageRoles) {
            Err(e) => r == Err::<RoleGranted, ErrorCode>(e) && *final(user_role) == *old(user_role),
            Ok(_) => {
                &&& *final(user_role) == (AccountRole {
                    user,
                    role: Some(role),
                    granted_by: granter,
                    granted_at: now,
                })
                &&& r == Ok::<RoleGranted, ErrorCode>(RoleGranted { user, role, granted_by: granter, timestamp: now })
            },
        },
{
    authorize(granter, granter_role, Capability::ManageRoles)?;
    *user_role = AccountRole { user, role: Some(role), granted_by: granter, granted_at: now };
    Ok(RoleGranted { user, role, granted_by: granter, timestamp: now })
}

/// Revokes the role held in `user_role`: afterwards it authorizes nothing.
/// Only a signer whose own record allows managing roles may do so.
pub fn revoke_role(
    revoker: Identity,
    revoker_role: &AccountRole,
    user_role: &mut AccountRole,
    now: i64,
) -> (r: Result<RoleRevoked, ErrorCode>)
    ensures
        match spec_authorize(revoker, *revoker_role, Capability::ManageRoles) {
            Err(e) => r == Err::<RoleRevoked, ErrorCode>(e) && *final(user_role) == *old(user_role),
            Ok(_) => {
                &&& *final(user_role) == (AccountRole { role: None, ..*old(user_role) })
                &&& r == Ok::<RoleRevoked, ErrorCode>(RoleRevoked {
                    user: old(user_role).user,
                    revoked_by: revoker,
                    timestamp: now,
                })
            },
        },
{
    authorize(revoker, revoker_role, Capability::ManageRoles)?;
    user_role.role = None;
    Ok(RoleRevoked { user: user_role.user, revoked_by: revoker, timestamp: now })
}

/// Only a super-admin may grant roles: an operator is refused, and once a
/// super-admin has granted a role, the record of its holder authorizes exactly
/// what the permission table gives that role.
pub proof fn lemma_role_gating(granter: Identity, granter_record: AccountRole, role: Role, user: Identity, now: i64, cap: Capability)
    ensures
        granter_record.user == granter && granter_record.role == Some(Role::Operator)
            ==> spec_authorize(granter, granter_record, Capability::ManageRoles)
                == Err::<(), ErrorCode>(ErrorCode::InsufficientPermissions),
        granter_record.user == granter && granter_record.role == Some(Role::SuperAdmin)
            ==> spec_authorize(granter, granter_record, Capability::ManageRoles) is Ok,
        (AccountRole { user, role: Some(role), granted_by: granter, granted_at: now }).grants(cap)
            == permits(role, cap),
        spec_authorize(user, AccountRole { user, role: Some(role), granted_by: granter, granted_at: now }, cap)
            is Ok <==> permits(role, cap),
{
}

} // verus!
