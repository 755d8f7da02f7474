//! Authorization collaborator: stores the administrator identity and role
//! grants, and answers capability checks for the policy and claims engines.
//!
//! Every mutating operation of the engines delegates its permission check
//! here, so the authorization logic exists in one place.

use vstd::prelude::*;
use std::collections::HashMap;
use crate::policy::Address;

verus! {

broadcast use vstd::std_specs::hash::group_hash_axioms;

/// Capabilities a principal can hold. `NoRole` is what an address without
/// any grant maps to.
#[derive(Clone, Copy, Debug, PartialEq, Eq, Structural)]
pub enum Role {
    NoRole,
    PolicyManager,
}

/// Errors of the authorization collaborator.
#[derive(Clone, Copy, Debug, PartialEq, Eq, Structural)]
pub enum AuthError {
    Unauthorized,
    InvalidRole,
    RoleNotFound,
    NotTrustedContract,
}

/// Role store: the administrator identity, the role grants, and the set of
/// contracts registered as trusted targets for cross-component calls.
pub struct AuthState {
    admin: Option<Address>,
    roles: HashMap<Address, Role>,
    trusted: HashMap<Address, bool>,
}

impl AuthState {
    /// The administrator identity, if one was installed.
    pub closed spec fn spec_admin(self) -> Option<Address> {
        self.admin
    }

    /// The map of explicit role grants.
    pub closed spec fn roles_map(self) -> Map<Address, Role> {
        self.roles@
    }

    /// The set of addresses registered as trusted contracts.
    pub closed spec fn trusted_set(self) -> Set<Address> {
        self.trusted@.dom()
    }

    /// The role a principal holds: its grant, or `NoRole` without one.
    pub open spec fn spec_role(self, address: Address) -> Role {
        if self.roles_map().contains_key(address) {
            self.roles_map()[address]
        } else {
            Role::NoRole
        }
    }

    /// The principal is the installed administrator.
    pub open spec fn is_admin(self, principal: Address) -> bool {
        self.spec_admin() == Some(principal)
    }

    /// The principal holds the policy-management capability.
    pub open spec fn is_policy_manager(self, principal: Address) -> bool {
        self.spec_role(principal) is PolicyManager
    }

    /// An empty role store: no administrator, no grants.
    pub fn new() -> (auth: AuthState)
        ensures
            auth.spec_admin() is None,
            auth.roles_map() == Map::<Address, Role>::empty(),
            auth.trusted_set() == Set::<Address>::empty(),
    {
        AuthState { admin: None, roles: HashMap::new(), trusted: HashMap::new() }
    }
}

/// The two role stores hold the same administrator, grants and trusted
/// registrations.
pub open spec fn same_auth(a: AuthState, b: AuthState) -> bool {
    &&& a.spec_admin() == b.spec_admin()
    &&& a.roles_map() == b.roles_map()
    &&& a.trusted_set() == b.trusted_set()
}

/// Installs `admin` as the administrator, replacing any earlier identity.
/// Grants and trusted registrations are untouched.
pub fn initialize_admin(auth: &mut AuthState, admin: Address)
    ensures
        final(auth).spec_admin() == Some(admin),
        final(auth).roles_map() == old(auth).roles_map(),
        final(auth).trusted_set() == old(auth).trusted_set(),
{
    auth.admin = Some(admin);
}

/// The administrator identity, if one was installed.
pub fn get_admin(auth: &AuthState) -> (r: Option<Address>)
    ensures
        r == auth.spec_admin(),
{
    auth.admin
}

/// Capability check: succeeds exactly when `principal` is the installed
/// administrator.
pub fn require_admin(auth: &AuthState, principal: Address) -> (r: Result<(), AuthError>)
    ensures
        r is Ok <==> auth.is_admin(principal),
        r is Err ==> r == Err::<(), AuthError>(AuthError::Unauthorized),
{
    match auth.admin {
        Some(admin) => {
            if admin == principal {
                Ok(())
            } else {
                Err(AuthError::Unauthorized)
            }
        },
        None => Err(AuthError::Unauthorized),
    }
}

/// Capability check: succeeds exactly when `principal` holds the
/// Policy-Manager role.
pub fn require_policy_management(auth: &AuthState, principal: Address) -> (r: Result<
    (),
    AuthError,
>)
    ensures
        r is Ok <==> auth.is_policy_manager(principal),
        r is Err ==> r == Err::<(), AuthError>(AuthError::Unauthorized),
{
    match auth.roles.get(&principal) {
        Some(role) => {
            if *role == Role::PolicyManager {
                Ok(())
            } else {
                Err(AuthError::Unauthorized)
            }
        },
        None => Err(AuthError::Unauthorized),
    }
}

/// The role `principal` holds: its grant, or `NoRole` without one.
pub fn get_role(auth: &AuthState, principal: Address) -> (r: Role)
    ensures
        r == auth.spec_role(principal),
{
    match auth.roles.get(&principal) {
        Some(role) => *role,
        None => Role::NoRole,
    }
}

/// Administrator-gated: grants `role` to `user`. Granting `NoRole` is
/// rejected as `InvalidRole`; a failed call leaves the store unchanged.
pub fn grant_role(auth: &mut AuthState, caller: Address, user: Address, role: Role) -> (r: Result<
    (),
    AuthError,
>)
    ensures
        !old(auth).is_admin(caller) ==> {
            &&& r == Err::<(), AuthError>(AuthError::Unauthorized)
            &&& final(auth).spec_admin() == old(auth).spec_admin()
            &&& final(auth).roles_map() == old(auth).roles_map()
            &&& final(auth).trusted_set() == old(auth).trusted_set()
        },
        old(auth).is_admin(caller) && role is NoRole ==> {
            &&& r == Err::<(), AuthError>(AuthError::InvalidRole)
            &&& final(auth).spec_admin() == old(auth).spec_admin()
            &&& final(auth).roles_map() == old(auth).roles_map()
            &&& final(auth).trusted_set() == old(auth).trusted_set()
        },
        old(auth).is_admin(caller) && !(role is NoRole) ==> {
            &&& r == Ok::<(), AuthError>(())
            &&& final(auth).spec_admin() == old(auth).spec_admin()
            &&& final(auth).roles_map() == old(auth).roles_map().insert(user, role)
            &&& final(auth).trusted_set() == old(auth).trusted_set()
        },
{
    if let Err(e) = require_admin(auth, caller) {
        return Err(e);
    }
    if role == Role::NoRole {
        return Err(AuthError::InvalidRole);
    }
    auth.roles.insert(user, role);
    Ok(())
}

/// Administrator-gated: removes `user`'s grant. Revoking an address without
/// a grant fails with `RoleNotFound`; a failed call leaves the store
/// unchanged.
pub fn revoke_role(auth: &mut AuthState, caller: Address, user: Address) -> (r: Result<
    (),
    AuthError,
>)
    ensures
        !old(auth).is_admin(caller) ==> {
            &&& r == Err::<(), AuthError>(AuthError::Unauthorized)
            &&& final(auth).spec_admin() == old(auth).spec_admin()
            &&& final(auth).roles_map() == old(auth).roles_map()
            &&& final(auth).trusted_set() == old(auth).trusted_set()
        },
        old(auth).is_admin(caller) && !old(auth).roles_map().contains_key(user) ==> {
            &&& r == Err::<(), AuthError>(AuthError::RoleNotFound)
            &&& final(auth).spec_admin() == old(auth).spec_admin()
            &&& final(auth).roles_map() == old(auth).roles_map()
            &&& final(auth).trusted_set() == old(auth).trusted_set()
        },
        old(auth).is_admin(caller) && old(auth).roles_map().contains_key(user) ==> {
            &&& r == Ok::<(), AuthError>(())
            &&& final(auth).spec_admin() == old(auth).spec_admin()
            &&& final(auth).roles_map() == old(auth).roles_map().remove(user)
            &&& final(auth).trusted_set() == old(auth).trusted_set()
        },
{
    if let Err(e) = require_admin(auth, caller) {
        return Err(e);
    }
    if !auth.roles.contains_key(&user) {
        return Err(AuthError::RoleNotFound);
    }
    auth.roles.remove(&user);
    Ok(())
}

/// Administrator-gated: registers `contract` as a trusted target for
/// cross-component calls.
pub fn register_trusted_contract(auth: &mut AuthState, caller: Address, contract: Address) -> (r:
    Result<(), AuthError>)
    ensures
        !old(auth).is_admin(caller) ==> {
            &&& r == Err::<(), AuthError>(AuthError::Unauthorized)
            &&& final(auth).spec_admin() == old(auth).spec_admin()
            &&& final(auth).roles_map() == old(auth).roles_map()
            &&& final(auth).trusted_set() == old(auth).trusted_set()
        },
        old(auth).is_admin(caller) ==> {
            &&& r == Ok::<(), AuthError>(())
            &&& final(auth).spec_admin() == old(auth).spec_admin()
            &&& final(auth).roles_map() == old(auth).roles_map()
            &&& final(auth).trusted_set() == old(auth).trusted_set().insert(contract)
        },
{
    if let Err(e) = require_admin(auth, caller) {
        return Err(e);
    }
    auth.trusted.insert(contract, true);
    Ok(())
}

/// Whether `contract` was registered as a trusted target.
pub fn is_trusted_contract(auth: &AuthState, contract: Address) -> (r: bool)
    ensures
        r == auth.trusted_set().contains(contract),
{
    auth.trusted.contains_key(&contract)
}

} // verus!
