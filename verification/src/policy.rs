//! Policy lifecycle engine: issuance of coverage contracts and their closed
//! state graph `Active -> {Expired, Cancelled}`, with both target states
//! terminal.

use vstd::prelude::*;
use std::collections::HashMap;
use crate::authorization::{AuthState, AuthError, Role, same_auth};
use crate::authorization::{
    get_admin as auth_get_admin, get_role as auth_get_role, grant_role, initialize_admin,
    register_trusted_contract, require_admin, require_policy_management, revoke_role,
};

verus! {

broadcast use vstd::std_specs::hash::group_hash_axioms;

/// Principals and component references are ledger identities, modelled as
/// plain numeric identifiers.
pub type Address = u64;

/// Smallest coverage amount a policy may carry.
pub const MIN_COVERAGE_AMOUNT: i128 = 1_000_000;
/// Largest coverage amount a policy may carry.
pub const MAX_COVERAGE_AMOUNT: i128 = 1_000_000_000_000_000;
/// Smallest premium amount a policy may carry.
pub const MIN_PREMIUM_AMOUNT: i128 = 100_000;
/// Largest premium amount a policy may carry.
pub const MAX_PREMIUM_AMOUNT: i128 = 100_000_000_000_000;
/// Shortest permitted policy duration, in days.
pub const MIN_POLICY_DURATION_DAYS: u32 = 1;
/// Longest permitted policy duration, in days.
pub const MAX_POLICY_DURATION_DAYS: u32 = 365;
/// Seconds in one day, used to derive a policy's end time.
pub const SECONDS_PER_DAY: u64 = 86400;

/// Lifecycle states of a policy. A closed enum: no other state is
/// representable.
#[derive(Clone, Copy, Debug, PartialEq, Eq, Structural)]
pub enum PolicyState {
    Active,
    Expired,
    Cancelled,
}

impl PolicyState {
    /// The closed transition graph of the policy lifecycle:
    /// `Active -> Expired`, `Active -> Cancelled`, and nothing else.
    /// `Expired` and `Cancelled` are terminal, and self-transitions are not
    /// allowed.
    pub open spec fn spec_can_transition_to(self, next: PolicyState) -> bool {
        match (self, next) {
            (PolicyState::Active, PolicyState::Expired) => true,
            (PolicyState::Active, PolicyState::Cancelled) => true,
            _ => false,
        }
    }

    /// Validates whether a transition from the current state to the next
    /// state is allowed.
    pub fn can_transition_to(self, next: PolicyState) -> (r: bool)
        ensures
            r == self.spec_can_transition_to(next),
    {
        match (self, next) {
            (PolicyState::Active, PolicyState::Expired) => true,
            (PolicyState::Active, PolicyState::Cancelled) => true,
            _ => false,
        }
    }
}

/// The transition graph in words: a transition is allowed exactly when it
/// leaves `Active` for `Expired` or `Cancelled`; in particular the terminal
/// states allow no transition at all.
pub proof fn lemma_policy_transition_graph(s: PolicyState, next: PolicyState)
    ensures
        s.spec_can_transition_to(next) <==> (s is Active && (next is Expired || next is Cancelled)),
        (s is Expired || s is Cancelled) ==> !s.spec_can_transition_to(next),
{
}

/// Domain errors of the policy state machine.
#[derive(Clone, Copy, Debug, PartialEq, Eq, Structural)]
pub enum PolicyError {
    /// Invalid state transition attempted
    InvalidStateTransition,
    /// Access denied for the requested operation
    AccessDenied,
    /// Policy not found
    NotFound,
    /// Invalid input parameters
    InvalidInput,
    /// Policy is in an invalid state for the requested operation
    InvalidState,
}

/// An underwritten coverage contract.
#[derive(Clone, Copy, Debug, PartialEq, Eq, Structural)]
pub struct Policy {
    pub holder: Address,
    pub coverage_amount: i128,
    pub premium_amount: i128,
    pub start_time: u64,
    pub end_time: u64,
    /// The lifecycle state. Mutate it only through the graph-checked
    /// transition methods; the registry itself never does otherwise.
    pub state: PolicyState,
    pub created_at: u64,
}

impl Policy {
    /// The current lifecycle state, for use in contracts.
    pub open spec fn spec_state(self) -> PolicyState {
        self.state
    }

    /// Creates a new policy in `Active` state.
    pub fn new(
        holder: Address,
        coverage_amount: i128,
        premium_amount: i128,
        start_time: u64,
        end_time: u64,
        created_at: u64,
    ) -> (p: Policy)
        ensures
            p == (Policy {
                holder,
                coverage_amount,
                premium_amount,
                start_time,
                end_time,
                state: PolicyState::Active,
                created_at,
            }),
    {
        Policy {
            holder,
            coverage_amount,
            premium_amount,
            start_time,
            end_time,
            state: PolicyState::Active,
            created_at,
        }
    }

    /// Returns the current state (read-only).
    pub fn state(&self) -> (s: PolicyState)
        ensures
            s == self.spec_state(),
    {
        self.state
    }

    /// Attempts to move the policy to `next`. Exactly the transitions of the
    /// closed graph succeed; every other request fails with
    /// `InvalidStateTransition` and leaves the policy unchanged.
    pub fn transition_to(&mut self, next: PolicyState) -> (r: Result<(), PolicyError>)
        ensures
            old(self).spec_state().spec_can_transition_to(next) ==> {
                &&& r == Ok::<(), PolicyError>(())
                &&& *final(self) == (Policy { state: next, ..*old(self) })
            },
            !old(self).spec_state().spec_can_transition_to(next) ==> {
                &&& r == Err::<(), PolicyError>(PolicyError::InvalidStateTransition)
                &&& *final(self) == *old(self)
            },
    {
        if !self.state.can_transition_to(next) {
            return Err(PolicyError::InvalidStateTransition);
        }
        self.state = next;
        Ok(())
    }

    /// Cancels the policy (only if `Active`).
    pub fn cancel(&mut self) -> (r: Result<(), PolicyError>)
        ensures
            old(self).spec_state() is Active ==> {
                &&& r == Ok::<(), PolicyError>(())
                &&& *final(self) == (Policy { state: PolicyState::Cancelled, ..*old(self) })
            },
            !(old(self).spec_state() is Active) ==> {
                &&& r == Err::<(), PolicyError>(PolicyError::InvalidStateTransition)
                &&& *final(self) == *old(self)
            },
    {
        self.transition_to(PolicyState::Cancelled)
    }

    /// Expires the policy (only if `Active`).
    pub fn expire(&mut self) -> (r: Result<(), PolicyError>)
        ensures
            old(self).spec_state() is Active ==> {
                &&& r == Ok::<(), PolicyError>(())
                &&& *final(self) == (Policy { state: PolicyState::Expired, ..*old(self) })
            },
            !(old(self).spec_state() is Active) ==> {
                &&& r == Err::<(), PolicyError>(PolicyError::InvalidStateTransition)
                &&& *final(self) == *old(self)
            },
    {
        self.transition_to(PolicyState::Expired)
    }

    /// Checks if the policy is active.
    pub fn is_active(&self) -> (r: bool)
        ensures
            r == (self.spec_state() is Active),
    {
        matches!(self.state, PolicyState::Active)
    }

    /// Checks if the policy is expired.
    pub fn is_expired(&self) -> (r: bool)
        ensures
            r == (self.spec_state() is Expired),
    {
        matches!(self.state, PolicyState::Expired)
    }

    /// Checks if the policy is cancelled.
    pub fn is_cancelled(&self) -> (r: bool)
        ensures
            r == (self.spec_state() is Cancelled),
    {
        matches!(self.state, PolicyState::Cancelled)
    }
}

/// Errors surfaced by the policy registry's operations.
#[derive(Clone, Copy, Debug, PartialEq, Eq, Structural)]
pub enum ContractError {
    Unauthorized,
    Paused,
    InvalidInput,
    InsufficientFunds,
    NotFound,
    AlreadyExists,
    InvalidState,
    Overflow,
    NotInitialized,
    AlreadyInitialized,
    InvalidRole,
    RoleNotFound,
    NotTrustedContract,
    InvalidPolicyState,
    InvalidAmount,
    InvalidPremium,
    Overflow2,
}

/// The closed policy transition graph as a predicate over a pair of states:
/// exactly `Active -> Expired` and `Active -> Cancelled` are valid.
pub open spec fn spec_is_valid_policy_state_transition(current: PolicyState, next: PolicyState) -> bool {
    current.spec_can_transition_to(next)
}

/// Validate a policy state transition against the closed graph:
/// `Active -> Expired` (time-based expiry) and `Active -> Cancelled` are
/// valid; everything else, including every move out of a terminal state, is
/// invalid.
pub fn is_valid_policy_state_transition(current: PolicyState, next: PolicyState) -> (r: bool)
    ensures
        r == spec_is_valid_policy_state_transition(current, next),
        r == current.spec_can_transition_to(next),
{
    match (current, next) {
        (PolicyState::Active, PolicyState::Expired) => true,
        (PolicyState::Active, PolicyState::Cancelled) => true,
        _ => false,
    }
}

/// The coverage amount lies within the protocol bounds.
pub open spec fn coverage_in_bounds(amount: i128) -> bool {
    MIN_COVERAGE_AMOUNT <= amount <= MAX_COVERAGE_AMOUNT
}

/// The premium amount lies within the protocol bounds.
pub open spec fn premium_in_bounds(premium: i128) -> bool {
    MIN_PREMIUM_AMOUNT <= premium <= MAX_PREMIUM_AMOUNT
}

/// The duration, in days, lies within the protocol bounds.
pub open spec fn duration_in_bounds(duration_days: u32) -> bool {
    MIN_POLICY_DURATION_DAYS <= duration_days <= MAX_POLICY_DURATION_DAYS
}

/// Validate coverage amount within bounds.
pub fn validate_coverage_amount(amount: i128) -> (r: Result<(), ContractError>)
    ensures
        r is Ok <==> coverage_in_bounds(amount),
        r is Err ==> r == Err::<(), ContractError>(ContractError::InvalidAmount),
{
    if amount < MIN_COVERAGE_AMOUNT || amount > MAX_COVERAGE_AMOUNT {
        return Err(ContractError::InvalidAmount);
    }
    Ok(())
}

/// Validate premium amount within bounds.
pub fn validate_premium_amount(premium: i128) -> (r: Result<(), ContractError>)
    ensures
        r is Ok <==> premium_in_bounds(premium),
        r is Err ==> r == Err::<(), ContractError>(ContractError::InvalidPremium),
{
    if premium < MIN_PREMIUM_AMOUNT || premium > MAX_PREMIUM_AMOUNT {
        return Err(ContractError::InvalidPremium);
    }
    Ok(())
}

/// Validate policy duration.
pub fn validate_duration(duration_days: u32) -> (r: Result<(), ContractError>)
    ensures
        r is Ok <==> duration_in_bounds(duration_days),
        r is Err ==> r == Err::<(), ContractError>(ContractError::InvalidInput),
{
    if duration_days < MIN_POLICY_DURATION_DAYS || duration_days > MAX_POLICY_DURATION_DAYS {
        return Err(ContractError::InvalidInput);
    }
    Ok(())
}

/// How an authorization failure maps onto the registry's error taxonomy.
pub open spec fn error_from_auth(err: AuthError) -> ContractError {
    match err {
        AuthError::Unauthorized => ContractError::Unauthorized,
        AuthError::InvalidRole => ContractError::InvalidRole,
        AuthError::RoleNotFound => ContractError::RoleNotFound,
        AuthError::NotTrustedContract => ContractError::NotTrustedContract,
    }
}

impl From<AuthError> for ContractError {
    /// Maps an authorization failure onto the registry's error taxonomy.
    fn from(err: AuthError) -> (r: ContractError) {
        match err {
            AuthError::Unauthorized => ContractError::Unauthorized,
            AuthError::InvalidRole => ContractError::InvalidRole,
            AuthError::RoleNotFound => ContractError::RoleNotFound,
            AuthError::NotTrustedContract => ContractError::NotTrustedContract,
        }
    }
}

impl vstd::std_specs::convert::FromSpecImpl<AuthError> for ContractError {
    open spec fn obeys_from_spec() -> bool {
        true
    }

    open spec fn from_spec(err: AuthError) -> ContractError {
        error_from_auth(err)
    }
}

/// Global configuration of the policy registry.
#[derive(Clone, Copy, Debug, PartialEq, Eq, Structural)]
pub struct Config {
    pub risk_pool: Address,
}

/// Events the policy registry appends to its observable log, one per
/// successful mutating operation.
#[derive(Clone, Copy, Debug, PartialEq, Eq, Structural)]
pub enum PolicyEvent {
    Initialized { admin: Address },
    PolicyIssued {
        policy_id: u64,
        holder: Address,
        coverage_amount: i128,
        premium_amount: i128,
        duration_days: u32,
        issuer: Address,
        timestamp: u64,
    },
    PolicyCancelled { policy_id: u64 },
    PolicyExpired { policy_id: u64 },
    Paused { admin: Address },
    Unpaused { admin: Address },
    RoleGranted { admin: Address, manager: Address },
    RoleRevoked { admin: Address, manager: Address },
}

/// A stored policy satisfies the protocol bounds and has a non-empty
/// validity window.
pub open spec fn policy_wf(p: Policy) -> bool {
    &&& coverage_in_bounds(p.coverage_amount)
    &&& premium_in_bounds(p.premium_amount)
    &&& p.end_time > p.start_time
}

/// The end timestamp a policy issued at `now` for `duration_days` would
/// carry, as an unbounded integer.
pub open spec fn end_time_of(now: u64, duration_days: u32) -> int {
    now + (duration_days as u64) * SECONDS_PER_DAY
}

/// The end timestamp fits the timestamp type.
pub open spec fn end_time_fits(now: u64, duration_days: u32) -> bool {
    end_time_of(now, duration_days) <= u64::MAX
}

/// The policy a successful issuance at `now` mints: the caller's terms, a
/// validity window starting at `now`, and state `Active`.
pub open spec fn issued_policy(
    holder: Address,
    coverage_amount: i128,
    premium_amount: i128,
    duration_days: u32,
    now: u64,
) -> Policy {
    Policy {
        holder,
        coverage_amount,
        premium_amount,
        start_time: now,
        end_time: end_time_of(now, duration_days) as u64,
        state: PolicyState::Active,
        created_at: now,
    }
}

/// Policy registry: owns every issued policy, keyed by a monotonically
/// increasing identifier, together with the pause flag, the configuration
/// and the role store.
pub struct PolicyContract {
    auth: AuthState,
    paused: bool,
    config: Option<Config>,
    counter: u64,
    policies: HashMap<u64, Policy>,
    events: Vec<PolicyEvent>,
}

/// The two registries hold the same state: role store, pause flag,
/// configuration, counter, policies and event log.
pub open spec fn same_state(a: PolicyContract, b: PolicyContract) -> bool {
    &&& same_auth(a.spec_auth(), b.spec_auth())
    &&& a.spec_paused() == b.spec_paused()
    &&& a.spec_config() == b.spec_config()
    &&& a.spec_counter() == b.spec_counter()
    &&& a.policies_map() == b.policies_map()
    &&& a.spec_events() == b.spec_events()
}

/// Well-formedness depends only on the policy map and the counter: a
/// registry agreeing with a well-formed one on both is well-formed.
proof fn lemma_wf_same(a: PolicyContract, b: PolicyContract)
    requires
        a.wf(),
        b.policies_map() == a.policies_map(),
        b.spec_counter() == a.spec_counter(),
    ensures
        b.wf(),
{
    assert forall|pid: u64|
        b.policies_map().contains_key(pid) <==> 1 <= pid <= b.spec_counter() by {
        assert(a.policies_map().contains_key(pid) <==> 1 <= pid <= a.spec_counter());
    }
    assert forall|pid: u64| b.policies_map().contains_key(pid) implies policy_wf(
        b.policies_map()[pid],
    ) by {
        assert(a.policies_map().contains_key(pid));
        assert(policy_wf(a.policies_map()[pid]));
    }
}

/// Replacing one stored policy with another well-formed one, under the same
/// identifier and counter, keeps the registry well-formed.
proof fn lemma_wf_insert(a: PolicyContract, b: PolicyContract, pid: u64, p: Policy)
    requires
        a.wf(),
        b.policies_map() == a.policies_map().insert(pid, p),
        b.spec_counter() == a.spec_counter(),
        1 <= pid <= a.spec_counter(),
        policy_wf(p),
    ensures
        b.wf(),
{
    assert forall|k: u64|
        b.policies_map().contains_key(k) <==> 1 <= k <= b.spec_counter() by {
        assert(a.policies_map().contains_key(k) <==> 1 <= k <= a.spec_counter());
    }
    assert forall|k: u64| b.policies_map().contains_key(k) implies policy_wf(
        b.policies_map()[k],
    ) by {
        if k != pid {
            assert(a.policies_map().contains_key(k));
            assert(policy_wf(a.policies_map()[k]));
        }
    }
}

impl PolicyContract {
    /// The role store.
    pub closed spec fn spec_auth(self) -> AuthState {
        self.auth
    }

    /// The global pause flag.
    pub closed spec fn spec_paused(self) -> bool {
        self.paused
    }

    /// The configuration, if the registry was initialized.
    pub closed spec fn spec_config(self) -> Option<Config> {
        self.config
    }

    /// How many policies were ever issued; also the highest identifier in
    /// use.
    pub closed spec fn spec_counter(self) -> u64 {
        self.counter
    }

    /// The issued policies, keyed by identifier.
    pub closed spec fn policies_map(self) -> Map<u64, Policy> {
        self.policies@
    }

    /// The event log.
    pub closed spec fn spec_events(self) -> Seq<PolicyEvent> {
        self.events@
    }

    /// Well-formedness: identifiers are exactly `1 ..= counter`, and every
    /// stored policy satisfies the protocol bounds.
    pub open spec fn wf(self) -> bool {
        &&& forall|pid: u64|
            #![trigger self.policies_map().contains_key(pid)]
            self.policies_map().contains_key(pid) <==> 1 <= pid <= self.spec_counter()
        &&& forall|pid: u64|
            #![trigger self.policies_map()[pid]]
            self.policies_map().contains_key(pid) ==> policy_wf(self.policies_map()[pid])
    }

    /// A fresh, uninitialized registry: no administrator, no policies, not
    /// paused.
    pub fn new() -> (registry: PolicyContract)
        ensures
            registry.wf(),
            registry.spec_auth().spec_admin() is None,
            registry.spec_auth().roles_map() == Map::<Address, Role>::empty(),
            registry.spec_auth().trusted_set() == Set::<Address>::empty(),
            !registry.spec_paused(),
            registry.spec_config() is None,
            registry.spec_counter() == 0,
            registry.policies_map() == Map::<u64, Policy>::empty(),
            registry.spec_events() == Seq::<PolicyEvent>::empty(),
    {
        PolicyContract {
            auth: AuthState::new(),
            paused: false,
            config: None,
            counter: 0,
            policies: HashMap::new(),
            events: Vec::new(),
        }
    }

    /// The event log, oldest first.
    pub fn events(&self) -> (r: &Vec<PolicyEvent>)
        ensures
            r@ == self.spec_events(),
    {
        &self.events
    }

    /// One-time setup: installs the administrator, registers the risk pool
    /// as a trusted contract and stores the configuration. A second call
    /// fails with `AlreadyInitialized` and changes nothing.
    pub fn initialize(&mut self, admin: Address, risk_pool: Address) -> (r: Result<
        (),
        ContractError,
    >)
        requires
            old(self).wf(),
        ensures
            final(self).wf(),
            old(self).spec_auth().spec_admin() is Some ==> {
                &&& r == Err::<(), ContractError>(ContractError::AlreadyInitialized)
                &&& same_state(*old(self), *final(self))
            },
            old(self).spec_auth().spec_admin() is None ==> {
                &&& r == Ok::<(), ContractError>(())
                &&& final(self).spec_auth().spec_admin() == Some(admin)
                &&& final(self).spec_auth().roles_map() == old(self).spec_auth().roles_map()
                &&& final(self).spec_auth().trusted_set() == old(self).spec_auth().trusted_set().insert(risk_pool)
                &&& final(self).spec_config() == Some(Config { risk_pool })
                &&& !final(self).spec_paused()
                &&& final(self).spec_counter() == old(self).spec_counter()
                &&& final(self).policies_map() == old(self).policies_map()
                &&& final(self).spec_events() == old(self).spec_events().push(
                    PolicyEvent::Initialized { admin },
                )
            },
    {
        if auth_get_admin(&self.auth).is_some() {
            return Err(ContractError::AlreadyInitialized);
        }
        initialize_admin(&mut self.auth, admin);
        let registered = register_trusted_contract(&mut self.auth, admin, risk_pool);
        if let Err(e) = registered {
            return Err(ContractError::from(e));
        }
        self.config = Some(Config { risk_pool });
        self.paused = false;
        self.events.push(PolicyEvent::Initialized { admin });
        proof {
            lemma_wf_same(*old(self), *self);
        }
        Ok(())
    }

    /// Every check of a policy issuance passes: the caller holds the
    /// Policy-Manager capability, the registry is not paused, the terms lie
    /// within the protocol bounds, and neither the end time nor the policy
    /// counter overflows.
    pub open spec fn issue_allowed(
        self,
        manager: Address,
        coverage_amount: i128,
        premium_amount: i128,
        duration_days: u32,
        now: u64,
    ) -> bool {
        &&& self.spec_auth().is_policy_manager(manager)
        &&& !self.spec_paused()
        &&& coverage_in_bounds(coverage_amount)
        &&& premium_in_bounds(premium_amount)
        &&& duration_in_bounds(duration_days)
        &&& end_time_fits(now, duration_days)
        &&& self.spec_counter() < u64::MAX
    }

    /// Issues a policy to `holder` with the given terms, effective at the
    /// ledger time `now`. Exactly the inputs of `issue_allowed` succeed; the
    /// ensures clauses below give each rejected input its error, in the
    /// order the checks are made. On success the next identifier is minted,
    /// the counter moves up by exactly one, and the new policy is `Active`
    /// with `end_time = now + duration_days * 86400`.
    pub fn issue_policy(
        &mut self,
        manager: Address,
        holder: Address,
        coverage_amount: i128,
        premium_amount: i128,
        duration_days: u32,
        now: u64,
    ) -> (r: Result<u64, ContractError>)
        requires
            old(self).wf(),
        ensures
            final(self).wf(),
            !old(self).spec_auth().is_policy_manager(manager) ==> {
                &&& r == Err::<u64, ContractError>(ContractError::Unauthorized)
                &&& same_state(*old(self), *final(self))
            },
            old(self).spec_auth().is_policy_manager(manager) && old(self).spec_paused() ==> {
                &&& r == Err::<u64, ContractError>(ContractError::Paused)
                &&& same_state(*old(self), *final(self))
            },
            old(self).spec_auth().is_policy_manager(manager) && !old(self).spec_paused()
                && !coverage_in_bounds(coverage_amount) ==> {
                &&& r == Err::<u64, ContractError>(ContractError::InvalidAmount)
                &&& same_state(*old(self), *final(self))
            },
            old(self).spec_auth().is_policy_manager(manager) && !old(self).spec_paused()
                && coverage_in_bounds(coverage_amount) && !premium_in_bounds(premium_amount) ==> {
                &&& r == Err::<u64, ContractError>(ContractError::InvalidPremium)
                &&& same_state(*old(self), *final(self))
            },
            old(self).spec_auth().is_policy_manager(manager) && !old(self).spec_paused()
                && coverage_in_bounds(coverage_amount) && premium_in_bounds(premium_amount)
                && !duration_in_bounds(duration_days) ==> {
                &&& r == Err::<u64, ContractError>(ContractError::InvalidInput)
                &&& same_state(*old(self), *final(self))
            },
            old(self).spec_auth().is_policy_manager(manager) && !old(self).spec_paused()
                && coverage_in_bounds(coverage_amount) && premium_in_bounds(premium_amount)
                && duration_in_bounds(duration_days) && !(end_time_fits(now, duration_days)
                && old(self).spec_counter() < u64::MAX) ==> {
                &&& r == Err::<u64, ContractError>(ContractError::Overflow)
                &&& same_state(*old(self), *final(self))
            },
            old(self).issue_allowed(manager, coverage_amount, premium_amount, duration_days, now)
                ==> {
                &&& r == Ok::<u64, ContractError>((old(self).spec_counter() + 1) as u64)
                &&& final(self).spec_counter() == old(self).spec_counter() + 1
                &&& final(self).policies_map() == old(self).policies_map().insert(
                    (old(self).spec_counter() + 1) as u64,
                    issued_policy(holder, coverage_amount, premium_amount, duration_days, now),
                )
                &&& final(self).spec_events() == old(self).spec_events().push(
                    PolicyEvent::PolicyIssued {
                        policy_id: (old(self).spec_counter() + 1) as u64,
                        holder,
                        coverage_amount,
                        premium_amount,
                        duration_days,
                        issuer: manager,
                        timestamp: now,
                    },
                )
                &&& same_auth(old(self).spec_auth(), final(self).spec_auth())
                &&& final(self).spec_paused() == old(self).spec_paused()
                &&& final(self).spec_config() == old(self).spec_config()
            },
    {
        if let Err(e) = require_policy_management(&self.auth, manager) {
            return Err(ContractError::from(e));
        }
        if self.paused {
            return Err(ContractError::Paused);
        }
        if let Err(e) = validate_coverage_amount(coverage_amount) {
            return Err(e);
        }
        if let Err(e) = validate_premium_amount(premium_amount) {
            return Err(e);
        }
        if let Err(e) = validate_duration(duration_days) {
            return Err(e);
        }
        let seconds: u64 = (duration_days as u64) * SECONDS_PER_DAY;
        if now > u64::MAX - seconds || self.counter == u64::MAX {
            return Err(ContractError::Overflow);
        }
        let end_time: u64 = now + seconds;
        let policy_id = self.next_policy_id();
        let policy = Policy::new(holder, coverage_amount, premium_amount, now, end_time, now);
        self.policies.insert(policy_id, policy);
        self.events.push(PolicyEvent::PolicyIssued {
            policy_id,
            holder,
            coverage_amount,
            premium_amount,
            duration_days,
            issuer: manager,
            timestamp: now,
        });
        proof {
            assert forall|pid: u64|
                self.policies_map().contains_key(pid) <==> 1 <= pid <= self.spec_counter() by {
                assert(old(self).policies_map().contains_key(pid) <==> 1 <= pid <= old(
                    self,
                ).spec_counter());
            }
            assert forall|pid: u64| self.policies_map().contains_key(pid) implies policy_wf(
                self.policies_map()[pid],
            ) by {
                if pid != policy_id {
                    assert(old(self).policies_map().contains_key(pid));
                    assert(policy_wf(old(self).policies_map()[pid]));
                }
            }
        }
        Ok(policy_id)
    }

    /// Allocates the next policy identifier from the monotonic counter,
    /// incrementing it exactly once.
    fn next_policy_id(&mut self) -> (policy_id: u64)
        requires
            old(self).counter < u64::MAX,
        ensures
            policy_id == old(self).spec_counter() + 1,
            final(self).spec_counter() == old(self).spec_counter() + 1,
            same_auth(old(self).spec_auth(), final(self).spec_auth()),
            final(self).spec_paused() == old(self).spec_paused(),
            final(self).spec_config() == old(self).spec_config(),
            final(self).policies_map() == old(self).policies_map(),
            final(self).spec_events() == old(self).spec_events(),
    {
        let next_id: u64 = self.counter + 1;
        self.counter = next_id;
        next_id
    }

    /// Pure lookup of a policy; no authorization check.
    pub fn get_policy(&self, policy_id: u64) -> (r: Result<Policy, ContractError>)
        ensures
            self.policies_map().contains_key(policy_id) ==> r == Ok::<Policy, ContractError>(
                self.policies_map()[policy_id],
            ),
            !self.policies_map().contains_key(policy_id) ==> r == Err::<Policy, ContractError>(
                ContractError::NotFound,
            ),
    {
        match self.policies.get(&policy_id) {
            Some(p) => Ok(*p),
            None => Err(ContractError::NotFound),
        }
    }

    /// Pure lookup of a policy's holder.
    pub fn get_policy_holder(&self, policy_id: u64) -> (r: Result<Address, ContractError>)
        ensures
            self.policies_map().contains_key(policy_id) ==> r == Ok::<Address, ContractError>(
                self.policies_map()[policy_id].holder,
            ),
            !self.policies_map().contains_key(policy_id) ==> r == Err::<Address, ContractError>(
                ContractError::NotFound,
            ),
    {
        match self.policies.get(&policy_id) {
            Some(p) => Ok(p.holder),
            None => Err(ContractError::NotFound),
        }
    }

    /// Pure lookup of a policy's coverage amount.
    pub fn get_coverage_amount(&self, policy_id: u64) -> (r: Result<i128, ContractError>)
        ensures
            self.policies_map().contains_key(policy_id) ==> r == Ok::<i128, ContractError>(
                self.policies_map()[policy_id].coverage_amount,
            ),
            !self.policies_map().contains_key(policy_id) ==> r == Err::<i128, ContractError>(
                ContractError::NotFound,
            ),
    {
        match self.policies.get(&policy_id) {
            Some(p) => Ok(p.coverage_amount),
            None => Err(ContractError::NotFound),
        }
    }

    /// Pure lookup of a policy's premium amount.
    pub fn get_premium_amount(&self, policy_id: u64) -> (r: Result<i128, ContractError>)
        ensures
            self.policies_map().contains_key(policy_id) ==> r == Ok::<i128, ContractError>(
                self.policies_map()[policy_id].premium_amount,
            ),
            !self.policies_map().contains_key(policy_id) ==> r == Err::<i128, ContractError>(
                ContractError::NotFound,
            ),
    {
        match self.policies.get(&policy_id) {
            Some(p) => Ok(p.premium_amount),
            None => Err(ContractError::NotFound),
        }
    }

    /// Pure lookup of a policy's lifecycle state.
    pub fn get_policy_state(&self, policy_id: u64) -> (r: Result<PolicyState, ContractError>)
        ensures
            self.policies_map().contains_key(policy_id) ==> r == Ok::<PolicyState, ContractError>(
                self.policies_map()[policy_id].spec_state(),
            ),
            !self.policies_map().contains_key(policy_id) ==> r == Err::<PolicyState, ContractError>(
                ContractError::NotFound,
            ),
    {
        match self.policies.get(&policy_id) {
            Some(p) => Ok(p.state()),
            None => Err(ContractError::NotFound),
        }
    }

    /// Pure lookup of a policy's validity window `(start_time, end_time)`.
    pub fn get_policy_dates(&self, policy_id: u64) -> (r: Result<(u64, u64), ContractError>)
        ensures
            self.policies_map().contains_key(policy_id) ==> r == Ok::<(u64, u64), ContractError>(
                (self.policies_map()[policy_id].start_time, self.policies_map()[policy_id].end_time),
            ),
            !self.policies_map().contains_key(policy_id) ==> r == Err::<(u64, u64), ContractError>(
                ContractError::NotFound,
            ),
    {
        match self.policies.get(&policy_id) {
            Some(p) => Ok((p.start_time, p.end_time)),
            None => Err(ContractError::NotFound),
        }
    }

    /// Administrator-gated: cancels an `Active` policy. Unknown identifiers
    /// fail with `NotFound`; a policy in a terminal state fails with
    /// `InvalidState` and is left untouched, so a second cancellation or
    /// expiry of the same policy always fails.
    pub fn cancel_policy(&mut self, caller: Address, policy_id: u64) -> (r: Result<
        (),
        ContractError,
    >)
        requires
            old(self).wf(),
        ensures
            final(self).wf(),
            !old(self).spec_auth().is_admin(caller) ==> {
                &&& r == Err::<(), ContractError>(ContractError::Unauthorized)
                &&& same_state(*old(self), *final(self))
            },
            old(self).spec_auth().is_admin(caller) && !old(self).policies_map().contains_key(
                policy_id,
            ) ==> {
                &&& r == Err::<(), ContractError>(ContractError::NotFound)
                &&& same_state(*old(self), *final(self))
            },
            old(self).spec_auth().is_admin(caller) && old(self).policies_map().contains_key(
                policy_id,
            ) && !(old(self).policies_map()[policy_id].spec_state() is Active) ==> {
                &&& r == Err::<(), ContractError>(ContractError::InvalidState)
                &&& same_state(*old(self), *final(self))
            },
            old(self).spec_auth().is_admin(caller) && old(self).policies_map().contains_key(
                policy_id,
            ) && old(self).policies_map()[policy_id].spec_state() is Active ==> {
                &&& r == Ok::<(), ContractError>(())
                &&& final(self).policies_map() == old(self).policies_map().insert(
                    policy_id,
                    Policy {
                        state: PolicyState::Cancelled,
                        ..old(self).policies_map()[policy_id]
                    },
                )
                &&& old(self).policies_map()[policy_id].spec_state().spec_can_transition_to(
                    final(self).policies_map()[policy_id].spec_state(),
                )
                &&& final(self).spec_events() == old(self).spec_events().push(
                    PolicyEvent::PolicyCancelled { policy_id },
                )
                &&& same_auth(old(self).spec_auth(), final(self).spec_auth())
                &&& final(self).spec_paused() == old(self).spec_paused()
                &&& final(self).spec_config() == old(self).spec_config()
                &&& final(self).spec_counter() == old(self).spec_counter()
            },
    {
        if let Err(e) = require_admin(&self.auth, caller) {
            return Err(ContractError::from(e));
        }
        let mut policy = match self.policies.get(&policy_id) {
            Some(p) => *p,
            None => {
                return Err(ContractError::NotFound);
            },
        };
        if policy.cancel().is_err() {
            return Err(ContractError::InvalidState);
        }
        self.policies.insert(policy_id, policy);
        self.events.push(PolicyEvent::PolicyCancelled { policy_id });
        proof {
            lemma_wf_insert(*old(self), *self, policy_id, policy);
        }
        Ok(())
    }

    /// Administrator-gated: expires an `Active` policy. The same guards as
    /// `cancel_policy` apply.
    pub fn expire_policy(&mut self, caller: Address, policy_id: u64) -> (r: Result<
        (),
        ContractError,
    >)
        requires
            old(self).wf(),
        ensures
            final(self).wf(),
            !old(self).spec_auth().is_admin(caller) ==> {
                &&& r == Err::<(), ContractError>(ContractError::Unauthorized)
                &&& same_state(*old(self), *final(self))
            },
            old(self).spec_auth().is_admin(caller) && !old(self).policies_map().contains_key(
                policy_id,
            ) ==> {
                &&& r == Err::<(), ContractError>(ContractError::NotFound)
                &&& same_state(*old(self), *final(self))
            },
            old(self).spec_auth().is_admin(caller) && old(self).policies_map().contains_key(
                policy_id,
            ) && !(old(self).policies_map()[policy_id].spec_state() is Active) ==> {
                &&& r == Err::<(), ContractError>(ContractError::InvalidState)
                &&& same_state(*old(self), *final(self))
            },
            old(self).spec_auth().is_admin(caller) && old(self).policies_map().contains_key(
                policy_id,
            ) && old(self).policies_map()[policy_id].spec_state() is Active ==> {
                &&& r == Ok::<(), ContractError>(())
                &&& final(self).policies_map() == old(self).policies_map().insert(
                    policy_id,
                    Policy { state: PolicyState::Expired, ..old(self).policies_map()[policy_id] },
                )
                &&& old(self).policies_map()[policy_id].spec_state().spec_can_transition_to(
                    final(self).policies_map()[policy_id].spec_state(),
                )
                &&& final(self).spec_events() == old(self).spec_events().push(
                    PolicyEvent::PolicyExpired { policy_id },
                )
                &&& same_auth(old(self).spec_auth(), final(self).spec_auth())
                &&& final(self).spec_paused() == old(self).spec_paused()
                &&& final(self).spec_config() == old(self).spec_config()
                &&& final(self).spec_counter() == old(self).spec_counter()
            },
    {
        if let Err(e) = require_admin(&self.auth, caller) {
            return Err(ContractError::from(e));
        }
        let mut policy = match self.policies.get(&policy_id) {
            Some(p) => *p,
            None => {
                return Err(ContractError::NotFound);
            },
        };
        if policy.expire().is_err() {
            return Err(ContractError::InvalidState);
        }
        self.policies.insert(policy_id, policy);
        self.events.push(PolicyEvent::PolicyExpired { policy_id });
        proof {
            lemma_wf_insert(*old(self), *self, policy_id, policy);
        }
        Ok(())
    }

    /// The administrator identity; `NotInitialized` before setup.
    pub fn get_admin(&self) -> (r: Result<Address, ContractError>)
        ensures
            self.spec_auth().spec_admin() is Some ==> r == Ok::<Address, ContractError>(
                self.spec_auth().spec_admin()->0,
            ),
            self.spec_auth().spec_admin() is None ==> r == Err::<Address, ContractError>(
                ContractError::NotInitialized,
            ),
    {
        match auth_get_admin(&self.auth) {
            Some(admin) => Ok(admin),
            None => Err(ContractError::NotInitialized),
        }
    }

    /// The configuration; `NotInitialized` before setup.
    pub fn get_config(&self) -> (r: Result<Config, ContractError>)
        ensures
            self.spec_config() is Some ==> r == Ok::<Config, ContractError>(self.spec_config()->0),
            self.spec_config() is None ==> r == Err::<Config, ContractError>(
                ContractError::NotInitialized,
            ),
    {
        match self.config {
            Some(config) => Ok(config),
            None => Err(ContractError::NotInitialized),
        }
    }

    /// The risk-pool reference from the configuration; `NotInitialized`
    /// before setup.
    pub fn get_risk_pool(&self) -> (r: Result<Address, ContractError>)
        ensures
            self.spec_config() is Some ==> r == Ok::<Address, ContractError>(
                self.spec_config()->0.risk_pool,
            ),
            self.spec_config() is None ==> r == Err::<Address, ContractError>(
                ContractError::NotInitialized,
            ),
    {
        match self.config {
            Some(config) => Ok(config.risk_pool),
            None => Err(ContractError::NotInitialized),
        }
    }

    /// How many policies were ever issued.
    pub fn get_policy_count(&self) -> (r: u64)
        ensures
            r == self.spec_counter(),
    {
        self.counter
    }

    /// Whether issuance is currently paused.
    pub fn is_paused(&self) -> (r: bool)
        ensures
            r == self.spec_paused(),
    {
        self.paused
    }

    /// Administrator-gated: sets the pause flag. Idempotent: pausing an
    /// already paused registry succeeds.
    pub fn pause(&mut self, admin: Address) -> (r: Result<(), ContractError>)
        requires
            old(self).wf(),
        ensures
            final(self).wf(),
            !old(self).spec_auth().is_admin(admin) ==> {
                &&& r == Err::<(), ContractError>(ContractError::Unauthorized)
                &&& same_state(*old(self), *final(self))
            },
            old(self).spec_auth().is_admin(admin) ==> {
                &&& r == Ok::<(), ContractError>(())
                &&& final(self).spec_paused()
                &&& final(self).spec_events() == old(self).spec_events().push(
                    PolicyEvent::Paused { admin },
                )
                &&& same_auth(old(self).spec_auth(), final(self).spec_auth())
                &&& final(self).spec_config() == old(self).spec_config()
                &&& final(self).spec_counter() == old(self).spec_counter()
                &&& final(self).policies_map() == old(self).policies_map()
            },
    {
        if let Err(e) = require_admin(&self.auth, admin) {
            return Err(ContractError::from(e));
        }
        self.paused = true;
        self.events.push(PolicyEvent::Paused { admin });
        proof {
            lemma_wf_same(*old(self), *self);
        }
        Ok(())
    }

    /// Administrator-gated: clears the pause flag. Idempotent.
    pub fn unpause(&mut self, admin: Address) -> (r: Result<(), ContractError>)
        requires
            old(self).wf(),
        ensures
            final(self).wf(),
            !old(self).spec_auth().is_admin(admin) ==> {
                &&& r == Err::<(), ContractError>(ContractError::Unauthorized)
                &&& same_state(*old(self), *final(self))
            },
            old(self).spec_auth().is_admin(admin) ==> {
                &&& r == Ok::<(), ContractError>(())
                &&& !final(self).spec_paused()
                &&& final(self).spec_events() == old(self).spec_events().push(
                    PolicyEvent::Unpaused { admin },
                )
                &&& same_auth(old(self).spec_auth(), final(self).spec_auth())
                &&& final(self).spec_config() == old(self).spec_config()
                &&& final(self).spec_counter() == old(self).spec_counter()
                &&& final(self).policies_map() == old(self).policies_map()
            },
    {
        if let Err(e) = require_admin(&self.auth, admin) {
            return Err(ContractError::from(e));
        }
        self.paused = false;
        self.events.push(PolicyEvent::Unpaused { admin });
        proof {
            lemma_wf_same(*old(self), *self);
        }
        Ok(())
    }

    /// Administrator-gated: grants the Policy-Manager role to `manager`.
    pub fn grant_manager_role(&mut self, admin: Address, manager: Address) -> (r: Result<
        (),
        ContractError,
    >)
        requires
            old(self).wf(),
        ensures
            final(self).wf(),
            !old(self).spec_auth().is_admin(admin) ==> {
                &&& r == Err::<(), ContractError>(ContractError::Unauthorized)
                &&& same_state(*old(self), *final(self))
            },
            old(self).spec_auth().is_admin(admin) ==> {
                &&& r == Ok::<(), ContractError>(())
                &&& final(self).spec_auth().roles_map() == old(self).spec_auth().roles_map().insert(
                    manager,
                    Role::PolicyManager,
                )
                &&& final(self).spec_auth().spec_admin() == old(self).spec_auth().spec_admin()
                &&& final(self).spec_auth().trusted_set() == old(self).spec_auth().trusted_set()
                &&& final(self).spec_events() == old(self).spec_events().push(
                    PolicyEvent::RoleGranted { admin, manager },
                )
                &&& final(self).spec_paused() == old(self).spec_paused()
                &&& final(self).spec_config() == old(self).spec_config()
                &&& final(self).spec_counter() == old(self).spec_counter()
                &&& final(self).policies_map() == old(self).policies_map()
            },
    {
        if let Err(e) = grant_role(&mut self.auth, admin, manager, Role::PolicyManager) {
            proof {
                lemma_wf_same(*old(self), *self);
            }
            return Err(ContractError::from(e));
        }
        self.events.push(PolicyEvent::RoleGranted { admin, manager });
        proof {
            lemma_wf_same(*old(self), *self);
        }
        Ok(())
    }

    /// Administrator-gated: revokes `manager`'s grant. Revoking an address
    /// without a grant fails with `RoleNotFound`.
    pub fn revoke_manager_role(&mut self, admin: Address, manager: Address) -> (r: Result<
        (),
        ContractError,
    >)
        requires
            old(self).wf(),
        ensures
            final(self).wf(),
            !old(self).spec_auth().is_admin(admin) ==> {
                &&& r == Err::<(), ContractError>(ContractError::Unauthorized)
                &&& same_state(*old(self), *final(self))
            },
            old(self).spec_auth().is_admin(admin) && !old(self).spec_auth().roles_map().contains_key(
                manager,
            ) ==> {
                &&& r == Err::<(), ContractError>(ContractError::RoleNotFound)
                &&& same_state(*old(self), *final(self))
            },
            old(self).spec_auth().is_admin(admin) && old(self).spec_auth().roles_map().contains_key(
                manager,
            ) ==> {
                &&& r == Ok::<(), ContractError>(())
                &&& final(self).spec_auth().roles_map() == old(self).spec_auth().roles_map().remove(
                    manager,
                )
                &&& final(self).spec_auth().spec_admin() == old(self).spec_auth().spec_admin()
                &&& final(self).spec_auth().trusted_set() == old(self).spec_auth().trusted_set()
                &&& final(self).spec_events() == old(self).spec_events().push(
                    PolicyEvent::RoleRevoked { admin, manager },
                )
                &&& final(self).spec_paused() == old(self).spec_paused()
                &&& final(self).spec_config() == old(self).spec_config()
                &&& final(self).spec_counter() == old(self).spec_counter()
                &&& final(self).policies_map() == old(self).policies_map()
            },
    {
        if let Err(e) = revoke_role(&mut self.auth, admin, manager) {
            proof {
                lemma_wf_same(*old(self), *self);
            }
            return Err(ContractError::from(e));
        }
        self.events.push(PolicyEvent::RoleRevoked { admin, manager });
        proof {
            lemma_wf_same(*old(self), *self);
        }
        Ok(())
    }

    /// The role a principal holds: its grant, or `NoRole` without one.
    pub fn get_user_role(&self, address: Address) -> (r: Role)
        ensures
            r == self.spec_auth().spec_role(address),
    {
        auth_get_role(&self.auth, address)
    }
}

} // verus!
