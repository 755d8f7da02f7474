//! Claims lifecycle engine: submission, review, oracle-gated approval with
//! synchronous fund reservation, and settlement with exactly-once payout.
//!
//! The closed state graph is `Submitted -> UnderReview -> {Approved,
//! Rejected}` and `Approved -> Settled`; `Rejected` and `Settled` are
//! terminal. At most one claim may ever exist per policy identifier.

use vstd::prelude::*;
use std::collections::HashMap;
use crate::policy::Address;
use crate::oracle::Oracle;
use crate::risk_pool::{RiskPool, Reservation, Payout, same_pool};

verus! {

broadcast use vstd::std_specs::hash::group_hash_axioms;

/// Errors surfaced by the claims registry's operations.
#[derive(Clone, Copy, Debug, PartialEq, Eq, Structural)]
pub enum ContractError {
    Unauthorized,
    Paused,
    InvalidInput,
    InsufficientFunds,
    NotFound,
    AlreadyExists,
    InvalidState,
    Overflow,
    NotInitialized,
    AlreadyInitialized,
    OracleValidationFailed,
    InsufficientOracleSubmissions,
    OracleDataStale,
    OracleOutlierDetected,
}

/// Lifecycle states of a claim. A closed enum: no other state is
/// representable.
#[derive(Clone, Copy, Debug, PartialEq, Eq, Structural)]
pub enum ClaimStatus {
    Submitted,
    UnderReview,
    Approved,
    Rejected,
    Settled,
}

/// The closed transition graph of the claim lifecycle:
/// `Submitted -> UnderReview`, `UnderReview -> Approved`,
/// `UnderReview -> Rejected`, `Approved -> Settled`, and nothing else.
pub open spec fn claim_transition_allowed(current: ClaimStatus, next: ClaimStatus) -> bool {
    match (current, next) {
        (ClaimStatus::Submitted, ClaimStatus::UnderReview) => true,
        (ClaimStatus::UnderReview, ClaimStatus::Approved) => true,
        (ClaimStatus::UnderReview, ClaimStatus::Rejected) => true,
        (ClaimStatus::Approved, ClaimStatus::Settled) => true,
        _ => false,
    }
}

/// The claim transition graph in words: the four listed edges are the only
/// allowed transitions, and the terminal states `Rejected` and `Settled`
/// allow none at all.
pub proof fn lemma_claim_transition_graph(current: ClaimStatus, next: ClaimStatus)
    ensures
        claim_transition_allowed(current, next) <==> {
            ||| (current is Submitted && next is UnderReview)
            ||| (current is UnderReview && next is Approved)
            ||| (current is UnderReview && next is Rejected)
            ||| (current is Approved && next is Settled)
        },
        (current is Rejected || current is Settled) ==> !claim_transition_allowed(current, next),
{
}

/// A claim filed against exactly one policy.
#[derive(Clone, Copy, Debug, PartialEq, Eq, Structural)]
pub struct Claim {
    pub policy_id: u64,
    pub claimant: Address,
    pub amount: i128,
    pub status: ClaimStatus,
    pub submitted_at: u64,
}

/// Configuration of the oracle validation gate.
#[derive(Clone, Copy, Debug, PartialEq, Eq, Structural)]
pub struct OracleValidationConfig {
    pub oracle_contract: Address,
    pub require_oracle_validation: bool,
    pub min_oracle_submissions: u32,
}

/// Events the claims registry appends to its observable log, one per
/// successful lifecycle transition.
#[derive(Clone, Copy, Debug, PartialEq, Eq, Structural)]
pub enum ClaimEvent {
    ClaimSubmitted { claim_id: u64, policy_id: u64, amount: i128, claimant: Address },
    ClaimUnderReview { claim_id: u64, claimant: Address, amount: i128 },
    ClaimApproved { claim_id: u64, claimant: Address, amount: i128 },
    ClaimRejected { claim_id: u64, claimant: Address, amount: i128 },
    ClaimSettled { claim_id: u64, claimant: Address, amount: i128 },
}

/// Claims registry: owns every claim, keyed by identifier, with the reverse
/// index from policy identifier to claim identifier that enforces the
/// one-claim-per-policy invariant, the oracle gate configuration and the
/// oracle audit trail.
pub struct ClaimsContract {
    admin: Option<Address>,
    config: Option<(Address, Address)>,
    paused: bool,
    claim_seq: u64,
    claims: HashMap<u64, Claim>,
    policy_claims: HashMap<u64, u64>,
    oracle_config: Option<OracleValidationConfig>,
    claim_oracle: HashMap<u64, u64>,
    events: Vec<ClaimEvent>,
}

/// The two registries hold the same state throughout.
pub open spec fn same_claims_state(a: ClaimsContract, b: ClaimsContract) -> bool {
    &&& a.spec_admin() == b.spec_admin()
    &&& a.spec_config() == b.spec_config()
    &&& a.spec_paused() == b.spec_paused()
    &&& a.spec_claim_seq() == b.spec_claim_seq()
    &&& a.claims_map() == b.claims_map()
    &&& a.policy_claims_map() == b.policy_claims_map()
    &&& a.spec_oracle_config() == b.spec_oracle_config()
    &&& a.claim_oracle_map() == b.claim_oracle_map()
    &&& a.spec_events() == b.spec_events()
}

/// The reservation discipline that ties the claims registry to the risk
/// pool: every `Approved` claim holds an unconsumed reservation for exactly
/// its amount. Approval establishes it and settlement consumes it together
/// with the transition to `Settled`, so funds are reserved exactly once per
/// approved claim.
pub open spec fn reserved_for_approved(registry: ClaimsContract, pool: RiskPool) -> bool {
    forall|cid: u64|
        #![trigger registry.claims_map()[cid]]
        registry.claims_map().contains_key(cid) && registry.claims_map()[cid].status is Approved
            ==> {
            &&& pool.reservations_map().contains_key(cid)
            &&& !pool.reservations_map()[cid].consumed
            &&& pool.reservations_map()[cid].amount == registry.claims_map()[cid].amount
        }
}

impl ClaimsContract {
    /// The administrator identity, if the registry was initialized.
    pub closed spec fn spec_admin(self) -> Option<Address> {
        self.admin
    }

    /// The component references `(policy registry, risk pool)` stored at
    /// initialization.
    pub closed spec fn spec_config(self) -> Option<(Address, Address)> {
        self.config
    }

    /// The global pause flag.
    pub closed spec fn spec_paused(self) -> bool {
        self.paused
    }

    /// How many claims were ever submitted; also the highest claim
    /// identifier in use.
    pub closed spec fn spec_claim_seq(self) -> u64 {
        self.claim_seq
    }

    /// The claims, keyed by identifier.
    pub closed spec fn claims_map(self) -> Map<u64, Claim> {
        self.claims@
    }

    /// The reverse index from policy identifier to the identifier of the
    /// one claim filed against it.
    pub closed spec fn policy_claims_map(self) -> Map<u64, u64> {
        self.policy_claims@
    }

    /// The oracle gate configuration, if one was set.
    pub closed spec fn spec_oracle_config(self) -> Option<OracleValidationConfig> {
        self.oracle_config
    }

    /// The audit trail: which oracle data reference validated which claim.
    pub closed spec fn claim_oracle_map(self) -> Map<u64, u64> {
        self.claim_oracle@
    }

    /// The event log.
    pub closed spec fn spec_events(self) -> Seq<ClaimEvent> {
        self.events@
    }

    /// The principal is the installed administrator.
    pub open spec fn is_admin(self, principal: Address) -> bool {
        self.spec_admin() == Some(principal)
    }

    /// The oracle gate is configured and switched on.
    pub open spec fn gate_enabled(self) -> bool {
        match self.spec_oracle_config() {
            Some(cfg) => cfg.require_oracle_validation,
            None => false,
        }
    }

    /// Well-formedness: claim identifiers are exactly `1 ..= claim_seq`,
    /// every claim's amount is positive, the reverse index and the claims
    /// agree in both directions (which makes the claim per policy unique),
    /// and the administrator and the configuration are installed together.
    pub open spec fn wf(self) -> bool {
        &&& forall|cid: u64|
            #![trigger self.claims_map().contains_key(cid)]
            self.claims_map().contains_key(cid) <==> 1 <= cid <= self.spec_claim_seq()
        &&& forall|cid: u64|
            #![trigger self.claims_map()[cid]]
            self.claims_map().contains_key(cid) ==> {
                &&& self.claims_map()[cid].amount > 0
                &&& self.policy_claims_map().contains_key(self.claims_map()[cid].policy_id)
                &&& self.policy_claims_map()[self.claims_map()[cid].policy_id] == cid
            }
        &&& forall|pid: u64|
            #![trigger self.policy_claims_map().contains_key(pid)]
            self.policy_claims_map().contains_key(pid) ==> {
                &&& self.claims_map().contains_key(self.policy_claims_map()[pid])
                &&& self.claims_map()[self.policy_claims_map()[pid]].policy_id == pid
            }
        &&& (self.spec_admin() is Some <==> self.spec_config() is Some)
    }
}

/// At most one claim exists per policy identifier: in a well-formed
/// registry, two claims against the same policy are the same claim.
pub proof fn lemma_one_claim_per_policy(registry: ClaimsContract, c1: u64, c2: u64)
    requires
        registry.wf(),
        registry.claims_map().contains_key(c1),
        registry.claims_map().contains_key(c2),
        registry.claims_map()[c1].policy_id == registry.claims_map()[c2].policy_id,
    ensures
        c1 == c2,
{
    assert(registry.policy_claims_map()[registry.claims_map()[c1].policy_id] == c1);
    assert(registry.policy_claims_map()[registry.claims_map()[c2].policy_id] == c2);
}

/// Well-formedness depends only on the administrator, the configuration,
/// the claims, the reverse index and the sequence counter: a registry
/// agreeing with a well-formed one on those is well-formed.
proof fn lemma_claims_wf_same(a: ClaimsContract, b: ClaimsContract)
    requires
        a.wf(),
        b.spec_admin() is Some <==> b.spec_config() is Some,
        b.spec_claim_seq() == a.spec_claim_seq(),
        b.claims_map() == a.claims_map(),
        b.policy_claims_map() == a.policy_claims_map(),
    ensures
        b.wf(),
{
    assert forall|cid: u64|
        b.claims_map().contains_key(cid) <==> 1 <= cid <= b.spec_claim_seq() by {
        assert(a.claims_map().contains_key(cid) <==> 1 <= cid <= a.spec_claim_seq());
    }
    assert forall|cid: u64| b.claims_map().contains_key(cid) implies {
        &&& b.claims_map()[cid].amount > 0
        &&& b.policy_claims_map().contains_key(b.claims_map()[cid].policy_id)
        &&& b.policy_claims_map()[b.claims_map()[cid].policy_id] == cid
    } by {
        assert(a.claims_map()[cid] == b.claims_map()[cid]);
    }
    assert forall|pid: u64| b.policy_claims_map().contains_key(pid) implies {
        &&& b.claims_map().contains_key(b.policy_claims_map()[pid])
        &&& b.claims_map()[b.policy_claims_map()[pid]].policy_id == pid
    } by {
        assert(a.policy_claims_map().contains_key(pid));
    }
}

/// A status-only update of one stored claim (same policy, claimant and
/// amount) keeps the registry well-formed.
proof fn lemma_claims_wf_update(a: ClaimsContract, b: ClaimsContract, cid: u64, c: Claim)
    requires
        a.wf(),
        a.claims_map().contains_key(cid),
        c.policy_id == a.claims_map()[cid].policy_id,
        c.amount == a.claims_map()[cid].amount,
        b.spec_admin() is Some <==> b.spec_config() is Some,
        b.spec_claim_seq() == a.spec_claim_seq(),
        b.claims_map() == a.claims_map().insert(cid, c),
        b.policy_claims_map() == a.policy_claims_map(),
    ensures
        b.wf(),
{
    assert forall|k: u64|
        b.claims_map().contains_key(k) <==> 1 <= k <= b.spec_claim_seq() by {
        assert(a.claims_map().contains_key(k) <==> 1 <= k <= a.spec_claim_seq());
    }
    assert forall|k: u64| b.claims_map().contains_key(k) implies {
        &&& b.claims_map()[k].amount > 0
        &&& b.policy_claims_map().contains_key(b.claims_map()[k].policy_id)
        &&& b.policy_claims_map()[b.claims_map()[k].policy_id] == k
    } by {
        assert(a.claims_map().contains_key(k));
        assert(a.claims_map()[k].amount > 0 && a.policy_claims_map().contains_key(
            a.claims_map()[k].policy_id,
        ) && a.policy_claims_map()[a.claims_map()[k].policy_id] == k);
    }
    assert forall|pid: u64| b.policy_claims_map().contains_key(pid) implies {
        &&& b.claims_map().contains_key(b.policy_claims_map()[pid])
        &&& b.claims_map()[b.policy_claims_map()[pid]].policy_id == pid
    } by {
        assert(a.claims_map().contains_key(a.policy_claims_map()[pid]));
        assert(a.claims_map()[a.policy_claims_map()[pid]].policy_id == pid);
    }
}

/// Registering a fresh claim under the next identifier, for a policy
/// without one, keeps the registry well-formed.
proof fn lemma_claims_wf_submit(a: ClaimsContract, b: ClaimsContract, cid: u64, c: Claim)
    requires
        a.wf(),
        a.spec_claim_seq() < u64::MAX,
        cid == a.spec_claim_seq() + 1,
        c.amount > 0,
        !a.policy_claims_map().contains_key(c.policy_id),
        b.spec_admin() is Some <==> b.spec_config() is Some,
        b.spec_claim_seq() == a.spec_claim_seq() + 1,
        b.claims_map() == a.claims_map().insert(cid, c),
        b.policy_claims_map() == a.policy_claims_map().insert(c.policy_id, cid),
    ensures
        b.wf(),
{
    assert(!a.claims_map().contains_key(cid));
    assert forall|k: u64|
        b.claims_map().contains_key(k) <==> 1 <= k <= b.spec_claim_seq() by {
        assert(a.claims_map().contains_key(k) <==> 1 <= k <= a.spec_claim_seq());
    }
    assert forall|k: u64| b.claims_map().contains_key(k) implies {
        &&& b.claims_map()[k].amount > 0
        &&& b.policy_claims_map().contains_key(b.claims_map()[k].policy_id)
        &&& b.policy_claims_map()[b.claims_map()[k].policy_id] == k
    } by {
        if k != cid {
            assert(a.claims_map().contains_key(k));
            assert(a.claims_map()[k].amount > 0 && a.policy_claims_map().contains_key(
                a.claims_map()[k].policy_id,
            ) && a.policy_claims_map()[a.claims_map()[k].policy_id] == k);
        }
    }
    assert forall|pid: u64| b.policy_claims_map().contains_key(pid) implies {
        &&& b.claims_map().contains_key(b.policy_claims_map()[pid])
        &&& b.claims_map()[b.policy_claims_map()[pid]].policy_id == pid
    } by {
        if pid != c.policy_id {
            assert(a.policy_claims_map().contains_key(pid));
            assert(a.claims_map().contains_key(a.policy_claims_map()[pid]));
            assert(a.claims_map()[a.policy_claims_map()[pid]].policy_id == pid);
        }
    }
}

/// A claim-map update that leaves every other claim alone and does not make
/// the updated claim `Approved` preserves the reservation discipline against
/// every pool.
proof fn lemma_reserved_preserved_by_update(
    a: ClaimsContract,
    b: ClaimsContract,
    claim_id: u64,
    c: Claim,
)
    requires
        b.claims_map() == a.claims_map().insert(claim_id, c),
        !(c.status is Approved),
    ensures
        forall|pool: RiskPool|
            #![trigger reserved_for_approved(b, pool)]
            reserved_for_approved(a, pool) ==> reserved_for_approved(b, pool),
{
    assert forall|pool: RiskPool|
        reserved_for_approved(a, pool) implies reserved_for_approved(b, pool) by {
        assert forall|cid: u64|
            b.claims_map().contains_key(cid) && b.claims_map()[cid].status is Approved implies {
            &&& pool.reservations_map().contains_key(cid)
            &&& !pool.reservations_map()[cid].consumed
            &&& pool.reservations_map()[cid].amount == b.claims_map()[cid].amount
        } by {
            if cid != claim_id {
                assert(a.claims_map()[cid] == b.claims_map()[cid]);
                assert(a.claims_map().contains_key(cid));
            }
        }
    }
}

impl ClaimsContract {
    /// A fresh, uninitialized registry: no administrator, no claims, not
    /// paused, no oracle gate.
    pub fn new() -> (registry: ClaimsContract)
        ensures
            registry.wf(),
            registry.spec_admin() is None,
            registry.spec_config() is None,
            !registry.spec_paused(),
            registry.spec_claim_seq() == 0,
            registry.claims_map() == Map::<u64, Claim>::empty(),
            registry.policy_claims_map() == Map::<u64, u64>::empty(),
            registry.spec_oracle_config() is None,
            registry.claim_oracle_map() == Map::<u64, u64>::empty(),
            registry.spec_events() == Seq::<ClaimEvent>::empty(),
    {
        ClaimsContract {
            admin: None,
            config: None,
            paused: false,
            claim_seq: 0,
            claims: HashMap::new(),
            policy_claims: HashMap::new(),
            oracle_config: None,
            claim_oracle: HashMap::new(),
            events: Vec::new(),
        }
    }

    /// The event log, oldest first.
    pub fn events(&self) -> (r: &Vec<ClaimEvent>)
        ensures
            r@ == self.spec_events(),
    {
        &self.events
    }

    /// One-time setup: installs the administrator and the component
    /// references. A second call fails with `AlreadyInitialized` and
    /// changes nothing.
    pub fn initialize(&mut self, admin: Address, policy_contract: Address, risk_pool: Address) -> (r:
        Result<(), ContractError>)
        requires
            old(self).wf(),
        ensures
            final(self).wf(),
            old(self).spec_admin() is Some ==> {
                &&& r == Err::<(), ContractError>(ContractError::AlreadyInitialized)
                &&& same_claims_state(*old(self), *final(self))
            },
            old(self).spec_admin() is None ==> {
                &&& r == Ok::<(), ContractError>(())
                &&& final(self).spec_admin() == Some(admin)
                &&& final(self).spec_config() == Some((policy_contract, risk_pool))
                &&& final(self).spec_paused() == old(self).spec_paused()
                &&& final(self).spec_claim_seq() == old(self).spec_claim_seq()
                &&& final(self).claims_map() == old(self).claims_map()
                &&& final(self).policy_claims_map() == old(self).policy_claims_map()
                &&& final(self).spec_oracle_config() == old(self).spec_oracle_config()
                &&& final(self).claim_oracle_map() == old(self).claim_oracle_map()
                &&& final(self).spec_events() == old(self).spec_events()
            },
    {
        if self.admin.is_some() {
            return Err(ContractError::AlreadyInitialized);
        }
        self.admin = Some(admin);
        self.config = Some((policy_contract, risk_pool));
        proof {
            lemma_claims_wf_same(*old(self), *self);
        }
        Ok(())
    }

    /// Administrator-gated: replaces the oracle gate configuration as a
    /// whole; partial updates are not possible. `NotInitialized` before
    /// setup, `Unauthorized` for any caller but the administrator.
    pub fn set_oracle_config(
        &mut self,
        caller: Address,
        oracle_contract: Address,
        require_oracle_validation: bool,
        min_oracle_submissions: u32,
    ) -> (r: Result<(), ContractError>)
        requires
            old(self).wf(),
        ensures
            final(self).wf(),
            old(self).spec_admin() is None ==> {
                &&& r == Err::<(), ContractError>(ContractError::NotInitialized)
                &&& same_claims_state(*old(self), *final(self))
            },
            old(self).spec_admin() is Some && !old(self).is_admin(caller) ==> {
                &&& r == Err::<(), ContractError>(ContractError::Unauthorized)
                &&& same_claims_state(*old(self), *final(self))
            },
            old(self).is_admin(caller) ==> {
                &&& r == Ok::<(), ContractError>(())
                &&& final(self).spec_oracle_config() == Some(
                    OracleValidationConfig {
                        oracle_contract,
                        require_oracle_validation,
                        min_oracle_submissions,
                    },
                )
                &&& final(self).spec_admin() == old(self).spec_admin()
                &&& final(self).spec_config() == old(self).spec_config()
                &&& final(self).spec_paused() == old(self).spec_paused()
                &&& final(self).spec_claim_seq() == old(self).spec_claim_seq()
                &&& final(self).claims_map() == old(self).claims_map()
                &&& final(self).policy_claims_map() == old(self).policy_claims_map()
                &&& final(self).claim_oracle_map() == old(self).claim_oracle_map()
                &&& final(self).spec_events() == old(self).spec_events()
            },
    {
        let admin = match self.admin {
            Some(admin) => admin,
            None => {
                return Err(ContractError::NotInitialized);
            },
        };
        if admin != caller {
            return Err(ContractError::Unauthorized);
        }
        self.oracle_config = Some(
            OracleValidationConfig {
                oracle_contract,
                require_oracle_validation,
                min_oracle_submissions,
            },
        );
        proof {
            lemma_claims_wf_same(*old(self), *self);
        }
        Ok(())
    }

    /// The oracle gate configuration; `NotFound` when none was set.
    pub fn get_oracle_config(&self) -> (r: Result<OracleValidationConfig, ContractError>)
        ensures
            self.spec_oracle_config() is Some ==> r == Ok::<OracleValidationConfig, ContractError>(
                self.spec_oracle_config()->0,
            ),
            self.spec_oracle_config() is None ==> r == Err::<OracleValidationConfig, ContractError>(
                ContractError::NotFound,
            ),
    {
        match self.oracle_config {
            Some(config) => Ok(config),
            None => Err(ContractError::NotFound),
        }
    }

    /// Pure lookup of a claim; no authorization check.
    pub fn get_claim(&self, claim_id: u64) -> (r: Result<Claim, ContractError>)
        ensures
            self.claims_map().contains_key(claim_id) ==> r == Ok::<Claim, ContractError>(
                self.claims_map()[claim_id],
            ),
            !self.claims_map().contains_key(claim_id) ==> r == Err::<Claim, ContractError>(
                ContractError::NotFound,
            ),
    {
        match self.claims.get(&claim_id) {
            Some(claim) => Ok(*claim),
            None => Err(ContractError::NotFound),
        }
    }

    /// The oracle data reference recorded for a claim at validation;
    /// `NotFound` when none was recorded.
    pub fn get_claim_oracle_data(&self, claim_id: u64) -> (r: Result<u64, ContractError>)
        ensures
            self.claim_oracle_map().contains_key(claim_id) ==> r == Ok::<u64, ContractError>(
                self.claim_oracle_map()[claim_id],
            ),
            !self.claim_oracle_map().contains_key(claim_id) ==> r == Err::<u64, ContractError>(
                ContractError::NotFound,
            ),
    {
        match self.claim_oracle.get(&claim_id) {
            Some(data_id) => Ok(*data_id),
            None => Err(ContractError::NotFound),
        }
    }

    /// Whether claim submission is currently paused.
    pub fn is_paused(&self) -> (r: bool)
        ensures
            r == self.spec_paused(),
    {
        self.paused
    }

    /// Administrator-gated: sets the pause flag. Idempotent.
    pub fn pause(&mut self, caller: Address) -> (r: Result<(), ContractError>)
        requires
            old(self).wf(),
        ensures
            final(self).wf(),
            old(self).spec_admin() is None ==> {
                &&& r == Err::<(), ContractError>(ContractError::NotInitialized)
                &&& same_claims_state(*old(self), *final(self))
            },
            old(self).spec_admin() is Some && !old(self).is_admin(caller) ==> {
                &&& r == Err::<(), ContractError>(ContractError::Unauthorized)
                &&& same_claims_state(*old(self), *final(self))
            },
            old(self).is_admin(caller) ==> {
                &&& r == Ok::<(), ContractError>(())
                &&& final(self).spec_paused()
                &&& final(self).spec_admin() == old(self).spec_admin()
                &&& final(self).spec_config() == old(self).spec_config()
                &&& final(self).spec_claim_seq() == old(self).spec_claim_seq()
                &&& final(self).claims_map() == old(self).claims_map()
                &&& final(self).policy_claims_map() == old(self).policy_claims_map()
                &&& final(self).spec_oracle_config() == old(self).spec_oracle_config()
                &&& final(self).claim_oracle_map() == old(self).claim_oracle_map()
                &&& final(self).spec_events() == old(self).spec_events()
            },
    {
        let admin = match self.admin {
            Some(admin) => admin,
            None => {
                return Err(ContractError::NotInitialized);
            },
        };
        if admin != caller {
            return Err(ContractError::Unauthorized);
        }
        self.paused = true;
        proof {
            lemma_claims_wf_same(*old(self), *self);
        }
        Ok(())
    }

    /// Administrator-gated: clears the pause flag. Idempotent.
    pub fn unpause(&mut self, caller: Address) -> (r: Result<(), ContractError>)
        requires
            old(self).wf(),
        ensures
            final(self).wf(),
            old(self).spec_admin() is None ==> {
                &&& r == Err::<(), ContractError>(ContractError::NotInitialized)
                &&& same_claims_state(*old(self), *final(self))
            },
            old(self).spec_admin() is Some && !old(self).is_admin(caller) ==> {
                &&& r == Err::<(), ContractError>(ContractError::Unauthorized)
                &&& same_claims_state(*old(self), *final(self))
            },
            old(self).is_admin(caller) ==> {
                &&& r == Ok::<(), ContractError>(())
                &&& !final(self).spec_paused()
                &&& final(self).spec_admin() == old(self).spec_admin()
                &&& final(self).spec_config() == old(self).spec_config()
                &&& final(self).spec_claim_seq() == old(self).spec_claim_seq()
                &&& final(self).claims_map() == old(self).claims_map()
                &&& final(self).policy_claims_map() == old(self).policy_claims_map()
                &&& final(self).spec_oracle_config() == old(self).spec_oracle_config()
                &&& final(self).claim_oracle_map() == old(self).claim_oracle_map()
                &&& final(self).spec_events() == old(self).spec_events()
            },
    {
        let admin = match self.admin {
            Some(admin) => admin,
            None => {
                return Err(ContractError::NotInitialized);
            },
        };
        if admin != caller {
            return Err(ContractError::Unauthorized);
        }
        self.paused = false;
        proof {
            lemma_claims_wf_same(*old(self), *self);
        }
        Ok(())
    }

    /// Submits a claim by `claimant` against `policy_id` at the ledger time
    /// `now`. Fails with `Paused` under the global pause flag, with
    /// `InvalidInput` for a non-positive amount, and with `AlreadyExists`
    /// when the policy already has a claim — the duplicate guard that keeps
    /// claims unique per policy. On success the claim is minted `Submitted`
    /// under the next identifier, which is never reused.
    pub fn submit_claim(&mut self, claimant: Address, policy_id: u64, amount: i128, now: u64) -> (r:
        Result<u64, ContractError>)
        requires
            old(self).wf(),
        ensures
            final(self).wf(),
            forall|pool: RiskPool|
                #![trigger reserved_for_approved(*final(self), pool)]
                reserved_for_approved(*old(self), pool) ==> reserved_for_approved(
                    *final(self),
                    pool,
                ),
            old(self).spec_paused() ==> {
                &&& r == Err::<u64, ContractError>(ContractError::Paused)
                &&& same_claims_state(*old(self), *final(self))
            },
            !old(self).spec_paused() && amount <= 0 ==> {
                &&& r == Err::<u64, ContractError>(ContractError::InvalidInput)
                &&& same_claims_state(*old(self), *final(self))
            },
            !old(self).spec_paused() && amount > 0 && old(self).policy_claims_map().contains_key(
                policy_id,
            ) ==> {
                &&& r == Err::<u64, ContractError>(ContractError::AlreadyExists)
                &&& same_claims_state(*old(self), *final(self))
            },
            !old(self).spec_paused() && amount > 0 && !old(self).policy_claims_map().contains_key(
                policy_id,
            ) && old(self).spec_claim_seq() == u64::MAX ==> {
                &&& r == Err::<u64, ContractError>(ContractError::Overflow)
                &&& same_claims_state(*old(self), *final(self))
            },
            !old(self).spec_paused() && amount > 0 && !old(self).policy_claims_map().contains_key(
                policy_id,
            ) && old(self).spec_claim_seq() < u64::MAX ==> {
                &&& r == Ok::<u64, ContractError>((old(self).spec_claim_seq() + 1) as u64)
                &&& final(self).spec_claim_seq() == old(self).spec_claim_seq() + 1
                &&& final(self).claims_map() == old(self).claims_map().insert(
                    (old(self).spec_claim_seq() + 1) as u64,
                    Claim {
                        policy_id,
                        claimant,
                        amount,
                        status: ClaimStatus::Submitted,
                        submitted_at: now,
                    },
                )
                &&& final(self).policy_claims_map() == old(self).policy_claims_map().insert(
                    policy_id,
                    (old(self).spec_claim_seq() + 1) as u64,
                )
                &&& final(self).spec_events() == old(self).spec_events().push(
                    ClaimEvent::ClaimSubmitted {
                        claim_id: (old(self).spec_claim_seq() + 1) as u64,
                        policy_id,
                        amount,
                        claimant,
                    },
                )
                &&& final(self).spec_admin() == old(self).spec_admin()
                &&& final(self).spec_config() == old(self).spec_config()
                &&& final(self).spec_paused() == old(self).spec_paused()
                &&& final(self).spec_oracle_config() == old(self).spec_oracle_config()
                &&& final(self).claim_oracle_map() == old(self).claim_oracle_map()
            },
    {
        if self.paused {
            return Err(ContractError::Paused);
        }
        if amount <= 0 {
            return Err(ContractError::InvalidInput);
        }
        if self.policy_claims.contains_key(&policy_id) {
            return Err(ContractError::AlreadyExists);
        }
        if self.claim_seq == u64::MAX {
            return Err(ContractError::Overflow);
        }
        let claim_id: u64 = self.claim_seq + 1;
        self.claim_seq = claim_id;
        let claim = Claim {
            policy_id,
            claimant,
            amount,
            status: ClaimStatus::Submitted,
            submitted_at: now,
        };
        self.claims.insert(claim_id, claim);
        self.policy_claims.insert(policy_id, claim_id);
        self.events.push(ClaimEvent::ClaimSubmitted { claim_id, policy_id, amount, claimant });
        proof {
            lemma_claims_wf_submit(*old(self), *self, claim_id, claim);
            lemma_reserved_preserved_by_update(*old(self), *self, claim_id, claim);
        }
        Ok(claim_id)
    }

    /// Administrator-gated: moves a `Submitted` claim to `UnderReview`.
    /// Every other current state fails with `InvalidState` and changes
    /// nothing.
    pub fn start_review(&mut self, caller: Address, claim_id: u64) -> (r: Result<
        (),
        ContractError,
    >)
        requires
            old(self).wf(),
        ensures
            final(self).wf(),
            forall|pool: RiskPool|
                #![trigger reserved_for_approved(*final(self), pool)]
                reserved_for_approved(*old(self), pool) ==> reserved_for_approved(
                    *final(self),
                    pool,
                ),
            old(self).spec_admin() is None ==> {
                &&& r == Err::<(), ContractError>(ContractError::NotInitialized)
                &&& same_claims_state(*old(self), *final(self))
            },
            old(self).spec_admin() is Some && !old(self).is_admin(caller) ==> {
                &&& r == Err::<(), ContractError>(ContractError::Unauthorized)
                &&& same_claims_state(*old(self), *final(self))
            },
            old(self).is_admin(caller) && !old(self).claims_map().contains_key(claim_id) ==> {
                &&& r == Err::<(), ContractError>(ContractError::NotFound)
                &&& same_claims_state(*old(self), *final(self))
            },
            old(self).is_admin(caller) && old(self).claims_map().contains_key(claim_id) && !(old(
                self,
            ).claims_map()[claim_id].status is Submitted) ==> {
                &&& r == Err::<(), ContractError>(ContractError::InvalidState)
                &&& same_claims_state(*old(self), *final(self))
            },
            old(self).is_admin(caller) && old(self).claims_map().contains_key(claim_id) && old(
                self,
            ).claims_map()[claim_id].status is Submitted ==> {
                &&& r == Ok::<(), ContractError>(())
                &&& final(self).claims_map() == old(self).claims_map().insert(
                    claim_id,
                    Claim {
                        status: ClaimStatus::UnderReview,
                        ..old(self).claims_map()[claim_id]
                    },
                )
                &&& claim_transition_allowed(
                    old(self).claims_map()[claim_id].status,
                    final(self).claims_map()[claim_id].status,
                )
                &&& final(self).spec_events() == old(self).spec_events().push(
                    ClaimEvent::ClaimUnderReview {
                        claim_id,
                        claimant: old(self).claims_map()[claim_id].claimant,
                        amount: old(self).claims_map()[claim_id].amount,
                    },
                )
                &&& final(self).spec_admin() == old(self).spec_admin()
                &&& final(self).spec_config() == old(self).spec_config()
                &&& final(self).spec_paused() == old(self).spec_paused()
                &&& final(self).spec_claim_seq() == old(self).spec_claim_seq()
                &&& final(self).policy_claims_map() == old(self).policy_claims_map()
                &&& final(self).spec_oracle_config() == old(self).spec_oracle_config()
                &&& final(self).claim_oracle_map() == old(self).claim_oracle_map()
            },
    {
        let admin = match self.admin {
            Some(admin) => admin,
            None => {
                return Err(ContractError::NotInitialized);
            },
        };
        if admin != caller {
            return Err(ContractError::Unauthorized);
        }
        let claim = match self.claims.get(&claim_id) {
            Some(claim) => *claim,
            None => {
                return Err(ContractError::NotFound);
            },
        };
        if claim.status != ClaimStatus::Submitted {
            return Err(ContractError::InvalidState);
        }
        let updated = Claim { status: ClaimStatus::UnderReview, ..claim };
        self.claims.insert(claim_id, updated);
        self.events.push(ClaimEvent::ClaimUnderReview {
            claim_id,
            claimant: claim.claimant,
            amount: claim.amount,
        });
        proof {
            lemma_claims_wf_update(*old(self), *self, claim_id, updated);
            lemma_reserved_preserved_by_update(*old(self), *self, claim_id, updated);
        }
        Ok(())
    }

    /// Administrator-gated: rejects a claim under review. `Rejected` is
    /// terminal and no funds are touched. Every current state but
    /// `UnderReview` fails with `InvalidState` and changes nothing.
    pub fn reject_claim(&mut self, caller: Address, claim_id: u64) -> (r: Result<
        (),
        ContractError,
    >)
        requires
            old(self).wf(),
        ensures
            final(self).wf(),
            forall|pool: RiskPool|
                #![trigger reserved_for_approved(*final(self), pool)]
                reserved_for_approved(*old(self), pool) ==> reserved_for_approved(
                    *final(self),
                    pool,
                ),
            old(self).spec_admin() is None ==> {
                &&& r == Err::<(), ContractError>(ContractError::NotInitialized)
                &&& same_claims_state(*old(self), *final(self))
            },
            old(self).spec_admin() is Some && !old(self).is_admin(caller) ==> {
                &&& r == Err::<(), ContractError>(ContractError::Unauthorized)
                &&& same_claims_state(*old(self), *final(self))
            },
            old(self).is_admin(caller) && !old(self).claims_map().contains_key(claim_id) ==> {
                &&& r == Err::<(), ContractError>(ContractError::NotFound)
                &&& same_claims_state(*old(self), *final(self))
            },
            old(self).is_admin(caller) && old(self).claims_map().contains_key(claim_id) && !(old(
                self,
            ).claims_map()[claim_id].status is UnderReview) ==> {
                &&& r == Err::<(), ContractError>(ContractError::InvalidState)
                &&& same_claims_state(*old(self), *final(self))
            },
            old(self).is_admin(caller) && old(self).claims_map().contains_key(claim_id) && old(
                self,
            ).claims_map()[claim_id].status is UnderReview ==> {
                &&& r == Ok::<(), ContractError>(())
                &&& final(self).claims_map() == old(self).claims_map().insert(
                    claim_id,
                    Claim { status: ClaimStatus::Rejected, ..old(self).claims_map()[claim_id] },
                )
                &&& claim_transition_allowed(
                    old(self).claims_map()[claim_id].status,
                    final(self).claims_map()[claim_id].status,
                )
                &&& final(self).spec_events() == old(self).spec_events().push(
                    ClaimEvent::ClaimRejected {
                        claim_id,
                        claimant: old(self).claims_map()[claim_id].claimant,
                        amount: old(self).claims_map()[claim_id].amount,
                    },
                )
                &&& final(self).spec_admin() == old(self).spec_admin()
                &&& final(self).spec_config() == old(self).spec_config()
                &&& final(self).spec_paused() == old(self).spec_paused()
                &&& final(self).spec_claim_seq() == old(self).spec_claim_seq()
                &&& final(self).policy_claims_map() == old(self).policy_claims_map()
                &&& final(self).spec_oracle_config() == old(self).spec_oracle_config()
                &&& final(self).claim_oracle_map() == old(self).claim_oracle_map()
            },
    {
        let admin = match self.admin {
            Some(admin) => admin,
            None => {
                return Err(ContractError::NotInitialized);
            },
        };
        if admin != caller {
            return Err(ContractError::Unauthorized);
        }
        let claim = match self.claims.get(&claim_id) {
            Some(claim) => *claim,
            None => {
                return Err(ContractError::NotFound);
            },
        };
        if claim.status != ClaimStatus::UnderReview {
            return Err(ContractError::InvalidState);
        }
        let updated = Claim { status: ClaimStatus::Rejected, ..claim };
        self.claims.insert(claim_id, updated);
        self.events.push(ClaimEvent::ClaimRejected {
            claim_id,
            claimant: claim.claimant,
            amount: claim.amount,
        });
        proof {
            lemma_claims_wf_update(*old(self), *self, claim_id, updated);
            lemma_reserved_preserved_by_update(*old(self), *self, claim_id, updated);
        }
        Ok(())
    }

    /// The outcome of the oracle gate for one approval or validation call:
    /// `Ok(None)` under disabled validation (default-permit),
    /// `Ok(Some(data_id))` when the data passes, a failure otherwise —
    /// a missing reference fails `OracleValidationFailed`, too few
    /// submissions fail `InsufficientOracleSubmissions`, and the oracle's
    /// own staleness and outlier verdicts propagate unchanged.
    pub open spec fn gate_outcome(self, oracle_data_id: Option<u64>, oracle: Oracle) -> Result<
        Option<u64>,
        ContractError,
    > {
        if !self.gate_enabled() {
            Ok(None)
        } else {
            match oracle_data_id {
                None => Err(ContractError::OracleValidationFailed),
                Some(oid) => {
                    if oracle.spec_submission_count(oid) < self.spec_oracle_config()->0
                        .min_oracle_submissions {
                        Err(ContractError::InsufficientOracleSubmissions)
                    } else {
                        match oracle.spec_resolution(oid) {
                            Err(e) => Err(e),
                            Ok(_) => Ok(Some(oid)),
                        }
                    }
                },
            }
        }
    }

    /// Checks `oracle_data_id` against the configured gate and, on success,
    /// records it against `claim_id` for audit. With validation disabled the
    /// call succeeds without consulting the oracle at all — the result and
    /// the state do not depend on it. Recording is idempotent: repeating a
    /// call with the same arguments stores the same entry. `NotFound` when
    /// no gate was ever configured.
    pub fn validate_claim_with_oracle(&mut self, claim_id: u64, oracle_data_id: u64, oracle: &Oracle)
        -> (r: Result<bool, ContractError>)
        requires
            old(self).wf(),
        ensures
            final(self).wf(),
            old(self).spec_oracle_config() is None ==> {
                &&& r == Err::<bool, ContractError>(ContractError::NotFound)
                &&& same_claims_state(*old(self), *final(self))
            },
            old(self).spec_oracle_config() is Some && !old(self).gate_enabled() ==> {
                &&& r == Ok::<bool, ContractError>(true)
                &&& same_claims_state(*old(self), *final(self))
            },
            old(self).gate_enabled() && oracle.spec_submission_count(oracle_data_id) < old(
                self,
            ).spec_oracle_config()->0.min_oracle_submissions ==> {
                &&& r == Err::<bool, ContractError>(ContractError::InsufficientOracleSubmissions)
                &&& same_claims_state(*old(self), *final(self))
            },
            old(self).gate_enabled() && oracle.spec_submission_count(oracle_data_id) >= old(
                self,
            ).spec_oracle_config()->0.min_oracle_submissions ==> {
                &&& (oracle.spec_resolution(oracle_data_id) matches Err(e) ==> {
                    &&& r == Err::<bool, ContractError>(e)
                    &&& same_claims_state(*old(self), *final(self))
                })
                &&& (oracle.spec_resolution(oracle_data_id) is Ok ==> {
                    &&& r == Ok::<bool, ContractError>(true)
                    &&& final(self).claim_oracle_map() == old(self).claim_oracle_map().insert(
                        claim_id,
                        oracle_data_id,
                    )
                    &&& final(self).spec_admin() == old(self).spec_admin()
                    &&& final(self).spec_config() == old(self).spec_config()
                    &&& final(self).spec_paused() == old(self).spec_paused()
                    &&& final(self).spec_claim_seq() == old(self).spec_claim_seq()
                    &&& final(self).claims_map() == old(self).claims_map()
                    &&& final(self).policy_claims_map() == old(self).policy_claims_map()
                    &&& final(self).spec_oracle_config() == old(self).spec_oracle_config()
                    &&& final(self).spec_events() == old(self).spec_events()
                })
            },
    {
        let config = match self.oracle_config {
            Some(config) => config,
            None => {
                return Err(ContractError::NotFound);
            },
        };
        if !config.require_oracle_validation {
            return Ok(true);
        }
        let submission_count = oracle.get_submission_count(oracle_data_id);
        if submission_count < config.min_oracle_submissions {
            return Err(ContractError::InsufficientOracleSubmissions);
        }
        if let Err(e) = oracle.resolve_oracle_data(oracle_data_id) {
            return Err(e);
        }
        self.claim_oracle.insert(claim_id, oracle_data_id);
        proof {
            lemma_claims_wf_same(*old(self), *self);
        }
        Ok(true)
    }

    /// Administrator-gated approval of a claim under review. The oracle
    /// gate, when enabled, must pass first (a missing reference fails with
    /// `OracleValidationFailed` and the claim stays `UnderReview`); then the
    /// claim's amount is reserved in the risk pool as one logical step with
    /// the transition — if the reservation fails, registry and pool are both
    /// left unchanged. A claim not in `UnderReview` fails with
    /// `InvalidState` before the pool is ever involved.
    pub fn approve_claim(
        &mut self,
        caller: Address,
        claim_id: u64,
        oracle_data_id: Option<u64>,
        oracle: &Oracle,
        pool: &mut RiskPool,
    ) -> (r: Result<(), ContractError>)
        requires
            old(self).wf(),
            old(pool).wf(),
        ensures
            final(self).wf(),
            final(pool).wf(),
            old(self).spec_admin() is None ==> {
                &&& r == Err::<(), ContractError>(ContractError::NotInitialized)
                &&& same_claims_state(*old(self), *final(self))
                &&& same_pool(*old(pool), *final(pool))
            },
            old(self).spec_admin() is Some && !old(self).is_admin(caller) ==> {
                &&& r == Err::<(), ContractError>(ContractError::Unauthorized)
                &&& same_claims_state(*old(self), *final(self))
                &&& same_pool(*old(pool), *final(pool))
            },
            old(self).is_admin(caller) && !old(self).claims_map().contains_key(claim_id) ==> {
                &&& r == Err::<(), ContractError>(ContractError::NotFound)
                &&& same_claims_state(*old(self), *final(self))
                &&& same_pool(*old(pool), *final(pool))
            },
            old(self).is_admin(caller) && old(self).claims_map().contains_key(claim_id) && !(old(
                self,
            ).claims_map()[claim_id].status is UnderReview) ==> {
                &&& r == Err::<(), ContractError>(ContractError::InvalidState)
                &&& same_claims_state(*old(self), *final(self))
                &&& same_pool(*old(pool), *final(pool))
            },
            old(self).is_admin(caller) && old(self).claims_map().contains_key(claim_id) && old(
                self,
            ).claims_map()[claim_id].status is UnderReview ==> {
                &&& (old(self).gate_enabled() && oracle_data_id is None ==> {
                    &&& r == Err::<(), ContractError>(ContractError::OracleValidationFailed)
                    &&& same_claims_state(*old(self), *final(self))
                    &&& same_pool(*old(pool), *final(pool))
                })
                &&& (old(self).gate_outcome(oracle_data_id, *oracle) matches Err(e) ==> {
                    &&& r == Err::<(), ContractError>(e)
                    &&& same_claims_state(*old(self), *final(self))
                    &&& same_pool(*old(pool), *final(pool))
                })
                &&& (old(self).gate_outcome(oracle_data_id, *oracle) is Ok && old(
                    pool,
                ).reservations_map().contains_key(claim_id) ==> {
                    &&& r == Err::<(), ContractError>(ContractError::AlreadyExists)
                    &&& same_claims_state(*old(self), *final(self))
                    &&& same_pool(*old(pool), *final(pool))
                })
                &&& (old(self).gate_outcome(oracle_data_id, *oracle) is Ok && !old(
                    pool,
                ).reservations_map().contains_key(claim_id) && old(
                    self,
                ).claims_map()[claim_id].amount > old(pool).spec_available() ==> {
                    &&& r == Err::<(), ContractError>(ContractError::InsufficientFunds)
                    &&& same_claims_state(*old(self), *final(self))
                    &&& same_pool(*old(pool), *final(pool))
                })
                &&& (old(self).gate_outcome(oracle_data_id, *oracle) is Ok && !old(
                    pool,
                ).reservations_map().contains_key(claim_id) && old(
                    self,
                ).claims_map()[claim_id].amount <= old(pool).spec_available() ==> {
                    &&& r == Ok::<(), ContractError>(())
                    &&& final(self).claims_map() == old(self).claims_map().insert(
                        claim_id,
                        Claim {
                            status: ClaimStatus::Approved,
                            ..old(self).claims_map()[claim_id]
                        },
                    )
                    &&& (old(self).gate_outcome(oracle_data_id, *oracle) matches Ok(recorded)
                        ==> final(self).claim_oracle_map() == match recorded {
                        Some(oid) => old(self).claim_oracle_map().insert(claim_id, oid),
                        None => old(self).claim_oracle_map(),
                    })
                    &&& claim_transition_allowed(
                        old(self).claims_map()[claim_id].status,
                        final(self).claims_map()[claim_id].status,
                    )
                    &&& final(self).spec_events() == old(self).spec_events().push(
                        ClaimEvent::ClaimApproved {
                            claim_id,
                            claimant: old(self).claims_map()[claim_id].claimant,
                            amount: old(self).claims_map()[claim_id].amount,
                        },
                    )
                    &&& final(self).spec_admin() == old(self).spec_admin()
                    &&& final(self).spec_config() == old(self).spec_config()
                    &&& final(self).spec_paused() == old(self).spec_paused()
                    &&& final(self).spec_claim_seq() == old(self).spec_claim_seq()
                    &&& final(self).policy_claims_map() == old(self).policy_claims_map()
                    &&& final(self).spec_oracle_config() == old(self).spec_oracle_config()
                    &&& final(pool).reservations_map() == old(pool).reservations_map().insert(
                        claim_id,
                        Reservation {
                            amount: old(self).claims_map()[claim_id].amount,
                            consumed: false,
                        },
                    )
                    &&& final(pool).spec_available() == old(pool).spec_available() - old(
                        self,
                    ).claims_map()[claim_id].amount
                    &&& final(pool).spec_payouts() == old(pool).spec_payouts()
                    &&& (reserved_for_approved(*old(self), *old(pool)) ==> reserved_for_approved(
                        *final(self),
                        *final(pool),
                    ))
                })
            },
    {
        let admin = match self.admin {
            Some(admin) => admin,
            None => {
                return Err(ContractError::NotInitialized);
            },
        };
        if admin != caller {
            return Err(ContractError::Unauthorized);
        }
        let claim = match self.claims.get(&claim_id) {
            Some(claim) => *claim,
            None => {
                return Err(ContractError::NotFound);
            },
        };
        if claim.status != ClaimStatus::UnderReview {
            return Err(ContractError::InvalidState);
        }
        let mut recorded: Option<u64> = None;
        if let Some(config) = self.oracle_config {
            if config.require_oracle_validation {
                let oid = match oracle_data_id {
                    Some(oid) => oid,
                    None => {
                        return Err(ContractError::OracleValidationFailed);
                    },
                };
                let submission_count = oracle.get_submission_count(oid);
                if submission_count < config.min_oracle_submissions {
                    return Err(ContractError::InsufficientOracleSubmissions);
                }
                if let Err(e) = oracle.resolve_oracle_data(oid) {
                    return Err(e);
                }
                recorded = Some(oid);
            }
        }
        if let Err(e) = pool.reserve_liquidity(claim_id, claim.amount) {
            return Err(e);
        }
        if let Some(oid) = recorded {
            self.claim_oracle.insert(claim_id, oid);
        }
        let updated = Claim { status: ClaimStatus::Approved, ..claim };
        self.claims.insert(claim_id, updated);
        self.events.push(ClaimEvent::ClaimApproved {
            claim_id,
            claimant: claim.claimant,
            amount: claim.amount,
        });
        proof {
            lemma_claims_wf_update(*old(self), *self, claim_id, updated);
            if reserved_for_approved(*old(self), *old(pool)) {
                assert forall|cid: u64|
                    self.claims_map().contains_key(cid) && self.claims_map()[cid].status
                        is Approved implies {
                    &&& pool.reservations_map().contains_key(cid)
                    &&& !pool.reservations_map()[cid].consumed
                    &&& pool.reservations_map()[cid].amount == self.claims_map()[cid].amount
                } by {
                    if cid != claim_id {
                        assert(old(self).claims_map()[cid] == self.claims_map()[cid]);
                        assert(old(self).claims_map().contains_key(cid));
                    }
                }
            }
        }
        Ok(())
    }

    /// Administrator-gated settlement of an approved claim: the risk pool
    /// disburses the reserved funds to the claimant, consuming the
    /// reservation, and the claim becomes `Settled` in the same logical
    /// step. A claim not in `Approved` fails with `InvalidState` before the
    /// pool is involved; a failed payout leaves the claim `Approved`, so
    /// settlement can be retried without ever paying twice.
    pub fn settle_claim(&mut self, caller: Address, claim_id: u64, pool: &mut RiskPool) -> (r:
        Result<(), ContractError>)
        requires
            old(self).wf(),
            old(pool).wf(),
        ensures
            final(self).wf(),
            final(pool).wf(),
            old(self).spec_admin() is None ==> {
                &&& r == Err::<(), ContractError>(ContractError::NotInitialized)
                &&& same_claims_state(*old(self), *final(self))
                &&& same_pool(*old(pool), *final(pool))
            },
            old(self).spec_admin() is Some && !old(self).is_admin(caller) ==> {
                &&& r == Err::<(), ContractError>(ContractError::Unauthorized)
                &&& same_claims_state(*old(self), *final(self))
                &&& same_pool(*old(pool), *final(pool))
            },
            old(self).is_admin(caller) && !old(self).claims_map().contains_key(claim_id) ==> {
                &&& r == Err::<(), ContractError>(ContractError::NotFound)
                &&& same_claims_state(*old(self), *final(self))
                &&& same_pool(*old(pool), *final(pool))
            },
            old(self).is_admin(caller) && old(self).claims_map().contains_key(claim_id) && !(old(
                self,
            ).claims_map()[claim_id].status is Approved) ==> {
                &&& r == Err::<(), ContractError>(ContractError::InvalidState)
                &&& same_claims_state(*old(self), *final(self))
                &&& same_pool(*old(pool), *final(pool))
            },
            old(self).is_admin(caller) && old(self).claims_map().contains_key(claim_id) && old(
                self,
            ).claims_map()[claim_id].status is Approved && !(old(
                pool,
            ).reservations_map().contains_key(claim_id) && !old(
                pool,
            ).reservations_map()[claim_id].consumed) ==> {
                &&& r == Err::<(), ContractError>(ContractError::InvalidState)
                &&& same_claims_state(*old(self), *final(self))
                &&& same_pool(*old(pool), *final(pool))
            },
            old(self).is_admin(caller) && old(self).claims_map().contains_key(claim_id) && old(
                self,
            ).claims_map()[claim_id].status is Approved && old(
                pool,
            ).reservations_map().contains_key(claim_id) && !old(
                pool,
            ).reservations_map()[claim_id].consumed ==> {
                &&& r == Ok::<(), ContractError>(())
                &&& final(self).claims_map() == old(self).claims_map().insert(
                    claim_id,
                    Claim { status: ClaimStatus::Settled, ..old(self).claims_map()[claim_id] },
                )
                &&& claim_transition_allowed(
                    old(self).claims_map()[claim_id].status,
                    final(self).claims_map()[claim_id].status,
                )
                &&& final(self).spec_events() == old(self).spec_events().push(
                    ClaimEvent::ClaimSettled {
                        claim_id,
                        claimant: old(self).claims_map()[claim_id].claimant,
                        amount: old(self).claims_map()[claim_id].amount,
                    },
                )
                &&& final(self).spec_admin() == old(self).spec_admin()
                &&& final(self).spec_config() == old(self).spec_config()
                &&& final(self).spec_paused() == old(self).spec_paused()
                &&& final(self).spec_claim_seq() == old(self).spec_claim_seq()
                &&& final(self).policy_claims_map() == old(self).policy_claims_map()
                &&& final(self).spec_oracle_config() == old(self).spec_oracle_config()
                &&& final(self).claim_oracle_map() == old(self).claim_oracle_map()
                &&& final(pool).reservations_map() == old(pool).reservations_map().insert(
                    claim_id,
                    Reservation {
                        amount: old(pool).reservations_map()[claim_id].amount,
                        consumed: true,
                    },
                )
                &&& final(pool).spec_payouts() == old(pool).spec_payouts().push(
                    Payout {
                        claim_id,
                        claimant: old(self).claims_map()[claim_id].claimant,
                        amount: old(pool).reservations_map()[claim_id].amount,
                    },
                )
                &&& final(pool).spec_available() == old(pool).spec_available()
                &&& (reserved_for_approved(*old(self), *old(pool)) ==> reserved_for_approved(
                    *final(self),
                    *final(pool),
                ))
            },
    {
        let admin = match self.admin {
            Some(admin) => admin,
            None => {
                return Err(ContractError::NotInitialized);
            },
        };
        if admin != caller {
            return Err(ContractError::Unauthorized);
        }
        let claim = match self.claims.get(&claim_id) {
            Some(claim) => *claim,
            None => {
                return Err(ContractError::NotFound);
            },
        };
        if claim.status != ClaimStatus::Approved {
            return Err(ContractError::InvalidState);
        }
        if let Err(e) = pool.payout_reserved_claim(claim_id, claim.claimant) {
            return Err(e);
        }
        let updated = Claim { status: ClaimStatus::Settled, ..claim };
        self.claims.insert(claim_id, updated);
        self.events.push(ClaimEvent::ClaimSettled {
            claim_id,
            claimant: claim.claimant,
            amount: claim.amount,
        });
        proof {
            lemma_claims_wf_update(*old(self), *self, claim_id, updated);
            if reserved_for_approved(*old(self), *old(pool)) {
                assert forall|cid: u64|
                    self.claims_map().contains_key(cid) && self.claims_map()[cid].status
                        is Approved implies {
                    &&& pool.reservations_map().contains_key(cid)
                    &&& !pool.reservations_map()[cid].consumed
                    &&& pool.reservations_map()[cid].amount == self.claims_map()[cid].amount
                } by {
                    assert(cid != claim_id);
                    assert(old(self).claims_map()[cid] == self.claims_map()[cid]);
                    assert(old(self).claims_map().contains_key(cid));
                }
            }
        }
        Ok(())
    }
}

} // verus!
