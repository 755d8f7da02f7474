//! Risk-pool ledger, at its interface boundary: it earmarks liquidity for an
//! approved claim (exclusively, once per claim identifier) and later
//! disburses it at settlement, consuming the reservation exactly once, so a
//! settlement can never pay twice.

use vstd::prelude::*;
use std::collections::HashMap;
use crate::claims::ContractError;
use crate::policy::Address;

verus! {

broadcast use vstd::std_specs::hash::group_hash_axioms;

/// Funds earmarked for one claim. Once consumed by a payout it can never be
/// paid again.
#[derive(Clone, Copy, Debug, PartialEq, Eq, Structural)]
pub struct Reservation {
    pub amount: i128,
    pub consumed: bool,
}

/// One disbursement made by the pool.
#[derive(Clone, Copy, Debug, PartialEq, Eq, Structural)]
pub struct Payout {
    pub claim_id: u64,
    pub claimant: Address,
    pub amount: i128,
}

/// The risk-pool ledger: uncommitted liquidity, the reservations keyed by
/// claim identifier, and the log of disbursements.
pub struct RiskPool {
    available: i128,
    reservations: HashMap<u64, Reservation>,
    payouts: Vec<Payout>,
}

/// The two pools hold the same liquidity, reservations and payout log.
pub open spec fn same_pool(a: RiskPool, b: RiskPool) -> bool {
    &&& a.spec_available() == b.spec_available()
    &&& a.reservations_map() == b.reservations_map()
    &&& a.spec_payouts() == b.spec_payouts()
}

impl RiskPool {
    /// Liquidity not yet earmarked for any claim.
    pub closed spec fn spec_available(self) -> i128 {
        self.available
    }

    /// The reservations, keyed by claim identifier.
    pub closed spec fn reservations_map(self) -> Map<u64, Reservation> {
        self.reservations@
    }

    /// The disbursements made so far, oldest first.
    pub closed spec fn spec_payouts(self) -> Seq<Payout> {
        self.payouts@
    }

    /// Well-formedness: liquidity is never negative and every reservation
    /// earmarks a positive amount.
    pub open spec fn wf(self) -> bool {
        &&& self.spec_available() >= 0
        &&& forall|cid: u64|
            #![trigger self.reservations_map()[cid]]
            self.reservations_map().contains_key(cid) ==> self.reservations_map()[cid].amount > 0
    }

    /// A fresh pool holding `initial_liquidity`, with no reservations and no
    /// payouts.
    pub fn new(initial_liquidity: i128) -> (pool: RiskPool)
        requires
            initial_liquidity >= 0,
        ensures
            pool.wf(),
            pool.spec_available() == initial_liquidity,
            pool.reservations_map() == Map::<u64, Reservation>::empty(),
            pool.spec_payouts() == Seq::<Payout>::empty(),
    {
        RiskPool { available: initial_liquidity, reservations: HashMap::new(), payouts: Vec::new() }
    }

    /// Liquidity not yet earmarked for any claim.
    pub fn available_liquidity(&self) -> (r: i128)
        ensures
            r == self.spec_available(),
    {
        self.available
    }

    /// The reservation held for `claim_id`, if any.
    pub fn reservation(&self, claim_id: u64) -> (r: Option<Reservation>)
        ensures
            self.reservations_map().contains_key(claim_id) ==> r == Some(
                self.reservations_map()[claim_id],
            ),
            !self.reservations_map().contains_key(claim_id) ==> r is None,
    {
        match self.reservations.get(&claim_id) {
            Some(reservation) => Some(*reservation),
            None => None,
        }
    }

    /// The disbursements made so far, oldest first.
    pub fn payouts(&self) -> (r: &Vec<Payout>)
        ensures
            r@ == self.spec_payouts(),
    {
        &self.payouts
    }

    /// Earmarks `amount` for `claim_id`. Reservation is exclusive per claim
    /// identifier: a second reservation for the same identifier fails with
    /// `AlreadyExists`. A non-positive amount fails with `InvalidInput` and
    /// a shortfall with `InsufficientFunds`; a failed call leaves the pool
    /// unchanged.
    pub fn reserve_liquidity(&mut self, claim_id: u64, amount: i128) -> (r: Result<
        (),
        ContractError,
    >)
        requires
            old(self).wf(),
        ensures
            final(self).wf(),
            old(self).reservations_map().contains_key(claim_id) ==> {
                &&& r == Err::<(), ContractError>(ContractError::AlreadyExists)
                &&& same_pool(*old(self), *final(self))
            },
            !old(self).reservations_map().contains_key(claim_id) && amount <= 0 ==> {
                &&& r == Err::<(), ContractError>(ContractError::InvalidInput)
                &&& same_pool(*old(self), *final(self))
            },
            !old(self).reservations_map().contains_key(claim_id) && amount > old(
                self,
            ).spec_available() ==> {
                &&& r == Err::<(), ContractError>(ContractError::InsufficientFunds)
                &&& same_pool(*old(self), *final(self))
            },
            !old(self).reservations_map().contains_key(claim_id) && 0 < amount <= old(
                self,
            ).spec_available() ==> {
                &&& r == Ok::<(), ContractError>(())
                &&& final(self).reservations_map() == old(self).reservations_map().insert(
                    claim_id,
                    Reservation { amount, consumed: false },
                )
                &&& final(self).spec_available() == old(self).spec_available() - amount
                &&& final(self).spec_payouts() == old(self).spec_payouts()
            },
    {
        if self.reservations.contains_key(&claim_id) {
            return Err(ContractError::AlreadyExists);
        }
        if amount <= 0 {
            return Err(ContractError::InvalidInput);
        }
        if amount > self.available {
            return Err(ContractError::InsufficientFunds);
        }
        self.available = self.available - amount;
        self.reservations.insert(claim_id, Reservation { amount, consumed: false });
        proof {
            assert forall|cid: u64| self.reservations_map().contains_key(cid) implies self
                .reservations_map()[cid].amount > 0 by {
                if cid != claim_id {
                    assert(old(self).reservations_map()[cid].amount > 0);
                }
            }
        }
        Ok(())
    }

    /// Disburses the funds reserved for `claim_id` to `claimant`, consuming
    /// the reservation: a claim without an unconsumed reservation fails with
    /// `InvalidState` and nothing is paid, so no claim is ever paid twice.
    pub fn payout_reserved_claim(&mut self, claim_id: u64, claimant: Address) -> (r: Result<
        (),
        ContractError,
    >)
        requires
            old(self).wf(),
        ensures
            final(self).wf(),
            !(old(self).reservations_map().contains_key(claim_id) && !old(
                self,
            ).reservations_map()[claim_id].consumed) ==> {
                &&& r == Err::<(), ContractError>(ContractError::InvalidState)
                &&& same_pool(*old(self), *final(self))
            },
            old(self).reservations_map().contains_key(claim_id) && !old(
                self,
            ).reservations_map()[claim_id].consumed ==> {
                &&& r == Ok::<(), ContractError>(())
                &&& final(self).reservations_map() == old(self).reservations_map().insert(
                    claim_id,
                    Reservation { amount: old(self).reservations_map()[claim_id].amount, consumed: true },
                )
                &&& final(self).spec_payouts() == old(self).spec_payouts().push(
                    Payout {
                        claim_id,
                        claimant,
                        amount: old(self).reservations_map()[claim_id].amount,
                    },
                )
                &&& final(self).spec_available() == old(self).spec_available()
            },
    {
        let reservation = match self.reservations.get(&claim_id) {
            Some(reservation) => *reservation,
            None => {
                return Err(ContractError::InvalidState);
            },
        };
        if reservation.consumed {
            return Err(ContractError::InvalidState);
        }
        self.reservations.insert(claim_id, Reservation { amount: reservation.amount, consumed: true });
        self.payouts.push(Payout { claim_id, claimant, amount: reservation.amount });
        proof {
            assert forall|cid: u64| self.reservations_map().contains_key(cid) implies self
                .reservations_map()[cid].amount > 0 by {
                if cid != claim_id {
                    assert(old(self).reservations_map()[cid].amount > 0);
                }
            }
        }
        Ok(())
    }
}

} // verus!
