use insured_core::authorization::{
    grant_role, initialize_admin, is_trusted_contract, register_trusted_contract, require_admin,
    require_policy_management, revoke_role, AuthError, AuthState, Role,
};
use insured_core::claims::{ClaimStatus, ClaimsContract, ContractError, OracleValidationConfig};
use insured_core::oracle::{Oracle, OracleRecord};
use insured_core::risk_pool::RiskPool;

const ADMIN: u64 = 1;
const CLAIMANT: u64 = 9;
const ORACLE_REF: u64 = 70;
const NOW: u64 = 1_700_000_000;

fn gated_claims(require_validation: bool, min_submissions: u32) -> ClaimsContract {
    let mut claims = ClaimsContract::new();
    claims.initialize(ADMIN, 50, 60).unwrap();
    claims
        .set_oracle_config(ADMIN, ORACLE_REF, require_validation, min_submissions)
        .unwrap();
    claims
}

fn record(submissions: u32, stale: bool, outlier: bool) -> OracleRecord {
    OracleRecord {
        value: 1_234,
        submissions,
        confidence: 90,
        timestamp: NOW,
        stale,
        outlier,
    }
}

fn under_review_claim(claims: &mut ClaimsContract) -> u64 {
    let claim_id = claims.submit_claim(CLAIMANT, 7, 5_000, NOW).unwrap();
    claims.start_review(ADMIN, claim_id).unwrap();
    claim_id
}

#[test]
fn oracle_config_round_trip() {
    let claims = gated_claims(true, 3);
    assert_eq!(
        claims.get_oracle_config(),
        Ok(OracleValidationConfig {
            oracle_contract: ORACLE_REF,
            require_oracle_validation: true,
            min_oracle_submissions: 3,
        })
    );
}

#[test]
fn approval_without_reference_fails_when_gate_enabled() {
    let mut claims = gated_claims(true, 3);
    let oracle = Oracle::new();
    let mut pool = RiskPool::new(10_000_000);

    let claim_id = under_review_claim(&mut claims);
    let result = claims.approve_claim(ADMIN, claim_id, None, &oracle, &mut pool);
    assert_eq!(result, Err(ContractError::OracleValidationFailed));
    // The claim remains UnderReview and the pool was never involved.
    assert_eq!(claims.get_claim(claim_id).unwrap().status, ClaimStatus::UnderReview);
    assert_eq!(pool.available_liquidity(), 10_000_000);
    assert!(pool.reservation(claim_id).is_none());
}

#[test]
fn approval_passes_the_gate_and_records_the_audit_trail() {
    let mut claims = gated_claims(true, 3);
    let mut oracle = Oracle::new();
    oracle.set_record(500, record(5, false, false));
    let mut pool = RiskPool::new(10_000_000);

    let claim_id = under_review_claim(&mut claims);
    claims
        .approve_claim(ADMIN, claim_id, Some(500), &oracle, &mut pool)
        .unwrap();
    assert_eq!(claims.get_claim(claim_id).unwrap().status, ClaimStatus::Approved);
    assert_eq!(claims.get_claim_oracle_data(claim_id), Ok(500));
    assert_eq!(pool.reservation(claim_id).unwrap().amount, 5_000);
}

#[test]
fn approval_fails_on_too_few_submissions() {
    let mut claims = gated_claims(true, 3);
    let mut oracle = Oracle::new();
    oracle.set_record(500, record(2, false, false));
    let mut pool = RiskPool::new(10_000_000);

    let claim_id = under_review_claim(&mut claims);
    let result = claims.approve_claim(ADMIN, claim_id, Some(500), &oracle, &mut pool);
    assert_eq!(result, Err(ContractError::InsufficientOracleSubmissions));
    assert_eq!(claims.get_claim(claim_id).unwrap().status, ClaimStatus::UnderReview);
    assert!(pool.reservation(claim_id).is_none());
}

#[test]
fn oracle_failures_propagate_unchanged() {
    let mut claims = gated_claims(true, 3);
    let mut oracle = Oracle::new();
    oracle.set_record(500, record(5, true, false));
    oracle.set_record(501, record(5, false, true));
    let mut pool = RiskPool::new(10_000_000);

    let claim_id = under_review_claim(&mut claims);
    assert_eq!(
        claims.approve_claim(ADMIN, claim_id, Some(500), &oracle, &mut pool),
        Err(ContractError::OracleDataStale)
    );
    assert_eq!(
        claims.approve_claim(ADMIN, claim_id, Some(501), &oracle, &mut pool),
        Err(ContractError::OracleOutlierDetected)
    );
    assert_eq!(claims.get_claim(claim_id).unwrap().status, ClaimStatus::UnderReview);
}

#[test]
fn validation_disabled_succeeds_without_contacting_the_oracle() {
    let mut claims = gated_claims(false, 3);
    // Every record in this oracle would fail validation; with validation
    // disabled the call still succeeds, showing the oracle is not consulted.
    let mut oracle = Oracle::new();
    oracle.set_record(500, record(0, true, true));

    let result = claims.validate_claim_with_oracle(1, 500, &oracle);
    assert_eq!(result, Ok(true));
    // Nothing was recorded for audit either.
    assert_eq!(claims.get_claim_oracle_data(1), Err(ContractError::NotFound));

    // Approval under disabled validation needs no oracle reference.
    let mut pool = RiskPool::new(10_000_000);
    let claim_id = under_review_claim(&mut claims);
    assert!(claims
        .approve_claim(ADMIN, claim_id, None, &oracle, &mut pool)
        .is_ok());
}

#[test]
fn standalone_validation_records_and_is_idempotent() {
    let mut claims = gated_claims(true, 3);
    let mut oracle = Oracle::new();
    oracle.set_record(500, record(4, false, false));

    assert_eq!(claims.validate_claim_with_oracle(8, 500, &oracle), Ok(true));
    assert_eq!(claims.get_claim_oracle_data(8), Ok(500));
    // Repeating the call with the same arguments stores the same entry.
    assert_eq!(claims.validate_claim_with_oracle(8, 500, &oracle), Ok(true));
    assert_eq!(claims.get_claim_oracle_data(8), Ok(500));

    // Too few submissions and unknown data identifiers are rejected.
    oracle.set_record(600, record(1, false, false));
    assert_eq!(
        claims.validate_claim_with_oracle(8, 600, &oracle),
        Err(ContractError::InsufficientOracleSubmissions)
    );
    assert_eq!(
        claims.validate_claim_with_oracle(8, 999, &oracle),
        Err(ContractError::InsufficientOracleSubmissions)
    );
}

#[test]
fn validation_without_config_fails_not_found() {
    let mut claims = ClaimsContract::new();
    claims.initialize(ADMIN, 50, 60).unwrap();
    let oracle = Oracle::new();
    assert_eq!(
        claims.validate_claim_with_oracle(1, 500, &oracle),
        Err(ContractError::NotFound)
    );
}

#[test]
fn oracle_resolution_outcomes() {
    let mut oracle = Oracle::new();
    oracle.set_record(500, record(5, false, false));
    oracle.set_record(501, record(5, true, false));
    oracle.set_record(502, record(5, false, true));

    assert_eq!(oracle.get_submission_count(500), 5);
    assert_eq!(oracle.get_submission_count(999), 0);
    assert_eq!(oracle.resolve_oracle_data(500), Ok((1_234, 5, 90, NOW)));
    assert_eq!(
        oracle.resolve_oracle_data(501),
        Err(ContractError::OracleDataStale)
    );
    assert_eq!(
        oracle.resolve_oracle_data(502),
        Err(ContractError::OracleOutlierDetected)
    );
    assert_eq!(
        oracle.resolve_oracle_data(999),
        Err(ContractError::NotFound)
    );
}

#[test]
fn risk_pool_reservation_is_exclusive_per_claim() {
    let mut pool = RiskPool::new(10_000);

    assert_eq!(pool.reserve_liquidity(1, 0), Err(ContractError::InvalidInput));
    assert_eq!(pool.reserve_liquidity(1, -3), Err(ContractError::InvalidInput));
    assert_eq!(
        pool.reserve_liquidity(1, 20_000),
        Err(ContractError::InsufficientFunds)
    );

    pool.reserve_liquidity(1, 6_000).unwrap();
    assert_eq!(pool.available_liquidity(), 4_000);
    // A second reservation for the same claim identifier is an error.
    assert_eq!(pool.reserve_liquidity(1, 1_000), Err(ContractError::AlreadyExists));
    // The earmarked funds are gone from the available liquidity.
    assert_eq!(
        pool.reserve_liquidity(2, 5_000),
        Err(ContractError::InsufficientFunds)
    );
    pool.reserve_liquidity(2, 4_000).unwrap();
    assert_eq!(pool.available_liquidity(), 0);
}

#[test]
fn risk_pool_payout_consumes_one_reservation() {
    let mut pool = RiskPool::new(10_000);

    // No reservation: nothing to pay.
    assert_eq!(
        pool.payout_reserved_claim(1, CLAIMANT),
        Err(ContractError::InvalidState)
    );

    pool.reserve_liquidity(1, 6_000).unwrap();
    pool.payout_reserved_claim(1, CLAIMANT).unwrap();
    assert_eq!(pool.payouts().len(), 1);
    assert_eq!(pool.payouts()[0].amount, 6_000);

    // The reservation is consumed: a second payout fails.
    assert_eq!(
        pool.payout_reserved_claim(1, CLAIMANT),
        Err(ContractError::InvalidState)
    );
    assert_eq!(pool.payouts().len(), 1);
}

#[test]
fn authorization_capability_checks() {
    let mut auth = AuthState::new();
    assert_eq!(require_admin(&auth, ADMIN), Err(AuthError::Unauthorized));

    initialize_admin(&mut auth, ADMIN);
    assert_eq!(require_admin(&auth, ADMIN), Ok(()));
    assert_eq!(require_admin(&auth, 2), Err(AuthError::Unauthorized));

    // Only the administrator may grant, and the empty role cannot be granted.
    assert_eq!(
        grant_role(&mut auth, 2, 3, Role::PolicyManager),
        Err(AuthError::Unauthorized)
    );
    assert_eq!(
        grant_role(&mut auth, ADMIN, 3, Role::NoRole),
        Err(AuthError::InvalidRole)
    );
    assert_eq!(require_policy_management(&auth, 3), Err(AuthError::Unauthorized));

    grant_role(&mut auth, ADMIN, 3, Role::PolicyManager).unwrap();
    assert_eq!(require_policy_management(&auth, 3), Ok(()));

    revoke_role(&mut auth, ADMIN, 3).unwrap();
    assert_eq!(require_policy_management(&auth, 3), Err(AuthError::Unauthorized));
    assert_eq!(revoke_role(&mut auth, ADMIN, 3), Err(AuthError::RoleNotFound));
}

#[test]
fn trusted_contract_registration_is_admin_gated() {
    let mut auth = AuthState::new();
    assert_eq!(
        register_trusted_contract(&mut auth, ADMIN, 60),
        Err(AuthError::Unauthorized)
    );
    initialize_admin(&mut auth, ADMIN);
    assert!(!is_trusted_contract(&auth, 60));
    register_trusted_contract(&mut auth, ADMIN, 60).unwrap();
    assert!(is_trusted_contract(&auth, 60));
}
