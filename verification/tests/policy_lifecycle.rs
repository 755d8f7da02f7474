use insured_core::policy::{
    ContractError, Policy, PolicyContract, PolicyError, PolicyState, PolicyEvent,
    is_valid_policy_state_transition, validate_coverage_amount, validate_duration,
    validate_premium_amount, MAX_COVERAGE_AMOUNT, MAX_PREMIUM_AMOUNT, MAX_POLICY_DURATION_DAYS,
    MIN_COVERAGE_AMOUNT, MIN_PREMIUM_AMOUNT, MIN_POLICY_DURATION_DAYS,
};
use insured_core::authorization::{AuthError, Role};
use insured_core::claims::{ClaimsContract, ContractError as ClaimsError};

const ADMIN: u64 = 1;
const MANAGER: u64 = 2;
const HOLDER: u64 = 3;
const RISK_POOL: u64 = 4;
const NOW: u64 = 0;

fn initialized_registry() -> PolicyContract {
    let mut registry = PolicyContract::new();
    registry.initialize(ADMIN, RISK_POOL).unwrap();
    registry.grant_manager_role(ADMIN, MANAGER).unwrap();
    registry
}

#[test]
fn test_valid_policy_issuance() {
    let mut registry = initialized_registry();

    let coverage = MIN_COVERAGE_AMOUNT + 1000;
    let premium = MIN_PREMIUM_AMOUNT + 100;
    let duration = 30;

    let policy_id = registry
        .issue_policy(MANAGER, HOLDER, coverage, premium, duration, NOW)
        .unwrap();

    assert_eq!(policy_id, 1);

    let policy = registry.get_policy(policy_id).unwrap();
    assert_eq!(policy.holder, HOLDER);
    assert_eq!(policy.coverage_amount, coverage);
    assert_eq!(policy.premium_amount, premium);
    assert_eq!(policy.state(), PolicyState::Active);
}

#[test]
fn test_invalid_coverage_too_low() {
    let mut registry = initialized_registry();

    let result = registry.issue_policy(
        MANAGER,
        HOLDER,
        MIN_COVERAGE_AMOUNT - 1,
        MIN_PREMIUM_AMOUNT + 100,
        30,
        NOW,
    );

    assert_eq!(result, Err(ContractError::InvalidAmount));
}

#[test]
fn test_invalid_coverage_too_high() {
    let mut registry = initialized_registry();

    let result = registry.issue_policy(
        MANAGER,
        HOLDER,
        MAX_COVERAGE_AMOUNT + 1,
        MIN_PREMIUM_AMOUNT + 100,
        30,
        NOW,
    );

    assert_eq!(result, Err(ContractError::InvalidAmount));
}

#[test]
fn test_invalid_premium_too_low() {
    let mut registry = initialized_registry();

    let result = registry.issue_policy(
        MANAGER,
        HOLDER,
        MIN_COVERAGE_AMOUNT + 1000,
        MIN_PREMIUM_AMOUNT - 1,
        30,
        NOW,
    );

    assert_eq!(result, Err(ContractError::InvalidPremium));
}

#[test]
fn test_invalid_premium_too_high() {
    let mut registry = initialized_registry();

    let result = registry.issue_policy(
        MANAGER,
        HOLDER,
        MIN_COVERAGE_AMOUNT + 1000,
        MAX_PREMIUM_AMOUNT + 1,
        30,
        NOW,
    );

    assert_eq!(result, Err(ContractError::InvalidPremium));
}

#[test]
fn test_invalid_duration_too_short() {
    let mut registry = initialized_registry();

    let result = registry.issue_policy(
        MANAGER,
        HOLDER,
        MIN_COVERAGE_AMOUNT + 1000,
        MIN_PREMIUM_AMOUNT + 100,
        MIN_POLICY_DURATION_DAYS - 1,
        NOW,
    );

    assert_eq!(result, Err(ContractError::InvalidInput));
}

#[test]
fn test_invalid_duration_too_long() {
    let mut registry = initialized_registry();

    let result = registry.issue_policy(
        MANAGER,
        HOLDER,
        MIN_COVERAGE_AMOUNT + 1000,
        MIN_PREMIUM_AMOUNT + 100,
        MAX_POLICY_DURATION_DAYS + 1,
        NOW,
    );

    assert_eq!(result, Err(ContractError::InvalidInput));
}

#[test]
fn test_duplicate_policy_issuance_not_possible() {
    // Since policy IDs are unique via counter, duplicate issuance isn't possible.
    // This test ensures the counter increments properly.
    let mut registry = initialized_registry();

    let coverage = MIN_COVERAGE_AMOUNT + 1000;
    let premium = MIN_PREMIUM_AMOUNT + 100;
    let duration = 30;

    let policy_id1 = registry
        .issue_policy(MANAGER, HOLDER, coverage, premium, duration, NOW)
        .unwrap();
    let policy_id2 = registry
        .issue_policy(MANAGER, HOLDER, coverage, premium, duration, NOW)
        .unwrap();

    assert_eq!(policy_id1, 1);
    assert_eq!(policy_id2, 2);
    assert_ne!(policy_id1, policy_id2);
}

#[test]
fn policy_state_graph_is_closed() {
    // The only allowed edges leave Active for Expired or Cancelled.
    assert!(PolicyState::Active.can_transition_to(PolicyState::Expired));
    assert!(PolicyState::Active.can_transition_to(PolicyState::Cancelled));
    assert!(!PolicyState::Active.can_transition_to(PolicyState::Active));
    for terminal in [PolicyState::Expired, PolicyState::Cancelled] {
        for next in [PolicyState::Active, PolicyState::Expired, PolicyState::Cancelled] {
            assert!(!terminal.can_transition_to(next));
        }
    }
}

#[test]
fn policy_transition_rejected_leaves_state_unchanged() {
    let mut policy = Policy::new(HOLDER, MIN_COVERAGE_AMOUNT, MIN_PREMIUM_AMOUNT, 0, 10, 0);
    policy.expire().unwrap();
    assert!(policy.is_expired());

    let result = policy.transition_to(PolicyState::Active);
    assert_eq!(result, Err(PolicyError::InvalidStateTransition));
    assert_eq!(policy.state(), PolicyState::Expired);

    let result = policy.cancel();
    assert_eq!(result, Err(PolicyError::InvalidStateTransition));
    assert_eq!(policy.state(), PolicyState::Expired);
}

#[test]
fn transition_predicate_matches_the_closed_graph() {
    // The free-function predicate agrees with the state machine: only
    // Active -> Expired and Active -> Cancelled are valid.
    let states = [PolicyState::Active, PolicyState::Expired, PolicyState::Cancelled];
    for current in states {
        for next in states {
            assert_eq!(
                is_valid_policy_state_transition(current, next),
                current == PolicyState::Active
                    && (next == PolicyState::Expired || next == PolicyState::Cancelled)
            );
            assert_eq!(
                is_valid_policy_state_transition(current, next),
                current.can_transition_to(next)
            );
        }
    }
}

#[test]
fn validators_match_protocol_bounds() {
    assert_eq!(validate_coverage_amount(MIN_COVERAGE_AMOUNT), Ok(()));
    assert_eq!(validate_coverage_amount(MAX_COVERAGE_AMOUNT), Ok(()));
    assert_eq!(
        validate_coverage_amount(MIN_COVERAGE_AMOUNT - 1),
        Err(ContractError::InvalidAmount)
    );
    assert_eq!(validate_premium_amount(MIN_PREMIUM_AMOUNT), Ok(()));
    assert_eq!(
        validate_premium_amount(MAX_PREMIUM_AMOUNT + 1),
        Err(ContractError::InvalidPremium)
    );
    assert_eq!(validate_duration(1), Ok(()));
    assert_eq!(validate_duration(365), Ok(()));
    assert_eq!(validate_duration(0), Err(ContractError::InvalidInput));
    assert_eq!(validate_duration(366), Err(ContractError::InvalidInput));
}

#[test]
fn issuance_scenario_end_time_and_terminal_transition() {
    // Coverage 2,000,000 and premium 200,000 for 30 days: end_time is
    // start_time + 2,592,000 and the policy is Active. Two claims against
    // the issued policy id: the first succeeds, the second fails
    // AlreadyExists. After a cancellation the expiry of the same policy
    // fails InvalidState.
    let mut registry = initialized_registry();
    let start: u64 = 1_700_000_000;

    let policy_id = registry
        .issue_policy(MANAGER, HOLDER, 2_000_000, 200_000, 30, start)
        .unwrap();
    let policy = registry.get_policy(policy_id).unwrap();
    assert_eq!(policy.state(), PolicyState::Active);
    let (start_time, end_time) = registry.get_policy_dates(policy_id).unwrap();
    assert_eq!(start_time, start);
    assert_eq!(end_time, start + 2_592_000);

    let mut claims = ClaimsContract::new();
    claims.initialize(ADMIN, 50, RISK_POOL).unwrap();
    assert!(claims.submit_claim(HOLDER, policy_id, 100_000, start).is_ok());
    assert_eq!(
        claims.submit_claim(HOLDER, policy_id, 100_000, start),
        Err(ClaimsError::AlreadyExists)
    );

    registry.cancel_policy(ADMIN, policy_id).unwrap();
    assert_eq!(
        registry.get_policy_state(policy_id),
        Ok(PolicyState::Cancelled)
    );
    assert_eq!(
        registry.expire_policy(ADMIN, policy_id),
        Err(ContractError::InvalidState)
    );
    assert_eq!(
        registry.cancel_policy(ADMIN, policy_id),
        Err(ContractError::InvalidState)
    );
}

#[test]
fn issuance_gated_by_pause_and_roles() {
    let mut registry = initialized_registry();

    // A principal without the Policy-Manager role cannot issue.
    let result = registry.issue_policy(HOLDER, HOLDER, 2_000_000, 200_000, 30, NOW);
    assert_eq!(result, Err(ContractError::Unauthorized));

    // Pausing is administrator-only and blocks issuance.
    assert_eq!(registry.pause(MANAGER), Err(ContractError::Unauthorized));
    registry.pause(ADMIN).unwrap();
    assert!(registry.is_paused());
    let result = registry.issue_policy(MANAGER, HOLDER, 2_000_000, 200_000, 30, NOW);
    assert_eq!(result, Err(ContractError::Paused));

    registry.unpause(ADMIN).unwrap();
    assert!(!registry.is_paused());
    assert!(registry
        .issue_policy(MANAGER, HOLDER, 2_000_000, 200_000, 30, NOW)
        .is_ok());
}

#[test]
fn role_grants_and_revocations() {
    let mut registry = PolicyContract::new();
    registry.initialize(ADMIN, RISK_POOL).unwrap();

    assert_eq!(registry.get_user_role(MANAGER), Role::NoRole);
    assert_eq!(
        registry.grant_manager_role(MANAGER, MANAGER),
        Err(ContractError::Unauthorized)
    );
    registry.grant_manager_role(ADMIN, MANAGER).unwrap();
    assert_eq!(registry.get_user_role(MANAGER), Role::PolicyManager);

    registry.revoke_manager_role(ADMIN, MANAGER).unwrap();
    assert_eq!(registry.get_user_role(MANAGER), Role::NoRole);
    assert_eq!(
        registry.revoke_manager_role(ADMIN, MANAGER),
        Err(ContractError::RoleNotFound)
    );

    // Without the role, issuance is rejected again.
    let result = registry.issue_policy(MANAGER, HOLDER, 2_000_000, 200_000, 30, NOW);
    assert_eq!(result, Err(ContractError::Unauthorized));
}

#[test]
fn initialization_is_one_time_and_overflow_is_checked() {
    let mut registry = PolicyContract::new();
    assert_eq!(registry.get_admin(), Err(ContractError::NotInitialized));
    assert_eq!(registry.get_risk_pool(), Err(ContractError::NotInitialized));

    registry.initialize(ADMIN, RISK_POOL).unwrap();
    assert_eq!(registry.get_admin(), Ok(ADMIN));
    assert_eq!(registry.get_risk_pool(), Ok(RISK_POOL));
    assert_eq!(registry.get_config().unwrap().risk_pool, RISK_POOL);
    assert_eq!(
        registry.initialize(ADMIN, RISK_POOL),
        Err(ContractError::AlreadyInitialized)
    );

    // end_time = now + duration * 86400 is overflow-checked.
    registry.grant_manager_role(ADMIN, MANAGER).unwrap();
    let result = registry.issue_policy(MANAGER, HOLDER, 2_000_000, 200_000, 30, u64::MAX - 5);
    assert_eq!(result, Err(ContractError::Overflow));
}

#[test]
fn policy_getters_and_events() {
    let mut registry = initialized_registry();
    assert_eq!(registry.get_policy(77), Err(ContractError::NotFound));
    assert_eq!(registry.get_policy_holder(77), Err(ContractError::NotFound));
    assert_eq!(registry.get_policy_count(), 0);

    let policy_id = registry
        .issue_policy(MANAGER, HOLDER, 2_000_000, 200_000, 30, 500)
        .unwrap();
    assert_eq!(registry.get_policy_count(), 1);
    assert_eq!(registry.get_policy_holder(policy_id), Ok(HOLDER));
    assert_eq!(registry.get_coverage_amount(policy_id), Ok(2_000_000));
    assert_eq!(registry.get_premium_amount(policy_id), Ok(200_000));

    let issued = PolicyEvent::PolicyIssued {
        policy_id,
        holder: HOLDER,
        coverage_amount: 2_000_000,
        premium_amount: 200_000,
        duration_days: 30,
        issuer: MANAGER,
        timestamp: 500,
    };
    assert!(registry.events().contains(&issued));

    registry.expire_policy(ADMIN, policy_id).unwrap();
    assert_eq!(registry.get_policy_state(policy_id), Ok(PolicyState::Expired));
    assert!(registry
        .events()
        .contains(&PolicyEvent::PolicyExpired { policy_id }));
}

#[test]
fn auth_errors_map_onto_the_registry_taxonomy() {
    assert_eq!(
        ContractError::from(AuthError::Unauthorized),
        ContractError::Unauthorized
    );
    assert_eq!(
        ContractError::from(AuthError::InvalidRole),
        ContractError::InvalidRole
    );
    assert_eq!(
        ContractError::from(AuthError::RoleNotFound),
        ContractError::RoleNotFound
    );
    assert_eq!(
        ContractError::from(AuthError::NotTrustedContract),
        ContractError::NotTrustedContract
    );
}
