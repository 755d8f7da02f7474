//! Core engine of a parametric insurance platform.
//!
//! The crate models the three collaborating ledger-resident components of the
//! platform as explicit state owned by value: a policy registry that issues
//! and retires coverage contracts, a claims registry that adjudicates and
//! settles claims filed against those policies, and a risk-pool ledger that
//! earmarks funds for approved claims and disburses them exactly once at
//! settlement. An optional oracle gate guards claim approval behind external
//! consensus data.
//!
//! Every lifecycle transition is checked against a closed transition graph,
//! duplicate claims against one policy are rejected, and the contracts of the
//! mutating operations state precisely which inputs succeed, which error each
//! rejected input produces, and how the state after the call relates to the
//! state before it.

pub mod authorization;
pub mod claims;
pub mod oracle;
pub mod policy;
pub mod risk_pool;
