//! Risk scoring: composable policies combined by a weighted maximum.
pub mod engine;
pub mod policies;
pub mod policy_trait;

pub use engine::RiskScoringEngine;
pub use policies::{
    DestructiveActionPolicy, RegisteredPolicy, ScopeAmbiguityPolicy, SystemResourcePolicy,
    UntrustedAgentPolicy,
};
pub use policy_trait::RiskPolicy;
