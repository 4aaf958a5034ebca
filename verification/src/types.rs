//! The data that flows through the protection pipeline.
//!
//! Scores and confidences are fixed-point numbers in ten-thousandths:
//! `SCORE_ONE` (10000) stands for 1.0.
use vstd::prelude::*;

verus! {

/// The fixed-point unit: 10000 ten-thousandths make 1.0.
pub const SCORE_ONE: u32 = 10000;

#[verifier::external_type_specification]
#[verifier::external_body]
pub struct ExJsonValue(serde_json::Value);

/// An AI agent's declared intent: the input to the protection pipeline.
#[derive(Debug)]
pub struct AgentIntent {
    pub intent_id: String,
    pub agent_id: String,
    /// Abstract action verb declared by the agent ("delete", "read", ...).
    pub action: String,
    /// The target resource as a URI ("file://...", "process://...").
    pub target_uri: String,
    /// Free-form data the agent attached; carried through untouched.
    pub metadata: serde_json::Value,
}

/// What Guardian believes a resource is.
#[derive(Debug, Clone)]
pub struct SemanticEntity {
    pub uri: String,
    /// Abstract tags such as "role:user_data" or "context:work".
    pub semantic_tags: Vec<String>,
    /// Classification confidence in ten-thousandths: 0 = unknown, 10000 = fully classified.
    pub confidence_score: u32,
    pub last_observed: i64,
}

/// The kind of a safety rule.
#[derive(Debug, Clone, Copy, PartialEq, Eq, Structural)]
pub enum RuleType {
    /// Hard block; no score, no prompt.
    AlwaysBlock,
    /// Skip scoring and ask the user.
    AlwaysRequireConfirmation,
    /// The scope is off-limits for this agent.
    NeverAllowScope,
}

/// A user constraint kept outside agent memory.
#[derive(Debug, Clone)]
pub struct SafetyRule {
    pub rule_id: String,
    pub rule_type: RuleType,
    /// Tags that must all match for the rule to fire. "action:" tags match the
    /// intent's verb; other tags match the target's semantic tags.
    pub scope_tags: Vec<String>,
    /// None, or "all", applies to every agent; otherwise only to the named agent.
    pub applies_to_agent: Option<String>,
    pub created_by: String,
}

/// The permission decision for an agent action.
#[derive(Debug, Clone)]
pub enum GateDecision {
    /// Proceed silently.
    Allow,
    /// Proceed, taking a rollback snapshot.
    AllowWithLog,
    /// Pause and show the user a preview.
    RequireUserConfirmation { preview: String },
    /// Hard denied.
    Block { reason: String },
}

/// The outcome of risk scoring.
#[derive(Debug, Clone)]
pub struct RiskAssessment {
    /// The final score in ten-thousandths.
    pub score: u32,
    pub triggered_policies: Vec<String>,
    pub recommended_action: GateDecision,
}

/// Short-lived token issued to an agent on approval.
#[derive(Debug, Clone)]
pub struct PermissionToken {
    pub token_id: String,
    pub agent_id: String,
    pub intent_hash: String,
    pub issued_at: i64,
    pub expires_at: i64,
    pub gate_decision: String,
}

/// The final output of the protection pipeline.
#[derive(Debug, Clone)]
pub enum ProtectionResult {
    /// The agent may proceed, using the token.
    Permitted { token: PermissionToken, assessment: RiskAssessment },
    /// Waiting for the user.
    PendingConfirmation { confirmation_id: String, preview: String, assessment: RiskAssessment },
    /// Denied by score or by the user.
    Denied { reason: String, assessment: RiskAssessment },
    /// Denied by a safety rule before any scoring.
    RuleBlocked { rule_id: String, rule_type: String },
}

/// What the knowledge graph knows about an intent, read once before scoring.
#[derive(Debug, Clone)]
pub struct SystemContext {
    pub semantic_entity: Option<SemanticEntity>,
    pub agent_trust_level: Option<i32>,
    pub recent_event_count: usize,
}

} // verus!
