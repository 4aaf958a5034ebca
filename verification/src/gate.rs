//! The permission gate: turns an assessment into a token, a question to the user,
//! or a denial.
use crate::config::GateConfig;
use crate::ids::new_v4_string;
use crate::notification::{texts, NotificationLevel, UiNotification};
use crate::text::{debug_str, hex, push_hex, spec_debug_str};
use crate::types::{AgentIntent, GateDecision, PermissionToken, ProtectionResult, RiskAssessment};
use std::hash::{Hash, Hasher};
use vstd::prelude::*;

verus! {

/// What `std::collections::hash_map::DefaultHasher` (created with `new`) gives
/// after hashing a string.
pub uninterp spec fn spec_default_hash(s: Seq<char>) -> u64;

/// Hashes a string with std's `DefaultHasher::new()`, `Hash::hash` and `Hasher::finish`;
/// the result is named by `spec_default_hash`.
#[verifier::external_body]
fn md5_hash(s: &str) -> (h: u64)
    ensures
        h == spec_default_hash(s@),
{
    let mut h = std::collections::hash_map::DefaultHasher::new();
    s.hash(&mut h);
    h.finish()
}

/// Seconds a permission token stays valid.
pub const TOKEN_LIFETIME_SECS: i64 = 60;

/// `{:?}` of a decision.
pub open spec fn decision_debug(d: GateDecision) -> Seq<char> {
    match d {
        GateDecision::Allow => "Allow"@,
        GateDecision::AllowWithLog => "AllowWithLog"@,
        GateDecision::RequireUserConfirmation { preview } => "RequireUserConfirmation { preview: "@
            + spec_debug_str(preview@) + " }"@,
        GateDecision::Block { reason } => "Block { reason: "@ + spec_debug_str(reason@) + " }"@,
    }
}

/// Renders `{:?}` of a decision.
pub fn decision_debug_string(d: &GateDecision) -> (r: String)
    ensures
        r@ == decision_debug(*d),
{
    match d {
        GateDecision::Allow => String::from_str("Allow"),
        GateDecision::AllowWithLog => String::from_str("AllowWithLog"),
        GateDecision::RequireUserConfirmation { preview } => {
            let mut r = String::from_str("RequireUserConfirmation { preview: ");
            let p = debug_str(preview.as_str());
            r.append(p.as_str());
            r.append(" }");
            r
        },
        GateDecision::Block { reason } => {
            let mut r = String::from_str("Block { reason: ");
            let p = debug_str(reason.as_str());
            r.append(p.as_str());
            r.append(" }");
            r
        },
    }
}

/// The decision text stored with a token: "AllowWithLog" for that decision, else "Allow".
pub open spec fn stored_decision(d: GateDecision) -> Seq<char> {
    match d {
        GateDecision::AllowWithLog => "AllowWithLog"@,
        _ => "Allow"@,
    }
}

/// A token issued for an intent, with the decision text to store beside it.
#[derive(Debug, Clone)]
pub struct IssuedToken {
    pub token: PermissionToken,
    pub stored_decision: &'static str,
}

/// What the permission check does with an assessment.
pub enum GateStep {
    /// Issue a token: the action is permitted.
    Issue { assessment: RiskAssessment },
    /// Show the notification and wait for the user's answer, at most `timeout_secs`.
    AskUser {
        notification: UiNotification,
        confirmation_id: String,
        timeout_secs: u64,
        assessment: RiskAssessment,
    },
    /// Show the notification; the result is the denial.
    Deny { notification: UiNotification, result: ProtectionResult },
}

/// What follows the user's answer to a confirmation.
pub enum AnswerStep {
    /// The user approved: issue a token for the assessment.
    Issue { assessment: RiskAssessment },
    /// The user declined or did not answer in time: the result is the denial.
    Declined { result: ProtectionResult },
}

/// The title of the notification that asks the user.
pub open spec fn approval_title(agent_id: Seq<char>) -> Seq<char> {
    "Action Requires Approval — "@ + agent_id
}

/// The title of the notification that reports a block.
pub open spec fn blocked_title(intent: &AgentIntent) -> Seq<char> {
    "BLOCKED: "@ + intent.action@ + " by "@ + intent.agent_id@
}

/// The reason given when the user declines or does not answer in time.
pub open spec fn declined_reason() -> Seq<char> {
    "User declined or confirmation timed out."@
}

/// `s` is what the permission step does with an assessment of an intent.
pub open spec fn step_for(s: GateStep, config: GateConfig, intent: &AgentIntent, assessment: RiskAssessment) -> bool {
    match assessment.recommended_action {
        GateDecision::Allow | GateDecision::AllowWithLog => {
            &&& s matches GateStep::Issue { assessment: a }
            &&& a == assessment
        },
        GateDecision::RequireUserConfirmation { preview } => {
            &&& s matches GateStep::AskUser { notification, confirmation_id, timeout_secs, assessment: a }
            &&& a == assessment
            &&& timeout_secs == config.confirm_timeout_secs
            &&& confirmation_id@.len() == 36
            &&& notification.level == NotificationLevel::Warning
            &&& notification.title@ == approval_title(intent.agent_id@)
            &&& notification.message@ == preview@
            &&& texts(notification.action_buttons@) == seq!["Allow"@, "Block"@]
            &&& notification.confirmation_id == Some(confirmation_id)
        },
        GateDecision::Block { reason } => {
            &&& s matches GateStep::Deny { notification, result }
            &&& notification.has(NotificationLevel::Critical, blocked_title(intent), reason@, seq!["Dismiss"@])
            &&& result matches ProtectionResult::Denied { reason: r, assessment: a }
            &&& r@ == reason@
            &&& a == assessment
        },
    }
}

/// The permission step: turns an assessment into a token, a question to the user, or a
/// denial; it keeps the configuration for the confirmation timeout.
pub struct PermissionGate {
    pub config: GateConfig,
}

impl PermissionGate {
    pub fn new(config: GateConfig) -> (r: Self)
        ensures
            r.config == config,
    {
        PermissionGate { config }
    }

    /// Decides what to do with an assessment: Allow and AllowWithLog issue a token,
    /// a confirmation decision asks the user under a fresh id, Block denies.
    pub fn apply(&self, intent: &AgentIntent, assessment: RiskAssessment) -> (s: GateStep)
        ensures
            step_for(s, self.config, intent, assessment),
    {
        match &assessment.recommended_action {
            GateDecision::Allow | GateDecision::AllowWithLog => GateStep::Issue { assessment },
            GateDecision::RequireUserConfirmation { preview } => {
                let confirmation_id = new_v4_string();
                let mut title = String::from_str("Action Requires Approval — ");
                title.append(intent.agent_id.as_str());
                let mut buttons: Vec<&str> = Vec::new();
                buttons.push("Allow");
                buttons.push("Block");
                let mut notification = UiNotification::warning(title.as_str(), preview.as_str(), buttons);
                assert(crate::notification::str_texts(buttons@) =~= seq!["Allow"@, "Block"@]);
                notification.confirmation_id = Some(confirmation_id.clone());
                GateStep::AskUser {
                    notification,
                    confirmation_id,
                    timeout_secs: self.config.confirm_timeout_secs,
                    assessment,
                }
            },
            GateDecision::Block { reason } => {
                let mut title = String::from_str("BLOCKED: ");
                title.append(intent.action.as_str());
                title.append(" by ");
                title.append(intent.agent_id.as_str());
                let mut buttons: Vec<&str> = Vec::new();
                buttons.push("Dismiss");
                let notification = UiNotification::critical(title.as_str(), reason.as_str(), buttons);
                assert(crate::notification::str_texts(buttons@) =~= seq!["Dismiss"@]);
                let reason = reason.clone();
                GateStep::Deny { notification, result: ProtectionResult::Denied { reason, assessment } }
            },
        }
    }

    /// Issues a token for an intent at time `now` (Unix seconds), valid for 60 seconds.
    pub fn issue_token(&self, intent: &AgentIntent, assessment: &RiskAssessment, now: i64) -> (r: IssuedToken)
        requires
            now <= i64::MAX - TOKEN_LIFETIME_SECS,
        ensures
            r.token.token_id@.len() == 36,
            r.token.agent_id@ == intent.agent_id@,
            r.token.intent_hash@ == hex(spec_default_hash(intent.intent_id@) as nat),
            r.token.issued_at == now,
            r.token.expires_at == now + 60,
            r.token.gate_decision@ == decision_debug(assessment.recommended_action),
            r.stored_decision@ == stored_decision(assessment.recommended_action),
    {
        let mut intent_hash = String::new();
        push_hex(&mut intent_hash, md5_hash(intent.intent_id.as_str()));
        let token = PermissionToken {
            token_id: new_v4_string(),
            agent_id: intent.agent_id.clone(),
            intent_hash,
            issued_at: now,
            expires_at: now + TOKEN_LIFETIME_SECS,
            gate_decision: decision_debug_string(&assessment.recommended_action),
        };
        let stored_decision = match &assessment.recommended_action {
            GateDecision::AllowWithLog => "AllowWithLog",
            _ => "Allow",
        };
        IssuedToken { token, stored_decision }
    }

    /// The result once a token is issued.
    pub fn permitted(token: PermissionToken, assessment: RiskAssessment) -> (r: ProtectionResult)
        ensures
            r == (ProtectionResult::Permitted { token, assessment }),
    {
        ProtectionResult::Permitted { token, assessment }
    }

    /// The step after the user's answer: approval issues a token, anything else
    /// (a refusal or no answer in time) denies.
    pub fn after_answer(approved: bool, assessment: RiskAssessment) -> (s: AnswerStep)
        ensures
            approved ==> (s matches AnswerStep::Issue { assessment: a } && a == assessment),
            !approved ==> ({
                &&& s matches AnswerStep::Declined { result }
                &&& result matches ProtectionResult::Denied { reason, assessment: a }
                &&& reason@ == declined_reason()
                &&& a == assessment
            }),
    {
        if approved {
            AnswerStep::Issue { assessment }
        } else {
            AnswerStep::Declined { result: Self::declined(assessment) }
        }
    }

    /// The result when the user declines or the confirmation times out.
    pub fn declined(assessment: RiskAssessment) -> (r: ProtectionResult)
        ensures
            ({
                &&& r matches ProtectionResult::Denied { reason, assessment: a }
                &&& reason@ == declined_reason()
                &&& a == assessment
            }),
    {
        ProtectionResult::Denied {
            reason: String::from_str("User declined or confirmation timed out."),
            assessment,
        }
    }
}

/// A token is issued only for an allowing decision, the user is asked only for a
/// confirmation decision, and a blocking decision is always denied with its reason.
pub proof fn only_allowing_decisions_issue_tokens(s: GateStep, config: GateConfig, intent: &AgentIntent, assessment: RiskAssessment)
    requires
        step_for(s, config, intent, assessment),
    ensures
        s is Issue <==> (assessment.recommended_action is Allow || assessment.recommended_action is AllowWithLog),
        s is AskUser <==> assessment.recommended_action is RequireUserConfirmation,
        s is Deny <==> assessment.recommended_action is Block,
        assessment.recommended_action matches GateDecision::Block { reason } ==> (s matches GateStep::Deny { result, .. }
            && result matches ProtectionResult::Denied { reason: r, .. } && r@ == reason@),
{
}

} // verus!
