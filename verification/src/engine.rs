//! The protection pipeline: safety rules, then risk scoring, then the permission gate.
use crate::config::{GateConfig, GuardianConfig};
use crate::gate::{step_for, GateStep, PermissionGate};
use crate::risk::engine::{
    decision_for_score, labels, policy_weighted, score_is_weighted_maximum, triggered, weighted_max,
};
use crate::risk::policies::{
    critical_tag_scores_full, listed_verb_scores_high, DestructiveActionPolicy, RegisteredPolicy,
    ScopeAmbiguityPolicy, SystemResourcePolicy, UntrustedAgentPolicy,
};
use crate::risk::RiskScoringEngine;
use crate::safety::{
    decision_for_rule, is_first_match, none_fires, rule_fires, rule_type_debug, rule_type_name,
    RuleMatch, SafetyRulesEngine,
};
use crate::types::{AgentIntent, GateDecision, ProtectionResult, RiskAssessment, RuleType, SafetyRule, SystemContext};
use crate::text::{seq_contains, spec_lowercase};
use vstd::prelude::*;

verus! {

/// The score given to an intent that a confirmation rule sends to the user (0.75).
pub const RULE_CONFIRM_SCORE: u32 = 7500;

/// What the pipeline does next with an intent.
pub enum IntentStep {
    /// A safety rule blocked the intent; no score was computed.
    RuleBlocked { result: ProtectionResult },
    /// Hand the assessment to the permission check; take a rollback snapshot first when `snapshot`.
    Gate { step: GateStep, snapshot: bool },
}

/// The semantic tags of the target, none when Guardian has not classified it.
pub open spec fn entity_tags_of(ctx: SystemContext) -> Seq<String> {
    match ctx.semantic_entity {
        Some(e) => e.semantic_tags@,
        None => Seq::empty(),
    }
}

/// `a` is the risk engine's assessment of the intent.
pub open spec fn scored(a: RiskAssessment, policies: Seq<RegisteredPolicy>, config: GateConfig, intent: &AgentIntent, ctx: &SystemContext) -> bool {
    &&& a.score as nat == weighted_max(policies, intent, ctx)
    &&& labels(a.triggered_policies@) == triggered(policies, intent, ctx)
    &&& decision_for_score(a.recommended_action, config, a.score as nat, intent)
}

/// The decision asks for a rollback snapshot before the action: only `AllowWithLog`
/// does; `Allow` proceeds silently.
pub open spec fn takes_snapshot(d: GateDecision) -> bool {
    d is AllowWithLog
}

/// The default policies, in the order the engine registers them.
pub open spec fn default_policies(ps: Seq<RegisteredPolicy>) -> bool {
    &&& ps.len() == 4
    &&& ps[0] matches RegisteredPolicy::DestructiveAction(p) && p.is_default()
    &&& ps[1] is ScopeAmbiguity
    &&& ps[2] is UntrustedAgent
    &&& ps[3] matches RegisteredPolicy::SystemResource(p) && p.is_default()
}

/// The decision-making part of the protection engine.
pub struct ProtectionEngine {
    pub risk_engine: RiskScoringEngine,
    pub safety_engine: SafetyRulesEngine,
    pub gate: PermissionGate,
    pub config: GuardianConfig,
}

impl ProtectionEngine {
    /// Builds the engine from the configuration and the active safety rules: the four
    /// default policies, scored against the configured thresholds.
    pub fn build(config: GuardianConfig, rules: Vec<SafetyRule>) -> (r: Self)
        ensures
            default_policies(r.risk_engine.spec_policies()),
            r.risk_engine.spec_config() == config.gate,
            r.safety_engine.spec_rules() == rules@,
            r.gate.config == config.gate,
            r.config == config,
    {
        let mut risk_engine = RiskScoringEngine::new(config.gate.clone());
        risk_engine.register_policy(RegisteredPolicy::DestructiveAction(DestructiveActionPolicy::default()));
        risk_engine.register_policy(RegisteredPolicy::ScopeAmbiguity(ScopeAmbiguityPolicy));
        risk_engine.register_policy(RegisteredPolicy::UntrustedAgent(UntrustedAgentPolicy));
        risk_engine.register_policy(RegisteredPolicy::SystemResource(SystemResourcePolicy::default()));
        let safety_engine = SafetyRulesEngine::load(rules);
        let gate = PermissionGate::new(config.gate.clone());
        ProtectionEngine { risk_engine, safety_engine, gate, config }
    }

    /// Runs an intent through the safety rules and, unless a rule decides, the risk
    /// engine; the outcome is a rule block or a step for the permission check.
    pub fn process_intent(&self, intent: &AgentIntent, ctx: &SystemContext) -> (r: IntentStep)
        ensures
            none_fires(self.safety_engine.spec_rules(), intent, entity_tags_of(*ctx)) ==> {
                &&& r matches IntentStep::Gate { step, snapshot }
                &&& exists|a: RiskAssessment|
                    {
                        &&& scored(a, self.risk_engine.spec_policies(), self.risk_engine.spec_config(), intent, ctx)
                        &&& step_for(step, self.gate.config, intent, a)
                        &&& snapshot == takes_snapshot(a.recommended_action)
                    }
            },
            forall|m: RuleMatch| #[trigger] is_first_match(self.safety_engine.spec_rules(), intent, entity_tags_of(*ctx), m) ==> {
                if m.rule_type == RuleType::AlwaysRequireConfirmation {
                    &&& r matches IntentStep::Gate { step, snapshot }
                    &&& !snapshot
                    &&& exists|a: RiskAssessment|
                        {
                            &&& a.score == RULE_CONFIRM_SCORE
                            &&& labels(a.triggered_policies@) == seq!["SafetyRule:"@ + m.rule_id@]
                            &&& decision_for_rule(a.recommended_action, m)
                            &&& step_for(step, self.gate.config, intent, a)
                        }
                } else {
                    &&& r matches IntentStep::RuleBlocked { result }
                    &&& result matches ProtectionResult::RuleBlocked { rule_id, rule_type }
                    &&& rule_id == m.rule_id
                    &&& rule_type@ == rule_type_name(m.rule_type)
                }
            },
    {
        let no_tags: Vec<String> = Vec::new();
        let entity_tags = match &ctx.semantic_entity {
            Some(e) => &e.semantic_tags,
            None => &no_tags,
        };
        assert(entity_tags@ == entity_tags_of(*ctx));
        if let Some(rule_match) = self.safety_engine.evaluate(intent, entity_tags) {
            proof {
                first_match_unique(self.safety_engine.spec_rules(), intent, entity_tags_of(*ctx), rule_match);
            }
            let decision = self.safety_engine.decision_for_match(&rule_match);
            match decision {
                GateDecision::RequireUserConfirmation { .. } => {
                    let mut label = String::from_str("SafetyRule:");
                    label.append(rule_match.rule_id.as_str());
                    let mut triggered_policies: Vec<String> = Vec::new();
                    triggered_policies.push(label);
                    assert(labels(triggered_policies@) =~= seq!["SafetyRule:"@ + rule_match.rule_id@]);
                    let assessment = RiskAssessment {
                        score: RULE_CONFIRM_SCORE,
                        triggered_policies,
                        recommended_action: decision,
                    };
                    let step = self.gate.apply(intent, assessment);
                    return IntentStep::Gate { step, snapshot: false };
                },
                _ => {
                    let result = ProtectionResult::RuleBlocked {
                        rule_id: rule_match.rule_id,
                        rule_type: String::from_str(rule_type_debug(rule_match.rule_type)),
                    };
                    return IntentStep::RuleBlocked { result };
                },
            }
        }
        let assessment = self.risk_engine.evaluate(intent, ctx);
        let snapshot = match &assessment.recommended_action {
            GateDecision::AllowWithLog => true,
            _ => false,
        };
        let step = self.gate.apply(intent, assessment);
        IntentStep::Gate { step, snapshot }
    }
}

/// The first firing rule is unique: any two reports of it agree.
proof fn first_match_unique(rules: Seq<SafetyRule>, intent: &AgentIntent, tags: Seq<String>, m: RuleMatch)
    requires
        is_first_match(rules, intent, tags, m),
    ensures
        forall|n: RuleMatch| #[trigger] is_first_match(rules, intent, tags, n) ==> n == m,
        !none_fires(rules, intent, tags),
{
    let i = choose|i: int|
        {
            &&& 0 <= i < rules.len()
            &&& rule_fires(#[trigger] rules[i], intent, tags)
            &&& forall|j: int| 0 <= j < i ==> !rule_fires(#[trigger] rules[j], intent, tags)
            &&& m.rule_id == rules[i].rule_id
            &&& m.rule_type == rules[i].rule_type
        };
    assert forall|n: RuleMatch| #[trigger] is_first_match(rules, intent, tags, n) implies n == m by {
        let k = choose|k: int|
            {
                &&& 0 <= k < rules.len()
                &&& rule_fires(#[trigger] rules[k], intent, tags)
                &&& forall|j: int| 0 <= j < k ==> !rule_fires(#[trigger] rules[j], intent, tags)
                &&& n.rule_id == rules[k].rule_id
                &&& n.rule_type == rules[k].rule_type
            };
        if k < i {
            assert(!rule_fires(rules[k], intent, tags));
        }
        if i < k {
            assert(!rule_fires(rules[i], intent, tags));
        }
    }
}

/// With the default policies, an action whose lower-cased text contains a destructive
/// verb, or a target one of whose tags contains a critical tag, gets the full score
/// (1.0); under the default thresholds such an intent is blocked.
pub proof fn destructive_or_critical_intent_scores_full(
    ps: Seq<RegisteredPolicy>,
    intent: &AgentIntent,
    ctx: &SystemContext,
    config: GateConfig,
    d: GateDecision,
)
    requires
        default_policies(ps),
        (exists|j: int|
            0 <= j < ps[0]->DestructiveAction_0.destructive_actions@.len() && seq_contains(
                spec_lowercase(intent.action@),
                #[trigger] ps[0]->DestructiveAction_0.destructive_actions@[j]@,
            )) || (exists|i: int, j: int|
            ctx.semantic_entity is Some && 0 <= i < ctx.semantic_entity->0.semantic_tags@.len() && 0 <= j
                < ps[3]->SystemResource_0.critical_tags@.len() && seq_contains(
                #[trigger] ctx.semantic_entity->0.semantic_tags@[i]@,
                #[trigger] ps[3]->SystemResource_0.critical_tags@[j]@,
            )),
        config.is_default(),
        decision_for_score(d, config, weighted_max(ps, intent, ctx), intent),
    ensures
        weighted_max(ps, intent, ctx) == 10000,
        d is Block,
{
    score_is_weighted_maximum(ps, intent, ctx);
    let dp = ps[0]->DestructiveAction_0;
    let sp = ps[3]->SystemResource_0;
    if exists|j: int|
        0 <= j < dp.destructive_actions@.len() && seq_contains(spec_lowercase(intent.action@), #[trigger] dp.destructive_actions@[j]@) {
        let j = choose|j: int|
            0 <= j < dp.destructive_actions@.len() && seq_contains(spec_lowercase(intent.action@), #[trigger] dp.destructive_actions@[j]@);
        listed_verb_scores_high(dp, intent, ctx, j);
        assert(policy_weighted(ps[0], intent, ctx) == 10000);
    } else {
        let (i, j) = choose|i: int, j: int|
            ctx.semantic_entity is Some && 0 <= i < ctx.semantic_entity->0.semantic_tags@.len() && 0 <= j
                < sp.critical_tags@.len() && seq_contains(
                #[trigger] ctx.semantic_entity->0.semantic_tags@[i]@,
                #[trigger] sp.critical_tags@[j]@,
            );
        critical_tag_scores_full(sp, intent, ctx, i, j);
        assert(policy_weighted(ps[3], intent, ctx) == 10000);
    }
}

} // verus!
