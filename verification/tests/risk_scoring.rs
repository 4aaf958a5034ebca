use guardian::config::{GateConfig, GuardianConfig};
use guardian::engine::ProtectionEngine;
use guardian::risk::engine::RiskScoringEngine;
use guardian::risk::policies::{
    DestructiveActionPolicy, RegisteredPolicy, ScopeAmbiguityPolicy, SystemResourcePolicy,
    UntrustedAgentPolicy,
};
use guardian::risk::policy_trait::RiskPolicy;
use guardian::types::{AgentIntent, GateDecision, SemanticEntity, SystemContext};

fn intent(agent: &str, action: &str, target: &str) -> AgentIntent {
    AgentIntent {
        intent_id: "intent-1".to_string(),
        agent_id: agent.to_string(),
        action: action.to_string(),
        target_uri: target.to_string(),
        metadata: serde_json::Value::Null,
    }
}

fn entity(tags: &[&str], confidence: u32) -> SemanticEntity {
    SemanticEntity {
        uri: "file:///x".to_string(),
        semantic_tags: tags.iter().map(|t| t.to_string()).collect(),
        confidence_score: confidence,
        last_observed: 0,
    }
}

fn ctx(e: Option<SemanticEntity>, trust: Option<i32>) -> SystemContext {
    SystemContext { semantic_entity: e, agent_trust_level: trust, recent_event_count: 0 }
}

fn default_engine() -> RiskScoringEngine {
    let config = GuardianConfig::default();
    ProtectionEngine::build(config, Vec::new()).risk_engine
}

#[test]
fn destructive_policy_matches_lowercased_verbs() {
    let p = DestructiveActionPolicy::default();
    let c = ctx(None, None);
    assert_eq!(p.evaluate(&intent("a", "DELETE", "file:///x"), &c), 8500);
    assert_eq!(p.evaluate(&intent("a", "bulk_remove_all", "file:///x"), &c), 8500);
    assert_eq!(p.evaluate(&intent("a", "read", "file:///x"), &c), 0);
    assert_eq!(p.weight(), 150);
    assert_eq!(p.name(), "DestructiveActionPolicy");
}

#[test]
fn scope_ambiguity_scores_by_confidence_and_verb() {
    let p = ScopeAmbiguityPolicy;
    assert_eq!(p.evaluate(&intent("a", "read", "u"), &ctx(None, None)), 2000);
    assert_eq!(p.evaluate(&intent("a", "Write", "u"), &ctx(None, None)), 5500);
    assert_eq!(p.evaluate(&intent("a", "delete", "u"), &ctx(None, None)), 5500);
    assert_eq!(p.evaluate(&intent("a", "read", "u"), &ctx(Some(entity(&[], 2999)), None)), 1500);
    assert_eq!(p.evaluate(&intent("a", "delete", "u"), &ctx(Some(entity(&[], 2999)), None)), 3750);
    assert_eq!(p.evaluate(&intent("a", "read", "u"), &ctx(Some(entity(&[], 3000)), None)), 800);
    assert_eq!(p.evaluate(&intent("a", "execute", "u"), &ctx(Some(entity(&[], 5999)), None)), 2000);
    assert_eq!(p.evaluate(&intent("a", "read", "u"), &ctx(Some(entity(&[], 6000)), None)), 500);
    assert_eq!(p.evaluate(&intent("a", "overwrite", "u"), &ctx(Some(entity(&[], 9000)), None)), 500);
    assert_eq!(p.weight(), 100);
}

#[test]
fn untrusted_agent_scores_by_trust_band() {
    let p = UntrustedAgentPolicy;
    let i = intent("a", "read", "u");
    assert_eq!(p.evaluate(&i, &ctx(None, None)), 9000);
    assert_eq!(p.evaluate(&i, &ctx(None, Some(20))), 7500);
    assert_eq!(p.evaluate(&i, &ctx(None, Some(21))), 4500);
    assert_eq!(p.evaluate(&i, &ctx(None, Some(50))), 4500);
    assert_eq!(p.evaluate(&i, &ctx(None, Some(80))), 1500);
    assert_eq!(p.evaluate(&i, &ctx(None, Some(81))), 500);
    assert_eq!(p.weight(), 120);
}

#[test]
fn system_resource_flags_critical_tags() {
    let p = SystemResourcePolicy::default();
    let i = intent("a", "read", "u");
    assert_eq!(p.evaluate(&i, &ctx(Some(entity(&["context:work", "role:credential_store"], 9000)), None)), 10000);
    assert_eq!(p.evaluate(&i, &ctx(Some(entity(&["role:user_data"], 9000)), None)), 0);
    assert_eq!(p.evaluate(&i, &ctx(None, None)), 0);
    assert_eq!(p.weight(), 200);
}

#[test]
fn trusted_read_of_known_file_is_allowed_silently() {
    let e = default_engine();
    let a = e.evaluate(&intent("agent", "read", "file:///doc"), &ctx(Some(entity(&["role:user_data"], 8000)), Some(90)));
    assert_eq!(a.score, 600);
    assert!(a.triggered_policies.is_empty());
    assert!(matches!(a.recommended_action, GateDecision::Allow));
}

#[test]
fn triggered_policies_are_labelled_with_raw_scores() {
    let e = default_engine();
    let a = e.evaluate(&intent("agent", "delete", "file:///doc"), &ctx(Some(entity(&[], 2000)), Some(60)));
    assert_eq!(
        a.triggered_policies,
        vec![
            "DestructiveActionPolicy=0.85".to_string(),
            "ScopeAmbiguityPolicy=0.38".to_string(),
            "UntrustedAgentPolicy=0.15".to_string(),
        ]
    );
    assert_eq!(a.score, 10000);
}

#[test]
fn unregistered_agent_is_blocked_with_reason() {
    let e = default_engine();
    let a = e.evaluate(&intent("bot", "read", "file:///x"), &ctx(None, None));
    assert_eq!(a.score, 10000);
    match a.recommended_action {
        GateDecision::Block { reason } => assert_eq!(
            reason,
            "Risk score 1.00 ≥ block threshold 0.95. 'read' on 'file:///x' denied."
        ),
        other => panic!("unexpected {:?}", other),
    }
}

#[test]
fn low_trust_agent_needs_confirmation() {
    let e = default_engine();
    let a = e.evaluate(&intent("bot", "read", "file:///x"), &ctx(Some(entity(&[], 9000)), Some(10)));
    assert_eq!(a.score, 9000);
    match a.recommended_action {
        GateDecision::RequireUserConfirmation { preview } => assert_eq!(
            preview,
            "Agent 'bot' wants to 'read' on 'file:///x'.\nRisk: 90%.\nAllow?"
        ),
        other => panic!("unexpected {:?}", other),
    }
}

#[test]
fn thresholds_split_scores_into_four_bands() {
    let config = GateConfig {
        allow_threshold: 1000,
        log_threshold: 5000,
        confirm_threshold: 9500,
        block_threshold: 9900,
        confirm_timeout_secs: 5,
    };
    let mut e = RiskScoringEngine::new(config);
    e.register_policy(RegisteredPolicy::UntrustedAgent(UntrustedAgentPolicy));
    let a = e.evaluate(&intent("bot", "read", "u"), &ctx(None, Some(60)));
    assert_eq!(a.score, 1800);
    assert!(matches!(a.recommended_action, GateDecision::AllowWithLog));
    let a = e.evaluate(&intent("bot", "read", "u"), &ctx(None, Some(30)));
    assert_eq!(a.score, 5400);
    assert!(matches!(a.recommended_action, GateDecision::RequireUserConfirmation { .. }));
    let a = e.evaluate(&intent("bot", "read", "u"), &ctx(None, Some(90)));
    assert_eq!(a.score, 600);
    assert!(matches!(a.recommended_action, GateDecision::Allow));
}

#[test]
fn default_thresholds_map_scores_to_decisions() {
    let e = RiskScoringEngine::new(GuardianConfig::default().gate);
    let i = intent("bot", "read", "u");
    assert!(matches!(e.map_score_to_decision(2999, &i), GateDecision::Allow));
    assert!(matches!(e.map_score_to_decision(3000, &i), GateDecision::AllowWithLog));
    assert!(matches!(e.map_score_to_decision(4500, &i), GateDecision::AllowWithLog));
    assert!(matches!(e.map_score_to_decision(5999, &i), GateDecision::AllowWithLog));
    assert!(matches!(e.map_score_to_decision(6000, &i), GateDecision::RequireUserConfirmation { .. }));
    assert!(matches!(e.map_score_to_decision(8000, &i), GateDecision::RequireUserConfirmation { .. }));
    assert!(matches!(e.map_score_to_decision(9499, &i), GateDecision::RequireUserConfirmation { .. }));
    match e.map_score_to_decision(9500, &i) {
        GateDecision::Block { reason } => {
            assert_eq!(reason, "Risk score 0.95 ≥ block threshold 0.95. 'read' on 'u' denied.")
        }
        other => panic!("unexpected {:?}", other),
    }
}

#[test]
fn score_is_maximum_not_sum() {
    let config = GuardianConfig::default().gate;
    let mut e = RiskScoringEngine::new(config);
    e.register_policy(RegisteredPolicy::ScopeAmbiguity(ScopeAmbiguityPolicy));
    let a1 = e.evaluate(&intent("bot", "write", "u"), &ctx(None, Some(90)));
    e.register_policy(RegisteredPolicy::UntrustedAgent(UntrustedAgentPolicy));
    let a2 = e.evaluate(&intent("bot", "write", "u"), &ctx(None, Some(90)));
    assert_eq!(a1.score, 5500);
    assert_eq!(a2.score, 5500);
    assert!(a2.score >= a1.score);
}

#[test]
fn empty_engine_scores_zero() {
    let e = RiskScoringEngine::new(GuardianConfig::default().gate);
    let a = e.evaluate(&intent("bot", "delete", "u"), &ctx(None, None));
    assert_eq!(a.score, 0);
    assert!(matches!(a.recommended_action, GateDecision::Allow));
}

#[test]
fn default_configuration_values() {
    let c = GuardianConfig::default();
    assert_eq!(c.gate.allow_threshold, 3000);
    assert_eq!(c.gate.log_threshold, 6000);
    assert_eq!(c.gate.confirm_threshold, 8000);
    assert_eq!(c.gate.block_threshold, 9500);
    assert_eq!(c.gate.confirm_timeout_secs, 30);
    assert_eq!(c.kill_switch.file_ops_per_minute, 200);
    assert_eq!(c.rollback.retention_hours, 48);
    assert_eq!(c.rollback.vault_path, ".guardian_vault");
    assert_eq!(c.sensors.watch_paths.len(), 4);
    assert_eq!(c.sensors.poll_interval_secs, 3);
}

