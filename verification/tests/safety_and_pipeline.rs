use guardian::config::GuardianConfig;
use guardian::engine::{IntentStep, ProtectionEngine};
use guardian::gate::GateStep;
use guardian::safety::{
    rule_type_from_db, safety_rule_from_row, seed_row, toml_rule_type_to_db, RuleMatch,
    SafetyRulesEngine,
};
use guardian::types::{AgentIntent, GateDecision, ProtectionResult, RuleType, SafetyRule, SemanticEntity, SystemContext};

fn intent(agent: &str, action: &str, target: &str) -> AgentIntent {
    AgentIntent {
        intent_id: "intent-7".to_string(),
        agent_id: agent.to_string(),
        action: action.to_string(),
        target_uri: target.to_string(),
        metadata: serde_json::Value::Null,
    }
}

fn rule(id: &str, t: RuleType, tags: &[&str], agent: Option<&str>) -> SafetyRule {
    SafetyRule {
        rule_id: id.to_string(),
        rule_type: t,
        scope_tags: tags.iter().map(|s| s.to_string()).collect(),
        applies_to_agent: agent.map(|s| s.to_string()),
        created_by: "test".to_string(),
    }
}

fn tags(ts: &[&str]) -> Vec<String> {
    ts.iter().map(|s| s.to_string()).collect()
}

#[test]
fn action_tags_match_lowercased_verbs_and_role_tags_match_exactly() {
    let engine = SafetyRulesEngine::load(vec![rule("r1", RuleType::AlwaysBlock, &["action:delete", "role:credential"], None)]);
    let hit = engine.evaluate(&intent("a", "Bulk_DELETE", "u"), &tags(&["role:credential"]));
    assert_eq!(hit.map(|m| m.rule_id), Some("r1".to_string()));
    assert!(engine.evaluate(&intent("a", "delete", "u"), &tags(&["role:credential_store"])).is_none());
    assert!(engine.evaluate(&intent("a", "read", "u"), &tags(&["role:credential"])).is_none());
}

#[test]
fn agent_filter_restricts_rules() {
    let engine = SafetyRulesEngine::load(vec![
        rule("only-claw", RuleType::AlwaysBlock, &[], Some("openclaw")),
        rule("everyone", RuleType::NeverAllowScope, &["action:wipe"], Some("all")),
    ]);
    assert_eq!(engine.evaluate(&intent("openclaw", "read", "u"), &tags(&[])).map(|m| m.rule_id), Some("only-claw".to_string()));
    assert!(engine.evaluate(&intent("helper-bot", "read", "u"), &tags(&[])).is_none());
    assert_eq!(engine.evaluate(&intent("helper-bot", "wipe", "u"), &tags(&[])).map(|m| m.rule_id), Some("everyone".to_string()));
}

#[test]
fn first_matching_rule_wins() {
    let engine = SafetyRulesEngine::load(vec![
        rule("first", RuleType::AlwaysRequireConfirmation, &["action:write"], None),
        rule("second", RuleType::AlwaysBlock, &[], None),
    ]);
    let m = engine.evaluate(&intent("a", "write", "u"), &tags(&[])).unwrap();
    assert_eq!(m.rule_id, "first");
    assert_eq!(m.rule_type, RuleType::AlwaysRequireConfirmation);
    assert_eq!(engine.len(), 2);
}

#[test]
fn decisions_for_rule_matches() {
    let engine = SafetyRulesEngine::load(Vec::new());
    let block = engine.decision_for_match(&RuleMatch { rule_id: "r9".to_string(), rule_type: RuleType::NeverAllowScope });
    match block {
        GateDecision::Block { reason } => assert_eq!(reason, "Blocked by safety rule 'r9' (type: NeverAllowScope)"),
        other => panic!("unexpected {:?}", other),
    }
    let confirm = engine.decision_for_match(&RuleMatch { rule_id: "r2".to_string(), rule_type: RuleType::AlwaysRequireConfirmation });
    match confirm {
        GateDecision::RequireUserConfirmation { preview } => assert_eq!(preview, "Safety rule 'r2' requires user confirmation."),
        other => panic!("unexpected {:?}", other),
    }
}

#[test]
fn rule_type_texts_map_both_ways() {
    assert_eq!(rule_type_from_db("always_block"), RuleType::AlwaysBlock);
    assert_eq!(rule_type_from_db("always_require_confirmation"), RuleType::AlwaysRequireConfirmation);
    assert_eq!(rule_type_from_db("never_allow_scope"), RuleType::NeverAllowScope);
    assert_eq!(rule_type_from_db("something_else"), RuleType::AlwaysBlock);
    assert_eq!(toml_rule_type_to_db("AlwaysBlock"), "always_block");
    assert_eq!(toml_rule_type_to_db("AlwaysRequireConfirmation"), "always_require_confirmation");
    assert_eq!(toml_rule_type_to_db("NeverAllowScope"), "never_allow_scope");
    assert_eq!(toml_rule_type_to_db("Bogus"), "always_block");
}

#[test]
fn rows_parse_their_tag_lists() {
    let r = safety_rule_from_row("id".to_string(), "never_allow_scope", "[\"role:a\",\"action:delete\"]", None, "me".to_string());
    assert_eq!(r.scope_tags, tags(&["role:a", "action:delete"]));
    assert_eq!(r.rule_type, RuleType::NeverAllowScope);
    let bad = safety_rule_from_row("id".to_string(), "always_block", "not json", Some("x".to_string()), "me".to_string());
    assert!(bad.scope_tags.is_empty());
    assert_eq!(bad.applies_to_agent, Some("x".to_string()));
}

#[test]
fn seed_rows_encode_tags_as_json() {
    let row = seed_row("AlwaysRequireConfirmation", &tags(&["role:credential", "action:upload"]), None);
    assert_eq!(row.rule_type, "always_require_confirmation");
    assert_eq!(row.scope_tags_json, "[\"role:credential\",\"action:upload\"]");
    assert_eq!(row.created_by, "safety_rules.toml");
    assert_eq!(row.rule_id.len(), 36);
}

#[test]
fn seed_rows_escape_tags_as_json_does() {
    let row = seed_row("NeverAllowScope", &tags(&["a\"b", "c\\d\n", "\u{1}x\t", "é"]), None);
    assert_eq!(row.rule_type, "never_allow_scope");
    assert_eq!(row.scope_tags_json, "[\"a\\\"b\",\"c\\\\d\\n\",\"\\u0001x\\t\",\"é\"]");
    let empty = seed_row("AlwaysBlock", &tags(&[]), None);
    assert_eq!(empty.scope_tags_json, "[]");
}

fn context(tags: &[&str], trust: Option<i32>) -> SystemContext {
    SystemContext {
        semantic_entity: Some(SemanticEntity {
            uri: "file:///x".to_string(),
            semantic_tags: tags.iter().map(|s| s.to_string()).collect(),
            confidence_score: 9000,
            last_observed: 1,
        }),
        agent_trust_level: trust,
        recent_event_count: 0,
    }
}

#[test]
fn blocking_rule_short_circuits_scoring() {
    let engine = ProtectionEngine::build(
        GuardianConfig::default(),
        vec![rule("no-creds", RuleType::AlwaysBlock, &["role:credential"], None)],
    );
    match engine.process_intent(&intent("a", "read", "file:///x"), &context(&["role:credential"], Some(99))) {
        IntentStep::RuleBlocked { result: ProtectionResult::RuleBlocked { rule_id, rule_type } } => {
            assert_eq!(rule_id, "no-creds");
            assert_eq!(rule_type, "AlwaysBlock");
        }
        _ => panic!("expected a rule block"),
    }
}

#[test]
fn confirmation_rule_asks_the_user_without_snapshot() {
    let engine = ProtectionEngine::build(
        GuardianConfig::default(),
        vec![rule("ask", RuleType::AlwaysRequireConfirmation, &["action:upload"], None)],
    );
    match engine.process_intent(&intent("agent-9", "upload", "file:///x"), &context(&[], Some(99))) {
        IntentStep::Gate { step: GateStep::AskUser { notification, confirmation_id, timeout_secs, assessment }, snapshot } => {
            assert!(!snapshot);
            assert_eq!(assessment.score, 7500);
            assert_eq!(assessment.triggered_policies, vec!["SafetyRule:ask".to_string()]);
            assert_eq!(timeout_secs, 30);
            assert_eq!(notification.title, "Action Requires Approval — agent-9");
            assert_eq!(notification.message, "Safety rule 'ask' requires user confirmation.");
            assert_eq!(notification.action_buttons, vec!["Allow".to_string(), "Block".to_string()]);
            assert_eq!(notification.confirmation_id, Some(confirmation_id.clone()));
            assert_eq!(confirmation_id.len(), 36);
        }
        _ => panic!("expected a confirmation"),
    }
}

#[test]
fn allowed_intent_goes_to_token_silently() {
    let engine = ProtectionEngine::build(GuardianConfig::default(), Vec::new());
    match engine.process_intent(&intent("agent", "read", "file:///x"), &context(&["role:user_data"], Some(95))) {
        IntentStep::Gate { step: GateStep::Issue { assessment }, snapshot } => {
            assert!(!snapshot);
            assert_eq!(assessment.score, 600);
            assert!(matches!(assessment.recommended_action, GateDecision::Allow));
        }
        _ => panic!("expected a token"),
    }
}

#[test]
fn logged_intent_goes_to_token_with_snapshot() {
    let engine = ProtectionEngine::build(GuardianConfig::default(), Vec::new());
    match engine.process_intent(&intent("agent", "read", "file:///x"), &context(&["role:user_data"], Some(40))) {
        IntentStep::Gate { step: GateStep::Issue { assessment }, snapshot } => {
            assert!(snapshot);
            assert_eq!(assessment.score, 5400);
            assert!(matches!(assessment.recommended_action, GateDecision::AllowWithLog));
        }
        _ => panic!("expected a token"),
    }
}

#[test]
fn blocked_intent_is_denied_with_critical_notice() {
    let engine = ProtectionEngine::build(GuardianConfig::default(), Vec::new());
    match engine.process_intent(&intent("rogue", "wipe", "file:///x"), &context(&[], Some(95))) {
        IntentStep::Gate { step: GateStep::Deny { notification, result }, snapshot } => {
            assert!(!snapshot);
            assert_eq!(notification.title, "BLOCKED: wipe by rogue");
            assert_eq!(notification.action_buttons, vec!["Dismiss".to_string()]);
            match result {
                ProtectionResult::Denied { reason, assessment } => {
                    assert_eq!(reason, "Risk score 1.00 ≥ block threshold 0.95. 'wipe' on 'file:///x' denied.");
                    assert_eq!(notification.message, reason);
                    assert_eq!(assessment.score, 10000);
                }
                _ => panic!("expected a denial"),
            }
        }
        _ => panic!("expected a denial"),
    }
}
