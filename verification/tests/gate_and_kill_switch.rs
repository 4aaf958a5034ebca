use guardian::kill_switch::agents::{agents_for_process, intent_agent};
use guardian::tokens::{consume, TokenRow};
use guardian::config::GuardianConfig;
use guardian::gate::{AnswerStep, PermissionGate};
use guardian::kill_switch::{
    receipt_result, resume_process, signal_process, signal_request, signal_result, suspend_process, KillSwitch,
    ProcessTree, SignalKind, SignalReply,
};
use guardian::notification::{NotificationLevel, UiNotification};
use guardian::types::{AgentIntent, GateDecision, ProtectionResult, RiskAssessment};
use std::collections::hash_map::DefaultHasher;
use std::hash::{Hash, Hasher};

// A process id far above any the sandbox runs, so no real process is signalled.
const ABSENT_PID: u32 = 3_999_991;

fn intent() -> AgentIntent {
    AgentIntent {
        intent_id: "intent-42".to_string(),
        agent_id: "helper-bot".to_string(),
        action: "write".to_string(),
        target_uri: "file:///tmp/a".to_string(),
        metadata: serde_json::Value::Null,
    }
}

fn assessment(d: GateDecision) -> RiskAssessment {
    RiskAssessment { score: 100, triggered_policies: Vec::new(), recommended_action: d }
}

#[test]
fn tokens_expire_after_sixty_seconds_and_hash_the_intent() {
    let gate = PermissionGate::new(GuardianConfig::default().gate);
    let issued = gate.issue_token(&intent(), &assessment(GateDecision::AllowWithLog), 1_700_000_000);
    assert_eq!(issued.token.issued_at, 1_700_000_000);
    assert_eq!(issued.token.expires_at, 1_700_000_060);
    assert_eq!(issued.token.agent_id, "helper-bot");
    assert_eq!(issued.token.gate_decision, "AllowWithLog");
    assert_eq!(issued.stored_decision, "AllowWithLog");
    assert_eq!(issued.token.token_id.len(), 36);
    let mut h = DefaultHasher::new();
    "intent-42".hash(&mut h);
    assert_eq!(issued.token.intent_hash, format!("{:x}", h.finish()));
}

#[test]
fn confirmed_decisions_are_stored_as_allow_and_debug_printed() {
    let gate = PermissionGate::new(GuardianConfig::default().gate);
    let d = GateDecision::RequireUserConfirmation { preview: "line\nwith \"quotes\"".to_string() };
    let issued = gate.issue_token(&intent(), &assessment(d), 10);
    assert_eq!(issued.stored_decision, "Allow");
    assert_eq!(issued.token.gate_decision, "RequireUserConfirmation { preview: \"line\\nwith \\\"quotes\\\"\" }");
}

#[test]
fn declined_confirmation_is_denied() {
    match PermissionGate::declined(assessment(GateDecision::Allow)) {
        ProtectionResult::Denied { reason, .. } => assert_eq!(reason, "User declined or confirmation timed out."),
        _ => panic!("expected a denial"),
    }
}

#[test]
fn user_answer_issues_or_denies() {
    match PermissionGate::after_answer(true, assessment(GateDecision::AllowWithLog)) {
        AnswerStep::Issue { assessment } => assert_eq!(assessment.score, 100),
        _ => panic!("expected a token"),
    }
    match PermissionGate::after_answer(false, assessment(GateDecision::AllowWithLog)) {
        AnswerStep::Declined { result: ProtectionResult::Denied { reason, .. } } => {
            assert_eq!(reason, "User declined or confirmation timed out.")
        }
        _ => panic!("expected a denial"),
    }
}

#[test]
fn notifications_carry_their_fields() {
    let n = UiNotification::info("Event: sensor.fs", "something happened");
    assert_eq!(n.level, NotificationLevel::Info);
    assert!(n.action_buttons.is_empty());
    assert!(n.confirmation_id.is_none());
    let w = UiNotification::warning("t", "m", vec!["Restart", "Quit"]);
    assert_eq!(w.level, NotificationLevel::Warning);
    assert_eq!(w.action_buttons, vec!["Restart".to_string(), "Quit".to_string()]);
    let c = UiNotification::critical("t", "m", vec![]);
    assert_eq!(c.level, NotificationLevel::Critical);
    assert_eq!(c.title, "t");
    assert_eq!(c.message, "m");
}

#[test]
fn process_tree_registers_and_forgets_pids() {
    let mut tree = ProcessTree::new();
    tree.register("openclaw", 10);
    tree.register("openclaw", 11);
    tree.register("openclaw", 10);
    tree.register("helper-bot", 11);
    let mut pids = tree.get_pids("openclaw");
    pids.sort();
    assert_eq!(pids, vec![10, 11]);
    tree.deregister(11);
    assert_eq!(tree.get_pids("openclaw"), vec![10]);
    assert!(tree.get_pids("helper-bot").is_empty());
    assert!(tree.get_pids("nobody").is_empty());
    let mut agents = tree.all_agents();
    agents.sort();
    assert_eq!(agents, vec!["helper-bot".to_string(), "openclaw".to_string()]);
}

#[test]
fn signals_to_absent_processes_report_not_found() {
    assert_eq!(suspend_process(ABSENT_PID), Ok(false));
    assert_eq!(resume_process(ABSENT_PID), Ok(false));
}

#[test]
fn ids_that_name_no_single_process_are_not_signalled() {
    assert_eq!(suspend_process(0), Ok(false));
    assert_eq!(resume_process(0), Ok(false));
    assert_eq!(suspend_process(u32::MAX), Ok(false));
    assert_eq!(resume_process(0x8000_0000), Ok(false));
}

#[test]
fn system_answers_become_results() {
    assert_eq!(signal_result(SignalReply::Delivered, "SIGSTOP", 7), Ok(true));
    assert_eq!(signal_result(SignalReply::NoSuchProcess, "SIGSTOP", 7), Ok(false));
    assert_eq!(
        signal_result(SignalReply::Failed("EPERM: Operation not permitted".to_string()), "SIGCONT", 42),
        Err("SIGCONT failed for PID 42: EPERM: Operation not permitted".to_string())
    );
}

#[test]
fn signal_requests_name_one_process_and_one_signal() {
    assert_eq!(signal_request(42, true), Some((42, SignalKind::Stop)));
    assert_eq!(signal_request(42, false), Some((42, SignalKind::Cont)));
    assert_eq!(signal_request(0, true), None);
    assert_eq!(signal_request(0x8000_0000, false), None);
}

#[test]
fn receipts_record_the_target_and_signal() {
    let rc = signal_process(ABSENT_PID, true).unwrap();
    assert_eq!(rc.target(), ABSENT_PID as i32);
    assert_eq!(rc.kind(), SignalKind::Stop);
    assert!(!rc.delivered());
    assert_eq!(receipt_result(Some(rc)), Ok(false));
    assert!(signal_process(0, false).is_none());
    assert_eq!(receipt_result(None), Ok(false));
}

#[test]
fn record_freeze_keeps_only_processes_that_froze() {
    let mut ks = KillSwitch::new(ProcessTree::new());
    let me = nix::unistd::getpid().as_raw() as u32;
    let receipts = vec![signal_process(me, false), signal_process(ABSENT_PID, true), signal_process(0, true)];
    assert!(receipts[0].as_ref().unwrap().delivered());
    let n = ks.record_freeze("bot", "UI", &vec![me, ABSENT_PID, 0], &receipts).unwrap();
    assert_eq!(n.message, format!("Trigger: UI. 1 process(es) frozen: [{}].\nChoose action:", me));
    assert_eq!(ks.suspended_pids(), &vec![me]);
    assert!(ks.record_freeze("bot", "UI", &vec![], &vec![]).is_none());
    assert_eq!(ks.suspended_pids(), &vec![me]);
}

#[test]
fn emergency_stop_without_pids_does_nothing() {
    let mut ks = KillSwitch::new(ProcessTree::new());
    assert!(ks.emergency_stop("ghost", "UI").is_none());
    assert!(ks.suspended_pids().is_empty());
}

#[test]
fn emergency_stop_reports_frozen_processes() {
    let mut tree = ProcessTree::new();
    tree.register("bot", ABSENT_PID);
    let mut ks = KillSwitch::new(tree);
    let n = ks.emergency_stop("bot", "hotkey").unwrap();
    assert_eq!(n.level, NotificationLevel::Critical);
    assert_eq!(n.title, "🛑 Agent 'bot' SUSPENDED");
    assert_eq!(n.message, "Trigger: hotkey. 0 process(es) frozen: [].\nChoose action:");
    assert_eq!(
        n.action_buttons,
        vec!["Resume Agent".to_string(), "Terminate Permanently".to_string(), "Rollback Last Actions".to_string()]
    );
    assert!(ks.suspended_pids().is_empty());
}

#[test]
fn anomaly_check_triggers_only_above_limit() {
    let mut tree = ProcessTree::new();
    tree.register("bot", ABSENT_PID);
    let mut ks = KillSwitch::new(tree);
    assert!(ks.check_anomaly("bot", 200, 200).is_none());
    let n = ks.check_anomaly("bot", 201, 200).unwrap();
    assert!(n.message.starts_with("Trigger: AnomalyDetector: 201 file ops/min > limit 200. "));
    ks.resume_agent("bot");
    assert!(ks.suspended_pids().is_empty());
}

#[test]
fn frozen_list_message_uses_debug_list_form() {
    let n = guardian::kill_switch::kill_switch::stop_notification("a", "UI", &vec![12, 345]);
    assert_eq!(n.message, "Trigger: UI. 2 process(es) frozen: [12, 345].\nChoose action:");
}

#[test]
fn tokens_redeem_once_for_their_agent_before_expiry() {
    let fresh = TokenRow { token_id: "t".to_string(), agent_id: "bot".to_string(), expires_at: 100, is_used: false };
    let mut row = fresh.clone();
    assert!(!consume(&mut row, "other", 50));
    assert!(!row.is_used);
    assert!(!consume(&mut row, "bot", 100));
    assert!(consume(&mut row, "bot", 99));
    assert!(row.is_used);
    assert!(!consume(&mut row, "bot", 10));
}

#[test]
fn processes_are_matched_to_agents_by_name() {
    let none: Vec<(String, String)> = Vec::new();
    assert_eq!(agents_for_process("OpenClaw-Worker", &none), vec!["openclaw".to_string()]);
    assert_eq!(agents_for_process("openclaw", &none), vec!["openclaw".to_string()]);
    assert!(agents_for_process("bash", &none).is_empty());
}

#[test]
fn configured_rows_extend_the_agent_table() {
    let extra = vec![
        ("aider".to_string(), "aider-cli".to_string()),
        ("claw".to_string(), "claw-family".to_string()),
    ];
    assert_eq!(agents_for_process("Aider-Main", &extra), vec!["aider-cli".to_string()]);
    assert_eq!(
        agents_for_process("openclaw-daemon", &extra),
        vec!["openclaw".to_string(), "claw-family".to_string()]
    );
    assert!(agents_for_process("vim", &extra).is_empty());
}

#[test]
fn intent_events_name_their_agent() {
    assert_eq!(intent_agent("agent_intent.openclaw"), Some("openclaw".to_string()));
    assert_eq!(intent_agent("agent_intent."), Some(String::new()));
    assert_eq!(intent_agent("sensor.fs"), None);
    assert_eq!(intent_agent("xagent_intent.a"), None);
}
