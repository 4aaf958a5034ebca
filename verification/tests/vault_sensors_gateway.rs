use guardian::mcp::{
    build_permitted_message, find_tool, intent_from_args, intent_status, route_method, unknown_method,
    unknown_tool, GetSystemStateTool, McpRoute, QuerySemanticContextTool, ValidateTokenTool,
};
use guardian::queries::{build_agent_event_pattern, build_audit_source, build_tag_query, entity_from_row, recent_cutoff};
use guardian::rollback::{
    sha256_hex, snapshot_path, snapshot_target, strategy_for, FileCopyStrategy, MetadataOnlyStrategy,
    RollbackStrategy, StrategyKind, VaultManager,
};
use guardian::event::EventType;
use guardian::sensors::{
    event_type_for, file_uri, process_uri, FileSystemSensor, FsChange, ProcessChange, ProcessInfo,
    ProcessSensor, ProcessWatch,
};
use guardian::types::ProtectionResult;

fn vault() -> VaultManager {
    VaultManager::with_key(".vault".to_string(), (0u8..32).collect())
}

#[test]
fn sealed_snapshots_open_to_their_content() {
    let v = vault();
    let sealed = v.seal(b"hello vault").unwrap();
    assert_eq!(sealed.len(), 12 + 11 + 16);
    assert_eq!(v.open(&sealed).unwrap(), b"hello vault".to_vec());
    let again = v.seal(b"hello vault").unwrap();
    assert_ne!(sealed[..12], again[..12]);
    assert_ne!(&sealed[12..23], b"hello vault");
}

#[test]
fn corrupt_vault_files_are_refused() {
    let v = vault();
    assert_eq!(v.open(&[1, 2, 3]).unwrap_err(), "Vault file too short — corrupt?");
    let mut sealed = v.seal(b"data").unwrap();
    let last = sealed.len() - 1;
    sealed[last] ^= 1;
    assert_eq!(v.open(&sealed).unwrap_err(), "Decryption failed: aead::Error");
    let other = VaultManager::with_key(".vault".to_string(), vec![7u8; 32]);
    assert!(other.open(&v.seal(b"data").unwrap()).is_err());
}

#[test]
fn sha256_digest_in_hex() {
    assert_eq!(sha256_hex(b"abc"), "ba7816bf8f01cfea414140de5dae2223b00361a396177a9cb410ff61f20015ad");
}

#[test]
fn snapshot_targets_and_strategies() {
    assert_eq!(snapshot_path("file:///home/u/a.txt"), "/home/u/a.txt");
    assert_eq!(snapshot_path("/plain/path"), "/plain/path");
    assert_eq!(snapshot_target("file://C:/x"), Some("C:/x".to_string()));
    assert_eq!(snapshot_target("process://12"), None);
    assert_eq!(strategy_for(Some(99 * 1024 * 1024 + 5), 100), StrategyKind::FileCopy);
    assert_eq!(strategy_for(Some(100 * 1024 * 1024), 100), StrategyKind::FileCopy);
    assert_eq!(strategy_for(Some(100 * 1024 * 1024 + 1), 100), StrategyKind::MetadataOnly);
    assert_eq!(strategy_for(None, 100), StrategyKind::FileCopy);
    assert_eq!(strategy_for(None, 0), StrategyKind::FileCopy);
    assert_eq!(strategy_for(Some(1), 0), StrategyKind::MetadataOnly);
    assert_eq!(strategy_for(Some(u64::MAX), u64::MAX), StrategyKind::FileCopy);
}

#[test]
fn snapshot_records_expire_after_retention() {
    let fc = FileCopyStrategy { retention_hours: 48 };
    let r = fc.record("agent", "pre-token", "file:///a", "v/1.vault".to_string(), "id-1".to_string(), 1000);
    assert_eq!(r.expires_at, 1000 + 48 * 3600);
    assert_eq!(r.strategy_used, "FileCopyStrategy");
    assert_eq!(r.vault_path, Some("v/1.vault".to_string()));
    assert!(fc.restore(&"id-1".to_string()).is_ok());
    let mo = MetadataOnlyStrategy { retention_hours: 1 };
    let r = mo.record("agent", "t", "file:///b", "{}".to_string(), "id-2".to_string(), 5);
    assert_eq!(r.expires_at, 3605);
    assert_eq!(r.metadata_json, Some("{}".to_string()));
    assert_eq!(mo.restore(&"id-2".to_string()).unwrap_err(), "MetadataOnlyStrategy cannot restore file content.");
}

#[test]
fn sensors_have_names_and_settings() {
    let fs = FileSystemSensor::new("C:/Users/tester/Documents");
    assert_eq!(fs.name(), "sensor.fs");
    assert_eq!(fs.watch_path(), "C:/Users/tester/Documents");
    let ps = ProcessSensor::new(3);
    assert_eq!(ps.name(), "sensor.process");
    assert_eq!(ps.poll_interval_secs(), 3);
}

#[test]
fn file_changes_map_to_events_and_uris() {
    assert_eq!(event_type_for(FsChange::Create), Some(EventType::Created));
    assert_eq!(event_type_for(FsChange::Modify), Some(EventType::Modified));
    assert_eq!(event_type_for(FsChange::Remove), Some(EventType::Deleted));
    assert_eq!(event_type_for(FsChange::Access), Some(EventType::Accessed));
    assert_eq!(event_type_for(FsChange::Other), None);
    assert_eq!(file_uri("C:\\Users\\t\\doc.txt"), "file://C:/Users/t/doc.txt");
    assert_eq!(process_uri(1204), "process://1204");
}

fn proc(pid: u32, name: &str, mem: u64) -> ProcessInfo {
    ProcessInfo { pid, name: name.to_string(), executable: format!("/bin/{}", name), memory_bytes: mem }
}

#[test]
fn process_watch_reports_starts_then_ends() {
    let mut w = ProcessWatch::new(&vec![proc(1, "init", 0), proc(2, "shell", 0)]);
    let changes = w.poll(&vec![proc(2, "renamed", 0), proc(3, "agent", 4096)]);
    assert_eq!(changes.len(), 2);
    match &changes[0] {
        ProcessChange::Started { pid, name, executable, memory_kb } => {
            assert_eq!((*pid, name.as_str(), executable.as_str(), *memory_kb), (3, "agent", "/bin/agent", 4));
        }
        other => panic!("unexpected {:?}", other),
    }
    match &changes[1] {
        ProcessChange::Terminated { pid, name, executable } => {
            assert_eq!((*pid, name.as_str(), executable.as_str()), (1, "init", "/bin/init"));
        }
        other => panic!("unexpected {:?}", other),
    }
    let changes = w.poll(&vec![proc(3, "agent", 0)]);
    match &changes[..] {
        [ProcessChange::Terminated { pid: 2, name, .. }] => assert_eq!(name, "shell"),
        other => panic!("unexpected {:?}", other),
    }
    assert!(w.poll(&vec![proc(3, "agent", 0)]).is_empty());
}

#[test]
fn gateway_routes_methods_and_tools() {
    assert_eq!(route_method("initialize"), McpRoute::Initialize);
    assert_eq!(route_method("tools/list"), McpRoute::ListTools);
    assert_eq!(route_method("tools/call"), McpRoute::CallTool);
    assert_eq!(route_method("ping"), McpRoute::Unknown);
    assert_eq!(unknown_method("ping"), "Unknown method 'ping'. Supported: tools/list, tools/call");
    assert_eq!(unknown_tool("x"), "Tool 'x' not registered. Call tools/list to see available tools.");
    let names = vec!["a", "b", "a"];
    assert_eq!(find_tool(&names, "a"), Some(0));
    assert_eq!(find_tool(&names, "b"), Some(1));
    assert_eq!(find_tool(&names, "c"), None);
}

#[test]
fn tool_plans_and_verdicts() {
    let t = GetSystemStateTool;
    assert_eq!(t.name(), "get_system_state");
    let q = t.plan(None, None);
    assert_eq!(q.limit, 20);
    assert_eq!(GetSystemStateTool::reported_filter(&q), "all");
    let q = t.plan(Some(5), Some("sensor.fs".to_string()));
    assert_eq!(q.limit, 5);
    assert_eq!(GetSystemStateTool::reported_filter(&q), "sensor.fs");
    let qs = QuerySemanticContextTool;
    assert!(qs.check_tags(&vec![]).is_err());
    assert!(qs.check_tags(&vec!["role:x".to_string()]).is_ok());
    let v = ValidateTokenTool;
    assert_eq!(v.name(), "validate_permission_token");
    let missing = v.check_args(None, Some("a".to_string())).unwrap_err();
    assert!(!missing.valid);
    assert_eq!(missing.error.as_deref(), Some("Missing required field: token_id"));
    let missing = v.check_args(Some("t".to_string()), None).unwrap_err();
    assert_eq!(missing.error.as_deref(), Some("Missing required field: agent_id"));
    assert_eq!(v.check_args(Some("t".to_string()), Some("a".to_string())).unwrap(), ("t".to_string(), "a".to_string()));
    let ok = v.verdict("t".to_string(), Ok(true));
    assert!(ok.valid);
    assert_eq!(ok.token_id.as_deref(), Some("t"));
    let used = v.verdict("t".to_string(), Ok(false));
    assert!(!used.valid);
    assert!(used.message.unwrap().starts_with("Token invalid, expired, or already used."));
    let err = v.verdict("t".to_string(), Err("disk".to_string()));
    assert_eq!(err.error.as_deref(), Some("Token validation DB error: disk"));
}

#[test]
fn intents_from_tool_arguments() {
    assert_eq!(intent_from_args(Some("a"), Some("read"), None, serde_json::Value::Null).unwrap_err(), "target_uri is required.");
    assert!(intent_from_args(Some("a"), Some("read"), Some(""), serde_json::Value::Null).is_err());
    let i = intent_from_args(None, None, Some("file:///x"), serde_json::Value::Bool(true)).unwrap();
    assert_eq!(i.agent_id, "unknown");
    assert_eq!(i.action, "unknown");
    assert_eq!(i.target_uri, "file:///x");
    assert_eq!(i.intent_id.len(), 36);
    assert_eq!(i.metadata, serde_json::Value::Bool(true));
    assert_eq!(
        build_permitted_message("write", "file:///x"),
        "Action 'write' on 'file:///x' approved. Include permission_token in your action call. Expires in 60s."
    );
    let r = ProtectionResult::RuleBlocked { rule_id: "r".to_string(), rule_type: "AlwaysBlock".to_string() };
    assert_eq!(intent_status(&r), "rule_blocked");
}

#[test]
fn query_texts() {
    assert_eq!(
        build_tag_query(2),
        "SELECT uri, semantic_tags, confidence_score, last_observed FROM semantic_entities WHERE semantic_tags LIKE '%' || ? || '%' OR semantic_tags LIKE '%' || ? || '%'"
    );
    assert_eq!(build_agent_event_pattern("bot"), "agent_intent.bot%");
    assert_eq!(build_audit_source("bot"), "agent_intent.bot");
    assert_eq!(recent_cutoff(1000, 60), 940);
    let e = entity_from_row("file:///a".to_string(), "[\"role:x\"]", 5000, 7);
    assert_eq!(e.semantic_tags, vec!["role:x".to_string()]);
    assert!(entity_from_row("u".to_string(), "{}", 0, 0).semantic_tags.is_empty());
}
