//! The MCP gateway's decisions: which method a request calls, which tool it names,
//! and what each tool answers, as plain values.
use crate::ids::new_v4_string;
use crate::text::str_eq;
use crate::types::{AgentIntent, ProtectionResult};
use vstd::prelude::*;

verus! {

/// JSON-RPC: the method does not exist (or the tool is not registered).
pub const METHOD_NOT_FOUND: i32 = -32601;

/// JSON-RPC: the request's parameters are missing.
pub const INVALID_PARAMS: i32 = -32602;

/// The JSON-RPC methods the tool server answers.
#[derive(Debug, Clone, Copy, PartialEq, Eq, Structural)]
pub enum McpRoute {
    Initialize,
    ListTools,
    CallTool,
    Unknown,
}

/// The route of a method name.
pub open spec fn route_of(method: Seq<char>) -> McpRoute {
    if method == "initialize"@ {
        McpRoute::Initialize
    } else if method == "tools/list"@ {
        McpRoute::ListTools
    } else if method == "tools/call"@ {
        McpRoute::CallTool
    } else {
        McpRoute::Unknown
    }
}

/// Routes a JSON-RPC method name.
pub fn route_method(method: &str) -> (r: McpRoute)
    ensures
        r == route_of(method@),
{
    if str_eq(method, "initialize") {
        McpRoute::Initialize
    } else if str_eq(method, "tools/list") {
        McpRoute::ListTools
    } else if str_eq(method, "tools/call") {
        McpRoute::CallTool
    } else {
        McpRoute::Unknown
    }
}

/// The error message for an unknown method.
pub open spec fn unknown_method_message(method: Seq<char>) -> Seq<char> {
    "Unknown method '"@ + method + "'. Supported: tools/list, tools/call"@
}

/// Builds the error message for an unknown method.
pub fn unknown_method(method: &str) -> (r: String)
    ensures
        r@ == unknown_method_message(method@),
{
    let mut r = String::from_str("Unknown method '");
    r.append(method);
    r.append("'. Supported: tools/list, tools/call");
    r
}

/// The error message for a tool that is not registered.
pub open spec fn unknown_tool_message(name: Seq<char>) -> Seq<char> {
    "Tool '"@ + name + "' not registered. Call tools/list to see available tools."@
}

/// Builds the error message for a tool that is not registered.
pub fn unknown_tool(name: &str) -> (r: String)
    ensures
        r@ == unknown_tool_message(name@),
{
    let mut r = String::from_str("Tool '");
    r.append(name);
    r.append("' not registered. Call tools/list to see available tools.");
    r
}

/// The position of the first registered tool with the given name.
pub fn find_tool(tool_names: &Vec<&str>, name: &str) -> (r: Option<usize>)
    ensures
        match r {
            Some(i) => i < tool_names@.len() && tool_names@[i as int]@ == name@ && forall|j: int|
                0 <= j < i ==> (#[trigger] tool_names@[j])@ != name@,
            None => forall|j: int| 0 <= j < tool_names@.len() ==> (#[trigger] tool_names@[j])@ != name@,
        },
{
    let mut i: usize = 0;
    while i < tool_names.len()
        invariant
            i <= tool_names@.len(),
            forall|j: int| 0 <= j < i ==> (#[trigger] tool_names@[j])@ != name@,
        decreases tool_names.len() - i,
    {
        if str_eq(tool_names[i], name) {
            return Some(i);
        }
        i = i + 1;
    }
    None
}

/// Returns recent events and the active safety rules.
pub struct GetSystemStateTool;

/// Resolves semantic tags into the URIs Guardian has classified.
pub struct QuerySemanticContextTool;

/// Validates and consumes a permission token.
pub struct ValidateTokenTool;

/// The number of events returned when the caller names no limit.
pub const DEFAULT_EVENT_LIMIT: u64 = 20;

/// The recent-events query a `get_system_state` call asks for.
pub struct SystemStateQuery {
    pub limit: usize,
    /// Only events from this source; all sources when None.
    pub source_filter: Option<String>,
}

impl GetSystemStateTool {
    pub fn name(&self) -> (r: &'static str)
        ensures
            r@ == "get_system_state"@,
    {
        "get_system_state"
    }

    pub fn description(&self) -> (r: &'static str)
        ensures
            r@ == "Returns a generic snapshot of Guardian's observed system state \
        from the knowledge graph. Includes recent events from all active sensors \
        (file system, processes, agent intents, and any future sensors). \
        Use source_filter to focus on a specific sensor stream."@,
    {
        "Returns a generic snapshot of Guardian's observed system state \
        from the knowledge graph. Includes recent events from all active sensors \
        (file system, processes, agent intents, and any future sensors). \
        Use source_filter to focus on a specific sensor stream."
    }

    /// The query for the call's arguments: the limit defaults to 20 (and is truncated
    /// to the machine's word size).
    pub fn plan(&self, limit: Option<u64>, source_filter: Option<String>) -> (r: SystemStateQuery)
        ensures
            r.limit == (match limit {
                Some(l) => l,
                None => DEFAULT_EVENT_LIMIT,
            }) as usize,
            r.source_filter == source_filter,
    {
        let l = match limit {
            Some(l) => l,
            None => DEFAULT_EVENT_LIMIT,
        };
        SystemStateQuery { limit: #[verifier::truncate] (l as usize), source_filter }
    }

    /// The source filter reported back: the filter, or "all".
    pub fn reported_filter(q: &SystemStateQuery) -> (r: &str)
        ensures
            r@ == (match q.source_filter {
                Some(s) => s@,
                None => "all"@,
            }),
    {
        match &q.source_filter {
            Some(s) => s.as_str(),
            None => "all",
        }
    }
}

impl QuerySemanticContextTool {
    pub fn name(&self) -> (r: &'static str)
        ensures
            r@ == "query_semantic_context"@,
    {
        "query_semantic_context"
    }

    pub fn description(&self) -> (r: &'static str)
        ensures
            r@ == "Resolves abstract semantic tags (e.g. [\"role:work_documents\"]) into \
        the physical resource URIs that Guardian has observed and classified. \
        Use this instead of hard-coded file paths — Guardian knows where things \
        actually live based on your real behaviour."@,
    {
        "Resolves abstract semantic tags (e.g. [\"role:work_documents\"]) into \
        the physical resource URIs that Guardian has observed and classified. \
        Use this instead of hard-coded file paths — Guardian knows where things \
        actually live based on your real behaviour."
    }

    /// Refuses a call without tags.
    pub fn check_tags(&self, tags: &Vec<String>) -> (r: Result<(), &'static str>)
        ensures
            r is Ok <==> tags@.len() > 0,
            r matches Err(m) ==> m@ == "No tags provided. Pass at least one semantic tag like \"role:work_documents\"."@,
    {
        if tags.len() == 0 {
            Err("No tags provided. Pass at least one semantic tag like \"role:work_documents\".")
        } else {
            Ok(())
        }
    }
}

/// The optional text is present and reads `t`.
pub open spec fn text_is(o: Option<String>, t: Seq<char>) -> bool {
    match o {
        Some(s) => s@ == t,
        None => false,
    }
}

/// What a `validate_permission_token` call answers, field by field.
#[derive(Debug, Clone)]
pub struct TokenVerdict {
    pub valid: bool,
    pub token_id: Option<String>,
    pub error: Option<String>,
    pub message: Option<String>,
}

/// The answer when the token was valid, unused and unexpired, and is now consumed.
pub open spec fn accepted_message() -> Seq<char> {
    "Token accepted. You may proceed with the approved action. This token is now consumed and cannot be reused."@
}

/// The answer when the token was invalid, expired, or already used.
pub open spec fn rejected_message() -> Seq<char> {
    "Token invalid, expired, or already used. Call log_agent_intent again to request a new token."@
}

impl ValidateTokenTool {
    pub fn name(&self) -> (r: &'static str)
        ensures
            r@ == "validate_permission_token"@,
    {
        "validate_permission_token"
    }

    pub fn description(&self) -> (r: &'static str)
        ensures
            r@ == "Validate a PermissionToken before performing an approved action. \
         Token is consumed on first use — cannot be reused. \
         Required fields: token_id (string), agent_id (string)."@,
    {
        "Validate a PermissionToken before performing an approved action. \
         Token is consumed on first use — cannot be reused. \
         Required fields: token_id (string), agent_id (string)."
    }

    /// Checks the call's arguments: both the token id and the agent id are required,
    /// the token id first.
    pub fn check_args(&self, token_id: Option<String>, agent_id: Option<String>) -> (r: Result<(String, String), TokenVerdict>)
        ensures
            match (token_id, agent_id) {
                (Some(t), Some(a)) => r == Ok::<(String, String), TokenVerdict>((t, a)),
                (None, _) => match r {
                    Err(v) => !v.valid && v.token_id is None && text_is(v.error, "Missing required field: token_id"@)
                        && text_is(v.message, "Include token_id from the permission_token you received."@),
                    Ok(_) => false,
                },
                (Some(_), None) => match r {
                    Err(v) => !v.valid && v.token_id is None && text_is(v.error, "Missing required field: agent_id"@)
                        && text_is(v.message, "Include the agent_id you used in log_agent_intent."@),
                    Ok(_) => false,
                },
            },
    {
        match token_id {
            None => Err(TokenVerdict {
                valid: false,
                token_id: None,
                error: Some(String::from_str("Missing required field: token_id")),
                message: Some(String::from_str("Include token_id from the permission_token you received.")),
            }),
            Some(t) => match agent_id {
                None => Err(TokenVerdict {
                    valid: false,
                    token_id: None,
                    error: Some(String::from_str("Missing required field: agent_id")),
                    message: Some(String::from_str("Include the agent_id you used in log_agent_intent.")),
                }),
                Some(a) => Ok((t, a)),
            },
        }
    }

    /// The answer for the store's reply: consumed, refused, or a database error.
    pub fn verdict(&self, token_id: String, consumed: Result<bool, String>) -> (v: TokenVerdict)
        ensures
            match consumed {
                Ok(true) => v.valid && v.token_id == Some(token_id) && v.error is None && text_is(v.message, accepted_message()),
                Ok(false) => !v.valid && v.token_id == Some(token_id) && v.error is None && text_is(v.message, rejected_message()),
                Err(e) => !v.valid && v.token_id is None && v.message is None && text_is(v.error, "Token validation DB error: "@ + e@),
            },
    {
        match consumed {
            Ok(true) => TokenVerdict {
                valid: true,
                token_id: Some(token_id),
                error: None,
                message: Some(String::from_str("Token accepted. You may proceed with the approved action. This token is now consumed and cannot be reused.")),
            },
            Ok(false) => TokenVerdict {
                valid: false,
                token_id: Some(token_id),
                error: None,
                message: Some(String::from_str("Token invalid, expired, or already used. Call log_agent_intent again to request a new token.")),
            },
            Err(e) => {
                let mut m = String::from_str("Token validation DB error: ");
                m.append(e.as_str());
                TokenVerdict { valid: false, token_id: None, error: Some(m), message: None }
            },
        }
    }
}

/// The name of the intent-logging tool.
pub fn log_agent_intent_name() -> (r: &'static str)
    ensures
        r@ == "log_agent_intent"@,
{
    "log_agent_intent"
}

/// The description of the intent-logging tool.
pub fn log_agent_intent_description() -> (r: &'static str)
    ensures
        r@ == "Announces the AI agent's intended action to Guardian BEFORE executing it. \
        Guardian runs the action through its Safety Rules Engine, Risk Scoring Engine, \
        and Permission Gate. Returns a PermissionToken on approval that MUST be included \
        in the actual action request. Returns rejection details on denial."@,
{
    "Announces the AI agent's intended action to Guardian BEFORE executing it. \
        Guardian runs the action through its Safety Rules Engine, Risk Scoring Engine, \
        and Permission Gate. Returns a PermissionToken on approval that MUST be included \
        in the actual action request. Returns rejection details on denial."
}

/// The text an argument reads as: its value, or the fallback when it is missing.
pub open spec fn or_default(arg: Option<&str>, fallback: Seq<char>) -> Seq<char> {
    match arg {
        Some(s) => s@,
        None => fallback,
    }
}

/// Builds the intent a `log_agent_intent` call declares, under a fresh random id.
/// The agent and the action default to "unknown"; a missing or empty target is refused.
pub fn intent_from_args(
    agent_id: Option<&str>,
    action: Option<&str>,
    target_uri: Option<&str>,
    metadata: serde_json::Value,
) -> (r: Result<AgentIntent, &'static str>)
    ensures
        or_default(target_uri, Seq::empty()).len() == 0 <==> r is Err,
        r matches Err(m) ==> m@ == "target_uri is required."@,
        match r {
            Ok(i) => i.intent_id@.len() == 36 && i.agent_id@ == or_default(agent_id, "unknown"@)
                && i.action@ == or_default(action, "unknown"@) && i.target_uri@ == or_default(target_uri, Seq::empty())
                && i.metadata == metadata,
            Err(_) => true,
        },
{
    let target = match target_uri {
        Some(t) => String::from_str(t),
        None => String::new(),
    };
    if target.as_str().unicode_len() == 0 {
        return Err("target_uri is required.");
    }
    let agent = match agent_id {
        Some(a) => String::from_str(a),
        None => String::from_str("unknown"),
    };
    let act = match action {
        Some(a) => String::from_str(a),
        None => String::from_str("unknown"),
    };
    Ok(AgentIntent { intent_id: new_v4_string(), agent_id: agent, action: act, target_uri: target, metadata })
}

/// The status reported for a pipeline result.
pub open spec fn status_of(r: ProtectionResult) -> Seq<char> {
    match r {
        ProtectionResult::Permitted { .. } => "permitted"@,
        ProtectionResult::Denied { .. } => "denied"@,
        ProtectionResult::RuleBlocked { .. } => "rule_blocked"@,
        ProtectionResult::PendingConfirmation { .. } => "pending_confirmation"@,
    }
}

/// The status reported for a pipeline result.
pub fn intent_status(r: &ProtectionResult) -> (s: &'static str)
    ensures
        s@ == status_of(*r),
{
    match r {
        ProtectionResult::Permitted { .. } => "permitted",
        ProtectionResult::Denied { .. } => "denied",
        ProtectionResult::RuleBlocked { .. } => "rule_blocked",
        ProtectionResult::PendingConfirmation { .. } => "pending_confirmation",
    }
}

/// The message returned with a permitted action.
pub open spec fn permitted_message(action: Seq<char>, target_uri: Seq<char>) -> Seq<char> {
    "Action '"@ + action + "' on '"@ + target_uri
        + "' approved. Include permission_token in your action call. Expires in 60s."@
}

/// Builds the message returned with a permitted action.
pub fn build_permitted_message(action: &str, target_uri: &str) -> (r: String)
    ensures
        r@ == permitted_message(action@, target_uri@),
{
    let mut r = String::from_str("Action '");
    r.append(action);
    r.append("' on '");
    r.append(target_uri);
    r.append("' approved. Include permission_token in your action call. Expires in 60s.");
    r
}

/// Each kind of pipeline result reports its own status, and no other kind reports
/// it: "permitted" only for a permitted action, "denied" for a denial, "rule_blocked"
/// for a safety-rule block, "pending_confirmation" while the user is asked.
pub proof fn status_names_the_result(r: ProtectionResult)
    ensures
        status_of(r) == "permitted"@ <==> r is Permitted,
        status_of(r) == "denied"@ <==> r is Denied,
        status_of(r) == "rule_blocked"@ <==> r is RuleBlocked,
        status_of(r) == "pending_confirmation"@ <==> r is PendingConfirmation,
{
    reveal_strlit("permitted");
    reveal_strlit("denied");
    reveal_strlit("rule_blocked");
    reveal_strlit("pending_confirmation");
    assert("permitted"@ != "denied"@) by {
        assert("permitted"@[0] != "denied"@[0]);
    }
    assert("permitted"@ != "rule_blocked"@) by {
        assert("permitted"@[0] != "rule_blocked"@[0]);
    }
    assert("permitted"@ != "pending_confirmation"@) by {
        assert("permitted"@.len() != "pending_confirmation"@.len());
    }
    assert("denied"@ != "rule_blocked"@) by {
        assert("denied"@[0] != "rule_blocked"@[0]);
    }
    assert("denied"@ != "pending_confirmation"@) by {
        assert("denied"@[0] != "pending_confirmation"@[0]);
    }
    assert("rule_blocked"@ != "pending_confirmation"@) by {
        assert("rule_blocked"@[0] != "pending_confirmation"@[0]);
    }
}

/// Only the three supported method names are routed, each to its own handler; every
/// other name is unknown.
pub proof fn only_supported_methods_route(method: Seq<char>)
    ensures
        route_of(method) == McpRoute::Initialize <==> method == "initialize"@,
        route_of(method) == McpRoute::ListTools <==> method == "tools/list"@,
        route_of(method) == McpRoute::CallTool <==> method == "tools/call"@,
{
    reveal_strlit("initialize");
    reveal_strlit("tools/list");
    reveal_strlit("tools/call");
    assert("initialize"@ != "tools/list"@) by {
        assert("initialize"@[0] != "tools/list"@[0]);
    }
    assert("initialize"@ != "tools/call"@) by {
        assert("initialize"@[0] != "tools/call"@[0]);
    }
    assert("tools/list"@ != "tools/call"@) by {
        assert("tools/list"@[6] != "tools/call"@[6]);
    }
}

} // verus!
