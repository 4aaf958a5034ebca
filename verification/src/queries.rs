//! The parts of the knowledge-graph queries that compute: SQL text, LIKE patterns,
//! time cut-offs, and turning rows into values.
use crate::json::{parse_string_list_or_empty, parsed_or_empty};
use crate::notification::texts;
use crate::types::SemanticEntity;
use vstd::prelude::*;

verus! {

/// The SELECT that finds entities whose tags mention any of `n` tags.
pub open spec fn tag_query_sql(n: nat) -> Seq<char> {
    "SELECT uri, semantic_tags, confidence_score, last_observed FROM semantic_entities WHERE "@ + like_conditions(n)
}

/// `n` LIKE conditions on the tag column, joined by OR.
pub open spec fn like_conditions(n: nat) -> Seq<char>
    decreases n,
{
    if n == 0 {
        Seq::empty()
    } else if n == 1 {
        "semantic_tags LIKE '%' || ? || '%'"@
    } else {
        like_conditions((n - 1) as nat) + " OR "@ + "semantic_tags LIKE '%' || ? || '%'"@
    }
}

/// Builds the SELECT for `n` tags (one bound parameter per tag).
pub fn build_tag_query(n: usize) -> (r: String)
    ensures
        r@ == tag_query_sql(n as nat),
{
    let mut r = String::from_str("SELECT uri, semantic_tags, confidence_score, last_observed FROM semantic_entities WHERE ");
    let ghost start = r@;
    let mut i: usize = 0;
    while i < n
        invariant
            i <= n,
            r@ == start + like_conditions(i as nat),
        decreases n - i,
    {
        if i > 0 {
            r.append(" OR ");
        }
        r.append("semantic_tags LIKE '%' || ? || '%'");
        i = i + 1;
        assert(r@ =~= start + like_conditions(i as nat));
    }
    r
}

/// The LIKE pattern matching the audit sources of an agent's intents.
pub open spec fn agent_event_pattern(agent_id: Seq<char>) -> Seq<char> {
    "agent_intent."@ + agent_id + "%"@
}

/// Builds the LIKE pattern for an agent's intents.
pub fn build_agent_event_pattern(agent_id: &str) -> (r: String)
    ensures
        r@ == agent_event_pattern(agent_id@),
{
    let mut r = String::from_str("agent_intent.");
    r.append(agent_id);
    r.append("%");
    r
}

/// The audit source of an agent's intents.
pub open spec fn audit_source(agent_id: Seq<char>) -> Seq<char> {
    "agent_intent."@ + agent_id
}

/// Builds the audit source of an agent's intents.
pub fn build_audit_source(agent_id: &str) -> (r: String)
    ensures
        r@ == audit_source(agent_id@),
{
    let mut r = String::from_str("agent_intent.");
    r.append(agent_id);
    r
}

/// The earliest time (exclusive) that counts as "the last `seconds` seconds" at `now`.
pub fn recent_cutoff(now: i64, seconds: i64) -> (r: i64)
    requires
        i64::MIN <= now - seconds <= i64::MAX,
    ensures
        r == now - seconds,
{
    now - seconds
}

/// Builds an entity from a row; tags that are not a JSON list of strings read as none.
pub fn entity_from_row(uri: String, semantic_tags_json: &str, confidence_score: u32, last_observed: i64) -> (r: SemanticEntity)
    ensures
        r.uri == uri,
        texts(r.semantic_tags@) == parsed_or_empty(semantic_tags_json@),
        r.confidence_score == confidence_score,
        r.last_observed == last_observed,
{
    SemanticEntity {
        uri,
        semantic_tags: parse_string_list_or_empty(semantic_tags_json),
        confidence_score,
        last_observed,
    }
}

} // verus!
