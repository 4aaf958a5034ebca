//! The safety-rules engine: user constraints checked before any risk scoring.
use crate::ids::new_v4_string;
use crate::json::{parse_string_list_or_empty, parsed_or_empty, json_string_list, string_list_json};
use crate::notification::texts;
use crate::text::{
    lowercase, seq_contains, seq_starts_with, spec_lowercase, str_contains, str_eq,
    str_starts_with,
};
use crate::types::{AgentIntent, GateDecision, RuleType, SafetyRule};
use vstd::prelude::*;

verus! {

/// The rule that fired for an intent.
#[derive(Debug, Clone)]
pub struct RuleMatch {
    pub rule_id: String,
    pub rule_type: RuleType,
}

/// `{:?}` of a rule type.
pub open spec fn rule_type_name(t: RuleType) -> Seq<char> {
    match t {
        RuleType::AlwaysBlock => "AlwaysBlock"@,
        RuleType::AlwaysRequireConfirmation => "AlwaysRequireConfirmation"@,
        RuleType::NeverAllowScope => "NeverAllowScope"@,
    }
}

/// `{:?}` of a rule type.
pub fn rule_type_debug(t: RuleType) -> (r: &'static str)
    ensures
        r@ == rule_type_name(t),
{
    match t {
        RuleType::AlwaysBlock => "AlwaysBlock",
        RuleType::AlwaysRequireConfirmation => "AlwaysRequireConfirmation",
        RuleType::NeverAllowScope => "NeverAllowScope",
    }
}

/// The rule type stored in the database's `rule_type` column; unknown texts block.
pub open spec fn rule_type_of_db(s: Seq<char>) -> RuleType {
    if s == "always_require_confirmation"@ {
        RuleType::AlwaysRequireConfirmation
    } else if s == "never_allow_scope"@ {
        RuleType::NeverAllowScope
    } else {
        RuleType::AlwaysBlock
    }
}

/// Reads the database's `rule_type` column.
pub fn rule_type_from_db(s: &str) -> (r: RuleType)
    ensures
        r == rule_type_of_db(s@),
{
    if str_eq(s, "always_require_confirmation") {
        RuleType::AlwaysRequireConfirmation
    } else if str_eq(s, "never_allow_scope") {
        RuleType::NeverAllowScope
    } else {
        RuleType::AlwaysBlock
    }
}

/// The database text for a rule type named in the rules file; unknown names block.
pub open spec fn db_rule_type_of_toml(s: Seq<char>) -> Seq<char> {
    if s == "AlwaysRequireConfirmation"@ {
        "always_require_confirmation"@
    } else if s == "NeverAllowScope"@ {
        "never_allow_scope"@
    } else {
        "always_block"@
    }
}

/// Maps a rule type named in the rules file to its database text.
pub fn toml_rule_type_to_db(s: &str) -> (r: &'static str)
    ensures
        r@ == db_rule_type_of_toml(s@),
{
    if str_eq(s, "AlwaysRequireConfirmation") {
        "always_require_confirmation"
    } else if str_eq(s, "NeverAllowScope") {
        "never_allow_scope"
    } else {
        "always_block"
    }
}

/// A row to insert into the `safety_rules` table when seeding from the rules file.
#[derive(Debug, Clone)]
pub struct SeedRow {
    pub rule_id: String,
    pub rule_type: &'static str,
    pub scope_tags_json: String,
    pub applies_to_agent: Option<String>,
    pub created_by: &'static str,
}

/// Builds the row for one rule of the rules file, under a fresh random id.
pub fn seed_row(rule_type: &str, scope_tags: &Vec<String>, applies_to_agent: Option<String>) -> (r: SeedRow)
    ensures
        r.rule_id@.len() == 36,
        r.rule_type@ == db_rule_type_of_toml(rule_type@),
        r.scope_tags_json@ == json_string_list(texts(scope_tags@)),
        r.applies_to_agent == applies_to_agent,
        r.created_by@ == "safety_rules.toml"@,
{
    SeedRow {
        rule_id: new_v4_string(),
        rule_type: toml_rule_type_to_db(rule_type),
        scope_tags_json: string_list_json(scope_tags),
        applies_to_agent,
        created_by: "safety_rules.toml",
    }
}

/// Builds a rule from a database row; scope tags that are not a JSON list of strings
/// read as no tags.
pub fn safety_rule_from_row(
    rule_id: String,
    rule_type: &str,
    scope_tags_json: &str,
    applies_to_agent: Option<String>,
    created_by: String,
) -> (r: SafetyRule)
    ensures
        r.rule_id == rule_id,
        r.rule_type == rule_type_of_db(rule_type@),
        texts(r.scope_tags@) == parsed_or_empty(scope_tags_json@),
        r.applies_to_agent == applies_to_agent,
        r.created_by == created_by,
{
    SafetyRule {
        rule_id,
        rule_type: rule_type_from_db(rule_type),
        scope_tags: parse_string_list_or_empty(scope_tags_json),
        applies_to_agent,
        created_by,
    }
}

/// The rule's agent filter lets this agent through: no filter, "all", or the agent's own id.
pub open spec fn agent_filter_passes(rule: SafetyRule, agent_id: Seq<char>) -> bool {
    match rule.applies_to_agent {
        None => true,
        Some(a) => a@ == "all"@ || a@ == agent_id,
    }
}

/// One scope tag matches: an "action:" tag when its verb occurs in the lower-cased
/// action, any other tag when the target carries exactly that tag.
pub open spec fn tag_matches(tag: Seq<char>, action: Seq<char>, entity_tags: Seq<String>) -> bool {
    if seq_starts_with(tag, "action:"@) {
        seq_contains(action, tag.subrange(7, tag.len() as int))
    } else {
        exists|k: int| 0 <= k < entity_tags.len() && #[trigger] entity_tags[k]@ == tag
    }
}

/// A rule fires for an intent: its agent filter passes and all its scope tags match.
pub open spec fn rule_fires(rule: SafetyRule, intent: &AgentIntent, entity_tags: Seq<String>) -> bool {
    &&& agent_filter_passes(rule, intent.agent_id@)
    &&& forall|t: int|
        0 <= t < rule.scope_tags@.len() ==> tag_matches(
            #[trigger] rule.scope_tags@[t]@,
            spec_lowercase(intent.action@),
            entity_tags,
        )
}

/// The target carries the tag.
fn has_tag(entity_tags: &Vec<String>, tag: &str) -> (r: bool)
    ensures
        r == exists|k: int| 0 <= k < entity_tags@.len() && #[trigger] entity_tags@[k]@ == tag@,
{
    let mut k: usize = 0;
    while k < entity_tags.len()
        invariant
            k <= entity_tags.len(),
            forall|j: int| 0 <= j < k ==> #[trigger] entity_tags@[j]@ != tag@,
        decreases entity_tags.len() - k,
    {
        if str_eq(entity_tags[k].as_str(), tag) {
            return true;
        }
        k = k + 1;
    }
    false
}

/// The reason given when a blocking rule fires.
pub open spec fn rule_block_reason(rule_id: Seq<char>, t: RuleType) -> Seq<char> {
    "Blocked by safety rule '"@ + rule_id + "' (type: "@ + rule_type_name(t) + ")"@
}

/// The preview shown when a confirmation rule fires.
pub open spec fn rule_confirm_preview(rule_id: Seq<char>) -> Seq<char> {
    "Safety rule '"@ + rule_id + "' requires user confirmation."@
}

/// The decision a fired rule imposes.
pub open spec fn decision_for_rule(d: GateDecision, rm: RuleMatch) -> bool {
    match rm.rule_type {
        RuleType::AlwaysRequireConfirmation => d matches GateDecision::RequireUserConfirmation {
            preview,
        } && preview@ == rule_confirm_preview(rm.rule_id@),
        _ => d matches GateDecision::Block { reason } && reason@ == rule_block_reason(
            rm.rule_id@,
            rm.rule_type,
        ),
    }
}

/// `m` reports the first rule, in order, that fires for the intent.
pub open spec fn is_first_match(rules: Seq<SafetyRule>, intent: &AgentIntent, entity_tags: Seq<String>, m: RuleMatch) -> bool {
    exists|i: int|
        {
            &&& 0 <= i < rules.len()
            &&& rule_fires(#[trigger] rules[i], intent, entity_tags)
            &&& forall|j: int| 0 <= j < i ==> !rule_fires(#[trigger] rules[j], intent, entity_tags)
            &&& m.rule_id == rules[i].rule_id
            &&& m.rule_type == rules[i].rule_type
        }
}

/// No rule fires for the intent.
pub open spec fn none_fires(rules: Seq<SafetyRule>, intent: &AgentIntent, entity_tags: Seq<String>) -> bool {
    forall|i: int| 0 <= i < rules.len() ==> !rule_fires(#[trigger] rules[i], intent, entity_tags)
}

/// Holds the active safety rules, checked in order.
pub struct SafetyRulesEngine {
    rules: Vec<SafetyRule>,
}

impl SafetyRulesEngine {
    /// The active rules, in the order they are checked.
    pub closed spec fn spec_rules(&self) -> Seq<SafetyRule> {
        self.rules@
    }

    /// An engine holding the active rules read from the database.
    pub fn load(rules: Vec<SafetyRule>) -> (r: Self)
        ensures
            r.spec_rules() == rules@,
    {
        SafetyRulesEngine { rules }
    }

    /// Replaces the cached rules, after seeding has changed the database.
    pub fn reload(&mut self, rules: Vec<SafetyRule>)
        ensures
            final(self).spec_rules() == rules@,
    {
        self.rules = rules;
    }

    /// The number of cached rules.
    pub fn len(&self) -> (n: usize)
        ensures
            n == self.spec_rules().len(),
    {
        self.rules.len()
    }

    /// Checks one rule against an intent and the target's semantic tags.
    fn rule_matches(&self, rule: &SafetyRule, intent: &AgentIntent, entity_tags: &Vec<String>) -> (r: bool)
        ensures
            r == rule_fires(*rule, intent, entity_tags@),
    {
        if let Some(agent) = &rule.applies_to_agent {
            if !str_eq(agent.as_str(), "all") && !str_eq(agent.as_str(), intent.agent_id.as_str()) {
                return false;
            }
        }
        let action = lowercase(intent.action.as_str());
        let mut t: usize = 0;
        while t < rule.scope_tags.len()
            invariant
                t <= rule.scope_tags.len(),
                action@ == spec_lowercase(intent.action@),
                forall|j: int|
                    0 <= j < t ==> tag_matches(#[trigger] rule.scope_tags@[j]@, action@, entity_tags@),
            decreases rule.scope_tags.len() - t,
        {
            let tag = rule.scope_tags[t].as_str();
            let matched = if str_starts_with(tag, "action:") {
                let n = tag.unicode_len();
                proof {
                    reveal_strlit("action:");
                }
                let verb = tag.substring_char(7, n);
                str_contains(action.as_str(), verb)
            } else {
                has_tag(entity_tags, tag)
            };
            if !matched {
                assert(!tag_matches(rule.scope_tags@[t as int]@, action@, entity_tags@));
                return false;
            }
            t = t + 1;
        }
        true
    }

    /// The first rule, in order, that fires for the intent, if any.
    pub fn evaluate(&self, intent: &AgentIntent, entity_tags: &Vec<String>) -> (r: Option<RuleMatch>)
        ensures
            match r {
                Some(m) => is_first_match(self.spec_rules(), intent, entity_tags@, m),
                None => none_fires(self.spec_rules(), intent, entity_tags@),
            },
    {
        let mut i: usize = 0;
        while i < self.rules.len()
            invariant
                i <= self.rules.len(),
                forall|j: int| 0 <= j < i ==> !rule_fires(#[trigger] self.rules@[j], intent, entity_tags@),
            decreases self.rules.len() - i,
        {
            let rule = &self.rules[i];
            if self.rule_matches(rule, intent, entity_tags) {
                assert(rule_fires(self.spec_rules()[i as int], intent, entity_tags@));
                return Some(RuleMatch { rule_id: rule.rule_id.clone(), rule_type: rule.rule_type });
            }
            i = i + 1;
        }
        None
    }

    /// The decision a fired rule imposes: blocking rules block with a reason naming
    /// the rule; confirmation rules ask the user.
    pub fn decision_for_match(&self, rm: &RuleMatch) -> (d: GateDecision)
        ensures
            decision_for_rule(d, *rm),
    {
        match rm.rule_type {
            RuleType::AlwaysRequireConfirmation => {
                let mut preview = String::from_str("Safety rule '");
                preview.append(rm.rule_id.as_str());
                preview.append("' requires user confirmation.");
                GateDecision::RequireUserConfirmation { preview }
            },
            _ => {
                let mut reason = String::from_str("Blocked by safety rule '");
                reason.append(rm.rule_id.as_str());
                reason.append("' (type: ");
                reason.append(rule_type_debug(rm.rule_type));
                reason.append(")");
                GateDecision::Block { reason }
            },
        }
    }
}

/// A rule restricted to one agent never fires for another agent ("all" excepted).
pub proof fn rule_for_other_agent_never_fires(rule: SafetyRule, intent: &AgentIntent, entity_tags: Seq<String>)
    requires
        rule.applies_to_agent matches Some(a) && a@ != "all"@ && a@ != intent.agent_id@,
    ensures
        !rule_fires(rule, intent, entity_tags),
{
}

/// A rule without scope tags fires for every intent of an agent it applies to.
pub proof fn untagged_rule_fires_for_its_agents(rule: SafetyRule, intent: &AgentIntent, entity_tags: Seq<String>)
    requires
        rule.scope_tags@.len() == 0,
        agent_filter_passes(rule, intent.agent_id@),
    ensures
        rule_fires(rule, intent, entity_tags),
{
}

/// An "action:" tag matches the verb anywhere inside the lower-cased action: a rule
/// whose scope tags are all "action:" followed by a verb, and whose agent filter lets
/// the agent through, fires exactly when every one of its verbs occurs somewhere in
/// the lower-cased action (so "delete" fires for "delete_file" and "Undelete").
pub proof fn action_tags_match_anywhere_in_action(
    rule: SafetyRule,
    intent: &AgentIntent,
    entity_tags: Seq<String>,
    verbs: Seq<Seq<char>>,
)
    requires
        rule.scope_tags@.len() == verbs.len(),
        forall|i: int| 0 <= i < verbs.len() ==> #[trigger] rule.scope_tags@[i]@ == "action:"@ + verbs[i],
        match rule.applies_to_agent {
            None => true,
            Some(a) => a@ == "all"@ || a@ == intent.agent_id@,
        },
    ensures
        rule_fires(rule, intent, entity_tags) <==> forall|i: int|
            0 <= i < verbs.len() ==> seq_contains(spec_lowercase(intent.action@), #[trigger] verbs[i]),
{
    reveal_strlit("action:");
    let action = spec_lowercase(intent.action@);
    assert forall|i: int| 0 <= i < verbs.len() implies tag_matches(#[trigger] rule.scope_tags@[i]@, action, entity_tags)
        == seq_contains(action, verbs[i]) by {
        let t = rule.scope_tags@[i]@;
        assert(t.subrange(0, 7) =~= "action:"@);
        assert(t.subrange(7, t.len() as int) =~= verbs[i]);
    }
    if forall|i: int| 0 <= i < verbs.len() ==> seq_contains(action, #[trigger] verbs[i]) {
        assert forall|t: int| 0 <= t < rule.scope_tags@.len() implies tag_matches(
            #[trigger] rule.scope_tags@[t]@,
            action,
            entity_tags,
        ) by {
            assert(seq_contains(action, verbs[t]));
        }
    }
    if rule_fires(rule, intent, entity_tags) {
        assert forall|i: int| 0 <= i < verbs.len() implies seq_contains(action, #[trigger] verbs[i]) by {
            assert(tag_matches(rule.scope_tags@[i]@, action, entity_tags));
        }
    }
}

/// A tag that is not an "action:" tag matches only a target that carries exactly that
/// tag: a rule with that single tag, whose agent filter lets the agent through, fires
/// exactly when one of the target's tags equals it.
pub proof fn target_tag_matches_exactly(rule: SafetyRule, intent: &AgentIntent, entity_tags: Seq<String>, tag: Seq<char>)
    requires
        rule.scope_tags@.len() == 1,
        rule.scope_tags@[0]@ == tag,
        !(tag.len() >= 7 && tag.subrange(0, 7) == "action:"@),
        match rule.applies_to_agent {
            None => true,
            Some(a) => a@ == "all"@ || a@ == intent.agent_id@,
        },
    ensures
        rule_fires(rule, intent, entity_tags) <==> exists|k: int| 0 <= k < entity_tags.len() && #[trigger] entity_tags[k]@ == tag,
{
    reveal_strlit("action:");
    assert(tag_matches(rule.scope_tags@[0]@, spec_lowercase(intent.action@), entity_tags)
        == exists|k: int| 0 <= k < entity_tags.len() && #[trigger] entity_tags[k]@ == tag);
}

/// The first firing rule wins: when rule `i` fires and no earlier rule does, the
/// reported rule is rule `i`; and when any rule fires, some rule is reported.
pub proof fn first_firing_rule_wins(rules: Seq<SafetyRule>, intent: &AgentIntent, entity_tags: Seq<String>, i: int, m: RuleMatch)
    requires
        0 <= i < rules.len(),
        rule_fires(rules[i], intent, entity_tags),
        forall|j: int| 0 <= j < i ==> !rule_fires(#[trigger] rules[j], intent, entity_tags),
    ensures
        is_first_match(rules, intent, entity_tags, m) ==> m.rule_id == rules[i].rule_id && m.rule_type == rules[i].rule_type,
        !none_fires(rules, intent, entity_tags),
{
    if is_first_match(rules, intent, entity_tags, m) {
        let k = choose|k: int|
            {
                &&& 0 <= k < rules.len()
                &&& rule_fires(#[trigger] rules[k], intent, entity_tags)
                &&& forall|j: int| 0 <= j < k ==> !rule_fires(#[trigger] rules[j], intent, entity_tags)
                &&& m.rule_id == rules[k].rule_id
                &&& m.rule_type == rules[k].rule_type
            };
        if k < i {
            assert(!rule_fires(rules[k], intent, entity_tags));
        }
        if i < k {
            assert(!rule_fires(rules[i], intent, entity_tags));
        }
    }
}

} // verus!
