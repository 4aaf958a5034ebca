//! The built-in risk policies.
use crate::risk::policy_trait::RiskPolicy;
use crate::text::{
    any_contains_any, contains_any, lowercase, seq_contains, spec_lowercase, str_contains,
    str_contains_any, strs_contain_any,
};
use crate::types::{AgentIntent, SemanticEntity, SystemContext, SCORE_ONE};
use vstd::prelude::*;

verus! {

/// Scores destructive action verbs high, whatever the target.
pub struct DestructiveActionPolicy {
    /// Verbs counted as destructive; matched as substrings of the lower-cased action.
    pub destructive_actions: Vec<String>,
}

/// Scores targets that Guardian cannot classify.
pub struct ScopeAmbiguityPolicy;

/// Scores agents by their registered trust level.
pub struct UntrustedAgentPolicy;

/// Gives the maximum score to targets carrying a critical tag.
pub struct SystemResourcePolicy {
    /// Tags counted as critical; matched as substrings of the target's tags.
    pub critical_tags: Vec<String>,
}

impl DestructiveActionPolicy {
    /// The default verb list.
    pub open spec fn is_default(self) -> bool {
        let d = self.destructive_actions@;
        &&& d.len() == 10
        &&& d[0]@ == "delete"@
        &&& d[1]@ == "overwrite"@
        &&& d[2]@ == "format"@
        &&& d[3]@ == "truncate"@
        &&& d[4]@ == "wipe"@
        &&& d[5]@ == "remove"@
        &&& d[6]@ == "drop"@
        &&& d[7]@ == "purge"@
        &&& d[8]@ == "unlink"@
        &&& d[9]@ == "rmdir"@
    }
}

impl Default for DestructiveActionPolicy {
    fn default() -> (r: Self)
        ensures
            r.is_default(),
    {
        let mut v: Vec<String> = Vec::new();
        v.push(String::from_str("delete"));
        v.push(String::from_str("overwrite"));
        v.push(String::from_str("format"));
        v.push(String::from_str("truncate"));
        v.push(String::from_str("wipe"));
        v.push(String::from_str("remove"));
        v.push(String::from_str("drop"));
        v.push(String::from_str("purge"));
        v.push(String::from_str("unlink"));
        v.push(String::from_str("rmdir"));
        DestructiveActionPolicy { destructive_actions: v }
    }
}

impl SystemResourcePolicy {
    /// The default critical tags.
    pub open spec fn is_default(self) -> bool {
        let c = self.critical_tags@;
        &&& c.len() == 3
        &&& c[0]@ == "role:os_critical"@
        &&& c[1]@ == "role:credential"@
        &&& c[2]@ == "role:system_config"@
    }
}

impl Default for SystemResourcePolicy {
    fn default() -> (r: Self)
        ensures
            r.is_default(),
    {
        let mut v: Vec<String> = Vec::new();
        v.push(String::from_str("role:os_critical"));
        v.push(String::from_str("role:credential"));
        v.push(String::from_str("role:system_config"));
        SystemResourcePolicy { critical_tags: v }
    }
}

impl RiskPolicy for DestructiveActionPolicy {
    open spec fn spec_name(&self) -> Seq<char> {
        "DestructiveActionPolicy"@
    }

    open spec fn spec_weight(&self) -> nat {
        150
    }

    open spec fn spec_score(&self, intent: &AgentIntent, ctx: &SystemContext) -> nat {
        if contains_any(spec_lowercase(intent.action@), self.destructive_actions@) {
            8500
        } else {
            0
        }
    }

    fn name(&self) -> (r: &'static str) {
        "DestructiveActionPolicy"
    }

    fn weight(&self) -> (w: u32) {
        150
    }

    fn evaluate(&self, intent: &AgentIntent, ctx: &SystemContext) -> (s: u32) {
        let action = lowercase(intent.action.as_str());
        if str_contains_any(action.as_str(), &self.destructive_actions) {
            8500
        } else {
            0
        }
    }
}

/// The ambiguity score of a target, by how well Guardian knows it and whether the
/// action writes, deletes or executes: a read of an unknown target scores 0.20 and a
/// mutating action on it 0.55; a barely classified target (confidence below 0.30)
/// scores 0.15, or 0.375 for a mutating action; a partially known one (below 0.60)
/// 0.08, or 0.20; a well-known target 0.05 whatever the action.
pub open spec fn ambiguity_score(entity: Option<SemanticEntity>, mutating: bool) -> nat {
    match entity {
        None => if mutating {
            5500
        } else {
            2000
        },
        Some(e) => if e.confidence_score < 3000 {
            if mutating {
                3750
            } else {
                1500
            }
        } else if e.confidence_score < 6000 {
            if mutating {
                2000
            } else {
                800
            }
        } else {
            500
        },
    }
}

/// A lower-cased action that writes, deletes or executes.
pub open spec fn is_mutating(action: Seq<char>) -> bool {
    ||| seq_contains(action, "delete"@)
    ||| seq_contains(action, "write"@)
    ||| seq_contains(action, "overwrite"@)
    ||| seq_contains(action, "execute"@)
}

/// The cap on the ambiguity score (0.60).
pub const AMBIGUITY_CAP: u32 = 6000;

impl RiskPolicy for ScopeAmbiguityPolicy {
    open spec fn spec_name(&self) -> Seq<char> {
        "ScopeAmbiguityPolicy"@
    }

    open spec fn spec_weight(&self) -> nat {
        100
    }

    open spec fn spec_score(&self, intent: &AgentIntent, ctx: &SystemContext) -> nat {
        ambiguity_score(ctx.semantic_entity, is_mutating(spec_lowercase(intent.action@)))
    }

    fn name(&self) -> (r: &'static str) {
        "ScopeAmbiguityPolicy"
    }

    fn weight(&self) -> (w: u32) {
        100
    }

    fn evaluate(&self, intent: &AgentIntent, ctx: &SystemContext) -> (s: u32) {
        let action = lowercase(intent.action.as_str());
        let a = action.as_str();
        let mutating = str_contains(a, "delete") || str_contains(a, "write")
            || str_contains(a, "overwrite") || str_contains(a, "execute");
        match &ctx.semantic_entity {
            None => if mutating {
                5500
            } else {
                2000
            },
            Some(e) => if e.confidence_score < 3000 {
                if mutating {
                    3750
                } else {
                    1500
                }
            } else if e.confidence_score < 6000 {
                if mutating {
                    2000
                } else {
                    800
                }
            } else {
                500
            },
        }
    }
}

/// The raw score for a trust level (None = unregistered).
pub open spec fn trust_score(level: Option<i32>) -> nat {
    match level {
        None => 9000,
        Some(t) => if t <= 20 {
            7500
        } else if t <= 50 {
            4500
        } else if t <= 80 {
            1500
        } else {
            500
        },
    }
}

impl RiskPolicy for UntrustedAgentPolicy {
    open spec fn spec_name(&self) -> Seq<char> {
        "UntrustedAgentPolicy"@
    }

    open spec fn spec_weight(&self) -> nat {
        120
    }

    open spec fn spec_score(&self, intent: &AgentIntent, ctx: &SystemContext) -> nat {
        trust_score(ctx.agent_trust_level)
    }

    fn name(&self) -> (r: &'static str) {
        "UntrustedAgentPolicy"
    }

    fn weight(&self) -> (w: u32) {
        120
    }

    fn evaluate(&self, intent: &AgentIntent, ctx: &SystemContext) -> (s: u32) {
        match ctx.agent_trust_level {
            None => 9000,
            Some(t) => if t <= 20 {
                7500
            } else if t <= 50 {
                4500
            } else if t <= 80 {
                1500
            } else {
                500
            },
        }
    }
}

impl RiskPolicy for SystemResourcePolicy {
    open spec fn spec_name(&self) -> Seq<char> {
        "SystemResourcePolicy"@
    }

    open spec fn spec_weight(&self) -> nat {
        200
    }

    open spec fn spec_score(&self, intent: &AgentIntent, ctx: &SystemContext) -> nat {
        match ctx.semantic_entity {
            Some(e) => if any_contains_any(e.semantic_tags@, self.critical_tags@) {
                10000
            } else {
                0
            },
            None => 0,
        }
    }

    fn name(&self) -> (r: &'static str) {
        "SystemResourcePolicy"
    }

    fn weight(&self) -> (w: u32) {
        200
    }

    fn evaluate(&self, intent: &AgentIntent, ctx: &SystemContext) -> (s: u32) {
        match &ctx.semantic_entity {
            Some(e) => if strs_contain_any(&e.semantic_tags, &self.critical_tags) {
                SCORE_ONE
            } else {
                0
            },
            None => 0,
        }
    }
}

/// A policy registered with the scoring engine.
pub enum RegisteredPolicy {
    DestructiveAction(DestructiveActionPolicy),
    ScopeAmbiguity(ScopeAmbiguityPolicy),
    UntrustedAgent(UntrustedAgentPolicy),
    SystemResource(SystemResourcePolicy),
}

impl RiskPolicy for RegisteredPolicy {
    open spec fn spec_name(&self) -> Seq<char> {
        match self {
            RegisteredPolicy::DestructiveAction(p) => p.spec_name(),
            RegisteredPolicy::ScopeAmbiguity(p) => p.spec_name(),
            RegisteredPolicy::UntrustedAgent(p) => p.spec_name(),
            RegisteredPolicy::SystemResource(p) => p.spec_name(),
        }
    }

    open spec fn spec_weight(&self) -> nat {
        match self {
            RegisteredPolicy::DestructiveAction(p) => p.spec_weight(),
            RegisteredPolicy::ScopeAmbiguity(p) => p.spec_weight(),
            RegisteredPolicy::UntrustedAgent(p) => p.spec_weight(),
            RegisteredPolicy::SystemResource(p) => p.spec_weight(),
        }
    }

    open spec fn spec_score(&self, intent: &AgentIntent, ctx: &SystemContext) -> nat {
        match self {
            RegisteredPolicy::DestructiveAction(p) => p.spec_score(intent, ctx),
            RegisteredPolicy::ScopeAmbiguity(p) => p.spec_score(intent, ctx),
            RegisteredPolicy::UntrustedAgent(p) => p.spec_score(intent, ctx),
            RegisteredPolicy::SystemResource(p) => p.spec_score(intent, ctx),
        }
    }

    fn name(&self) -> (r: &'static str) {
        match self {
            RegisteredPolicy::DestructiveAction(p) => p.name(),
            RegisteredPolicy::ScopeAmbiguity(p) => p.name(),
            RegisteredPolicy::UntrustedAgent(p) => p.name(),
            RegisteredPolicy::SystemResource(p) => p.name(),
        }
    }

    fn weight(&self) -> (w: u32) {
        match self {
            RegisteredPolicy::DestructiveAction(p) => p.weight(),
            RegisteredPolicy::ScopeAmbiguity(p) => p.weight(),
            RegisteredPolicy::UntrustedAgent(p) => p.weight(),
            RegisteredPolicy::SystemResource(p) => p.weight(),
        }
    }

    fn evaluate(&self, intent: &AgentIntent, ctx: &SystemContext) -> (s: u32) {
        match self {
            RegisteredPolicy::DestructiveAction(p) => p.evaluate(intent, ctx),
            RegisteredPolicy::ScopeAmbiguity(p) => p.evaluate(intent, ctx),
            RegisteredPolicy::UntrustedAgent(p) => p.evaluate(intent, ctx),
            RegisteredPolicy::SystemResource(p) => p.evaluate(intent, ctx),
        }
    }
}

/// The ambiguity score never exceeds 0.60, whatever the intent and the context.
pub proof fn ambiguity_is_capped(p: ScopeAmbiguityPolicy, intent: &AgentIntent, ctx: &SystemContext)
    ensures
        p.spec_score(intent, ctx) <= AMBIGUITY_CAP,
{
}

/// The destructive-action score depends on the declared verb alone: the same verb
/// scores the same on any target, in any context.
pub proof fn destructive_score_ignores_target(
    p: DestructiveActionPolicy,
    a: &AgentIntent,
    b: &AgentIntent,
    ctx_a: &SystemContext,
    ctx_b: &SystemContext,
)
    requires
        a.action@ == b.action@,
    ensures
        p.spec_score(a, ctx_a) == p.spec_score(b, ctx_b),
{
}

/// An unregistered agent is treated as the least trusted: no trust level scores higher.
pub proof fn unregistered_agent_is_least_trusted(level: i32)
    ensures
        trust_score(Some(level)) <= trust_score(None),
{
}

/// Every listed verb counts: an action whose lower-cased text contains any verb of the
/// list, wherever in the list and wherever in the action, scores 0.85; an action that
/// contains none scores 0.
pub proof fn destructive_verb_anywhere_scores(p: DestructiveActionPolicy, intent: &AgentIntent, ctx: &SystemContext)
    ensures
        p.spec_score(intent, ctx) == (if exists|j: int|
            0 <= j < p.destructive_actions@.len() && seq_contains(
                spec_lowercase(intent.action@),
                #[trigger] p.destructive_actions@[j]@,
            ) {
            8500nat
        } else {
            0nat
        }),
{
}

/// A listed verb inside the lower-cased action always scores 0.85.
pub proof fn listed_verb_scores_high(p: DestructiveActionPolicy, intent: &AgentIntent, ctx: &SystemContext, j: int)
    requires
        0 <= j < p.destructive_actions@.len(),
        seq_contains(spec_lowercase(intent.action@), p.destructive_actions@[j]@),
    ensures
        p.spec_score(intent, ctx) == 8500,
{
}

/// Every critical tag counts: a target one of whose tags contains any critical tag,
/// wherever in the list, scores 1.0; any other target, or no known target, scores 0.
pub proof fn critical_tag_anywhere_scores(p: SystemResourcePolicy, intent: &AgentIntent, ctx: &SystemContext)
    ensures
        p.spec_score(intent, ctx) == (if exists|i: int, j: int|
            ctx.semantic_entity is Some && 0 <= i < ctx.semantic_entity->0.semantic_tags@.len() && 0 <= j
                < p.critical_tags@.len() && seq_contains(
                #[trigger] ctx.semantic_entity->0.semantic_tags@[i]@,
                #[trigger] p.critical_tags@[j]@,
            ) {
            10000nat
        } else {
            0nat
        }),
{
    if let Some(e) = ctx.semantic_entity {
        if exists|i: int, j: int|
            0 <= i < e.semantic_tags@.len() && 0 <= j < p.critical_tags@.len() && seq_contains(
                #[trigger] e.semantic_tags@[i]@,
                #[trigger] p.critical_tags@[j]@,
            ) {
            let (i, j) = choose|i: int, j: int|
                0 <= i < e.semantic_tags@.len() && 0 <= j < p.critical_tags@.len() && seq_contains(
                    #[trigger] e.semantic_tags@[i]@,
                    #[trigger] p.critical_tags@[j]@,
                );
            assert(contains_any(e.semantic_tags@[i]@, p.critical_tags@));
        }
        if any_contains_any(e.semantic_tags@, p.critical_tags@) {
            let i = choose|i: int| 0 <= i < e.semantic_tags@.len() && contains_any(#[trigger] e.semantic_tags@[i]@, p.critical_tags@);
            let j = choose|j: int| 0 <= j < p.critical_tags@.len() && seq_contains(e.semantic_tags@[i]@, #[trigger] p.critical_tags@[j]@);
            assert(seq_contains(e.semantic_tags@[i]@, p.critical_tags@[j]@));
        }
    }
}

/// A target tag containing a critical tag always scores 1.0.
pub proof fn critical_tag_scores_full(p: SystemResourcePolicy, intent: &AgentIntent, ctx: &SystemContext, i: int, j: int)
    requires
        ctx.semantic_entity is Some,
        0 <= i < ctx.semantic_entity->0.semantic_tags@.len(),
        0 <= j < p.critical_tags@.len(),
        seq_contains(ctx.semantic_entity->0.semantic_tags@[i]@, p.critical_tags@[j]@),
    ensures
        p.spec_score(intent, ctx) == 10000,
{
    critical_tag_anywhere_scores(p, intent, ctx);
}

/// A lower trust level never scores lower: the score falls as trust rises.
pub proof fn more_trust_never_scores_higher(low: i32, high: i32)
    requires
        low <= high,
    ensures
        trust_score(Some(high)) <= trust_score(Some(low)),
{
}

/// Ambiguity falls as Guardian knows the target better, and a mutating action never
/// scores below a read of the same target.
pub proof fn ambiguity_falls_with_knowledge(e1: SemanticEntity, e2: SemanticEntity, mutating: bool)
    requires
        e1.confidence_score <= e2.confidence_score,
    ensures
        ambiguity_score(Some(e2), mutating) <= ambiguity_score(Some(e1), mutating),
        ambiguity_score(Some(e1), mutating) <= ambiguity_score(None, mutating),
        ambiguity_score(Some(e1), false) <= ambiguity_score(Some(e1), true),
        ambiguity_score(None, false) <= ambiguity_score(None, true),
{
}

} // verus!
