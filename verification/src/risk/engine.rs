//! Combines the registered policies into one assessment and a gate decision.
use crate::config::GateConfig;
use crate::risk::policies::RegisteredPolicy;
use crate::risk::policy_trait::RiskPolicy;
use crate::text::{fixed2, percent0, push_fixed2, push_percent0};
use crate::types::{AgentIntent, GateDecision, RiskAssessment, SystemContext, SCORE_ONE};
use vstd::prelude::*;

verus! {

/// A raw score scaled by a weight in hundredths, capped at 1.0.
pub open spec fn weighted(raw: nat, weight: nat) -> nat {
    let w = raw * weight / 100;
    if w > 10000 {
        10000
    } else {
        w
    }
}

/// The weighted score of one policy for an intent.
pub open spec fn policy_weighted(p: RegisteredPolicy, intent: &AgentIntent, ctx: &SystemContext) -> nat {
    weighted(p.spec_score(intent, ctx), p.spec_weight())
}

/// The largest weighted score of the policies (0 when there are none).
pub open spec fn weighted_max(ps: Seq<RegisteredPolicy>, intent: &AgentIntent, ctx: &SystemContext) -> nat
    decreases ps.len(),
{
    if ps.len() == 0 {
        0
    } else {
        let m = weighted_max(ps.drop_last(), intent, ctx);
        let w = policy_weighted(ps.last(), intent, ctx);
        if w > m {
            w
        } else {
            m
        }
    }
}

/// The label of a triggered policy: its name, `=`, and its raw score to two decimals.
pub open spec fn trigger_label(name: Seq<char>, raw: nat) -> Seq<char> {
    name + "="@ + fixed2(raw)
}

/// The labels of the policies whose raw score exceeds 0.05, in registration order.
pub open spec fn triggered(ps: Seq<RegisteredPolicy>, intent: &AgentIntent, ctx: &SystemContext) -> Seq<Seq<char>>
    decreases ps.len(),
{
    if ps.len() == 0 {
        Seq::empty()
    } else {
        let t = triggered(ps.drop_last(), intent, ctx);
        let raw = ps.last().spec_score(intent, ctx);
        if raw > 500 {
            t.push(trigger_label(ps.last().spec_name(), raw))
        } else {
            t
        }
    }
}

/// The reason given when a score reaches the block threshold.
pub open spec fn block_reason(score: nat, threshold: nat, intent: &AgentIntent) -> Seq<char> {
    "Risk score "@ + fixed2(score) + " ≥ block threshold "@ + fixed2(threshold) + ". '"@
        + intent.action@ + "' on '"@ + intent.target_uri@ + "' denied."@
}

/// The preview shown when a score asks for the user's confirmation.
pub open spec fn confirm_preview(score: nat, intent: &AgentIntent) -> Seq<char> {
    "Agent '"@ + intent.agent_id@ + "' wants to '"@ + intent.action@ + "' on '"@
        + intent.target_uri@ + "'.\nRisk: "@ + percent0(score) + "%.\nAllow?"@
}

/// `d` is the decision the thresholds give a score: at or above the block threshold
/// it blocks; at or above the confirm threshold, or the log threshold, it asks the
/// user; at or above the allow threshold it allows with a snapshot; below it, it
/// allows silently.
pub open spec fn decision_for_score(d: GateDecision, config: GateConfig, score: nat, intent: &AgentIntent) -> bool {
    if score >= config.block_threshold {
        d matches GateDecision::Block { reason } && reason@ == block_reason(
            score,
            config.block_threshold as nat,
            intent,
        )
    } else if score >= config.confirm_threshold || score >= config.log_threshold {
        d matches GateDecision::RequireUserConfirmation { preview } && preview@
            == confirm_preview(score, intent)
    } else if score >= config.allow_threshold {
        d is AllowWithLog
    } else {
        d is Allow
    }
}

/// How restrictive a decision is: Allow < AllowWithLog < confirmation < Block.
pub open spec fn severity(d: GateDecision) -> nat {
    match d {
        GateDecision::Allow => 0,
        GateDecision::AllowWithLog => 1,
        GateDecision::RequireUserConfirmation { .. } => 2,
        GateDecision::Block { .. } => 3,
    }
}

/// The texts of a list of strings.
pub open spec fn labels(v: Seq<String>) -> Seq<Seq<char>> {
    v.map_values(|s: String| s@)
}

/// Holds the registered policies and the decision thresholds.
pub struct RiskScoringEngine {
    policies: Vec<RegisteredPolicy>,
    config: GateConfig,
}

impl RiskScoringEngine {
    /// The registered policies, in registration order.
    pub closed spec fn spec_policies(&self) -> Seq<RegisteredPolicy> {
        self.policies@
    }

    /// The thresholds the engine maps scores with.
    pub closed spec fn spec_config(&self) -> GateConfig {
        self.config
    }

    /// An engine with no policies.
    pub fn new(config: GateConfig) -> (r: Self)
        ensures
            r.spec_policies() == Seq::<RegisteredPolicy>::empty(),
            r.spec_config() == config,
    {
        RiskScoringEngine { policies: Vec::new(), config }
    }

    /// Adds a policy after the ones already registered.
    pub fn register_policy(&mut self, policy: RegisteredPolicy)
        ensures
            final(self).spec_policies() == old(self).spec_policies().push(policy),
            final(self).spec_config() == old(self).spec_config(),
    {
        self.policies.push(policy);
    }

    /// Scores an intent: the weighted maximum (not the sum) of all policies, the
    /// labels of the policies that fired, and the decision the thresholds give.
    pub fn evaluate(&self, intent: &AgentIntent, ctx: &SystemContext) -> (r: RiskAssessment)
        ensures
            r.score as nat == weighted_max(self.spec_policies(), intent, ctx),
            labels(r.triggered_policies@) == triggered(self.spec_policies(), intent, ctx),
            decision_for_score(r.recommended_action, self.spec_config(), r.score as nat, intent),
    {
        let mut triggered_labels: Vec<String> = Vec::new();
        let mut weighted_max_score: u32 = 0;
        let mut i: usize = 0;
        while i < self.policies.len()
            invariant
                i <= self.policies.len(),
                weighted_max_score as nat == weighted_max(self.policies@.subrange(0, i as int), intent, ctx),
                weighted_max_score <= SCORE_ONE,
                labels(triggered_labels@) == triggered(self.policies@.subrange(0, i as int), intent, ctx),
            decreases self.policies.len() - i,
        {
            let policy = &self.policies[i];
            let raw = policy.evaluate(intent, ctx);
            let ghost prefix = self.policies@.subrange(0, i as int);
            let ghost next = self.policies@.subrange(0, i + 1);
            assert(next.drop_last() == prefix);
            assert(next.last() == self.policies@[i as int]);
            if raw > 500 {
                let mut label = String::from_str(policy.name());
                label.append("=");
                push_fixed2(&mut label, raw);
                let ghost before = triggered_labels@;
                triggered_labels.push(label);
                assert(labels(triggered_labels@) =~= labels(before).push(label@));
            }
            let w = policy.weight();
            assert(raw as u64 * w as u64 <= 10000 * 0xffff_ffffu64) by (nonlinear_arith)
                requires
                    raw <= 10000,
            ;
            let scaled: u64 = raw as u64 * w as u64 / 100;
            let capped: u32 = if scaled > SCORE_ONE as u64 {
                SCORE_ONE
            } else {
                scaled as u32
            };
            if capped > weighted_max_score {
                weighted_max_score = capped;
            }
            i = i + 1;
        }
        assert(self.policies@.subrange(0, self.policies.len() as int) == self.policies@);
        let recommended_action = self.map_score_to_decision(weighted_max_score, intent);
        RiskAssessment {
            score: weighted_max_score,
            triggered_policies: triggered_labels,
            recommended_action,
        }
    }

    /// Maps a score to a decision with the configured thresholds, checked from
    /// the most restrictive down.
    pub fn map_score_to_decision(&self, score: u32, intent: &AgentIntent) -> (d: GateDecision)
        ensures
            decision_for_score(d, self.spec_config(), score as nat, intent),
    {
        if score >= self.config.block_threshold {
            let mut reason = String::from_str("Risk score ");
            push_fixed2(&mut reason, score);
            reason.append(" ≥ block threshold ");
            push_fixed2(&mut reason, self.config.block_threshold);
            reason.append(". '");
            reason.append(intent.action.as_str());
            reason.append("' on '");
            reason.append(intent.target_uri.as_str());
            reason.append("' denied.");
            GateDecision::Block { reason }
        } else if score >= self.config.confirm_threshold || score >= self.config.log_threshold {
            let mut preview = String::from_str("Agent '");
            preview.append(intent.agent_id.as_str());
            preview.append("' wants to '");
            preview.append(intent.action.as_str());
            preview.append("' on '");
            preview.append(intent.target_uri.as_str());
            preview.append("'.\nRisk: ");
            push_percent0(&mut preview, score);
            preview.append("%.\nAllow?");
            GateDecision::RequireUserConfirmation { preview }
        } else if score >= self.config.allow_threshold {
            GateDecision::AllowWithLog
        } else {
            GateDecision::Allow
        }
    }
}

/// The final score is the weighted maximum of the policies: no policy's weighted
/// score exceeds it, it never exceeds 1.0, and unless it is 0 some policy attains it.
pub proof fn score_is_weighted_maximum(ps: Seq<RegisteredPolicy>, intent: &AgentIntent, ctx: &SystemContext)
    ensures
        forall|i: int| 0 <= i < ps.len() ==> policy_weighted(#[trigger] ps[i], intent, ctx) <= weighted_max(ps, intent, ctx),
        weighted_max(ps, intent, ctx) <= 10000,
        weighted_max(ps, intent, ctx) == 0 || exists|i: int|
            0 <= i < ps.len() && policy_weighted(#[trigger] ps[i], intent, ctx) == weighted_max(ps, intent, ctx),
    decreases ps.len(),
{
    if ps.len() > 0 {
        let init = ps.drop_last();
        score_is_weighted_maximum(init, intent, ctx);
        assert forall|i: int| 0 <= i < ps.len() implies policy_weighted(#[trigger] ps[i], intent, ctx) <= weighted_max(ps, intent, ctx) by {
            if i < ps.len() - 1 {
                assert(ps[i] == init[i]);
            }
        }
        if weighted_max(ps, intent, ctx) != 0 {
            if policy_weighted(ps.last(), intent, ctx) > weighted_max(init, intent, ctx) {
                assert(policy_weighted(ps[ps.len() - 1], intent, ctx) == weighted_max(ps, intent, ctx));
            } else {
                let j = choose|j: int| 0 <= j < init.len() && policy_weighted(#[trigger] init[j], intent, ctx) == weighted_max(init, intent, ctx);
                assert(ps[j] == init[j]);
            }
        }
    }
}

/// Registering another policy never lowers the score of any intent.
pub proof fn more_policies_never_lower_score(ps: Seq<RegisteredPolicy>, p: RegisteredPolicy, intent: &AgentIntent, ctx: &SystemContext)
    ensures
        weighted_max(ps, intent, ctx) <= weighted_max(ps.push(p), intent, ctx),
{
    assert(ps.push(p).drop_last() == ps);
}

/// A higher score never yields a less restrictive decision, whatever the thresholds.
pub proof fn decision_severity_monotone(
    config: GateConfig,
    intent: &AgentIntent,
    low: nat,
    high: nat,
    d_low: GateDecision,
    d_high: GateDecision,
)
    requires
        low <= high,
        decision_for_score(d_low, config, low, intent),
        decision_for_score(d_high, config, high, intent),
    ensures
        severity(d_low) <= severity(d_high),
{
}

/// A decision blocks exactly when the score reaches the block threshold, and allows
/// silently exactly when the score is below every threshold.
pub proof fn block_exactly_at_threshold(config: GateConfig, intent: &AgentIntent, score: nat, d: GateDecision)
    requires
        decision_for_score(d, config, score, intent),
    ensures
        d is Block <==> score >= config.block_threshold,
        d is Allow <==> (score < config.allow_threshold && score < config.log_threshold
            && score < config.confirm_threshold && score < config.block_threshold),
{
}

/// The labels name exactly the policies whose raw score exceeds 0.05: each such policy
/// is labelled with its name and raw score, and every label is such a policy's.
pub proof fn labels_are_the_policies_that_fired(ps: Seq<RegisteredPolicy>, intent: &AgentIntent, ctx: &SystemContext)
    ensures
        forall|i: int| 0 <= i < ps.len() && (#[trigger] ps[i]).spec_score(intent, ctx) > 500 ==> exists|k: int|
            0 <= k < triggered(ps, intent, ctx).len() && triggered(ps, intent, ctx)[k] == ps[i].spec_name() + "="@
                + fixed2(ps[i].spec_score(intent, ctx)),
        forall|k: int| 0 <= k < triggered(ps, intent, ctx).len() ==> exists|i: int|
            0 <= i < ps.len() && ps[i].spec_score(intent, ctx) > 500 && ps[i].spec_name() + "="@ + fixed2(
                ps[i].spec_score(intent, ctx),
            ) == #[trigger] triggered(ps, intent, ctx)[k],
        triggered(ps, intent, ctx).len() <= ps.len(),
    decreases ps.len(),
{
    if ps.len() > 0 {
        let init = ps.drop_last();
        labels_are_the_policies_that_fired(init, intent, ctx);
        let t0 = triggered(init, intent, ctx);
        let t = triggered(ps, intent, ctx);
        assert forall|i: int| 0 <= i < ps.len() && (#[trigger] ps[i]).spec_score(intent, ctx) > 500 implies exists|k: int|
            0 <= k < t.len() && t[k] == ps[i].spec_name() + "="@ + fixed2(ps[i].spec_score(intent, ctx)) by {
            if i < init.len() {
                assert(init[i] == ps[i]);
                let k = choose|k: int| 0 <= k < t0.len() && t0[k] == init[i].spec_name() + "="@ + fixed2(init[i].spec_score(intent, ctx));
                assert(t[k] == t0[k]);
            } else {
                assert(t[t0.len() as int] == trigger_label(ps.last().spec_name(), ps.last().spec_score(intent, ctx)));
            }
        }
        assert forall|k: int| 0 <= k < t.len() implies exists|i: int|
            0 <= i < ps.len() && ps[i].spec_score(intent, ctx) > 500 && ps[i].spec_name() + "="@ + fixed2(
                ps[i].spec_score(intent, ctx),
            ) == #[trigger] t[k] by {
            if k < t0.len() {
                assert(t[k] == t0[k]);
                let i = choose|i: int|
                    0 <= i < init.len() && init[i].spec_score(intent, ctx) > 500 && init[i].spec_name() + "="@ + fixed2(
                        init[i].spec_score(intent, ctx),
                    ) == #[trigger] t0[k];
                assert(init[i] == ps[i]);
            } else {
                assert(ps[ps.len() - 1] == ps.last());
            }
        }
    }
}

} // verus!
