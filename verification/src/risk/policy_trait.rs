//! The pluggable risk-policy interface.
use crate::types::{AgentIntent, SystemContext, SCORE_ONE};
use vstd::prelude::*;

verus! {

/// One composable risk dimension. A policy reads the intent and the prepared
/// context and returns a raw score in ten-thousandths (0 = no risk, 10000 = maximum).
pub trait RiskPolicy {
    /// The policy's name, as used in triggered-policy labels.
    spec fn spec_name(&self) -> Seq<char>;

    /// The policy's weight in hundredths (100 = 1.0).
    spec fn spec_weight(&self) -> nat;

    /// The raw score the policy gives an intent in a context.
    spec fn spec_score(&self, intent: &AgentIntent, ctx: &SystemContext) -> nat;

    fn name(&self) -> (r: &'static str)
        ensures
            r@ == self.spec_name(),
    ;

    fn weight(&self) -> (w: u32)
        ensures
            w as nat == self.spec_weight(),
    ;

    fn evaluate(&self, intent: &AgentIntent, ctx: &SystemContext) -> (s: u32)
        ensures
            s as nat == self.spec_score(intent, ctx),
            s <= SCORE_ONE,
    ;
}

} // verus!
