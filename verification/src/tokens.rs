//! Redeeming permission tokens: a token works once, for its own agent, before it expires.
use crate::text::str_eq;
use vstd::prelude::*;

verus! {

/// The stored state of a permission token.
#[derive(Debug, Clone)]
pub struct TokenRow {
    pub token_id: String,
    pub agent_id: String,
    pub expires_at: i64,
    pub is_used: bool,
}

/// The token may be redeemed now by this agent: it is its own, unused, and unexpired.
pub open spec fn redeemable(row: TokenRow, agent_id: Seq<char>, now: i64) -> bool {
    &&& row.agent_id@ == agent_id
    &&& !row.is_used
    &&& row.expires_at > now
}

/// Redeems a token at time `now` for an agent: when it is redeemable it is marked
/// used and `true` is returned; otherwise it is left as it was and `false` is returned.
pub fn consume(row: &mut TokenRow, agent_id: &str, now: i64) -> (ok: bool)
    ensures
        ok == redeemable(*old(row), agent_id@, now),
        ok ==> final(row).is_used && final(row).token_id == old(row).token_id && final(row).agent_id == old(row).agent_id
            && final(row).expires_at == old(row).expires_at,
        !ok ==> *final(row) == *old(row),
{
    if str_eq(row.agent_id.as_str(), agent_id) && !row.is_used && row.expires_at > now {
        row.is_used = true;
        true
    } else {
        false
    }
}

/// A token that was redeemed once can never be redeemed again, by any agent, at any time.
pub proof fn consumed_token_never_redeems_again(before: TokenRow, after: TokenRow, agent_id: Seq<char>, now: i64, other_agent: Seq<char>, later: i64)
    requires
        redeemable(before, agent_id, now),
        after.is_used,
    ensures
        !redeemable(after, other_agent, later),
{
}

/// A freshly issued token is redeemable by its own agent until it expires, and by no other agent.
pub proof fn fresh_token_redeemable_until_expiry(row: TokenRow, agent_id: Seq<char>, now: i64)
    requires
        !row.is_used,
    ensures
        redeemable(row, agent_id, now) <==> (row.agent_id@ == agent_id && now < row.expires_at),
{
}

} // verus!
