//! Recognising agents: by the name of a running process, and by the source of an event.
use crate::text::{lowercase, seq_contains, seq_starts_with, spec_lowercase, str_contains, str_starts_with};
use crate::notification::texts;
use vstd::prelude::*;

verus! {

/// The built-in table of known agents: a fragment of a process name, and the agent id
/// that processes with such a name belong to. More rows come from the configuration.
pub open spec fn agent_patterns() -> Seq<(Seq<char>, Seq<char>)> {
    seq![("openclaw"@, "openclaw"@)]
}

/// The texts of a list of (fragment, agent id) rows.
pub open spec fn pattern_texts(rows: Seq<(String, String)>) -> Seq<(Seq<char>, Seq<char>)> {
    rows.map_values(|row: (String, String)| (row.0@, row.1@))
}

/// The agent ids, in table order, whose fragment occurs in the lower-cased name.
pub open spec fn agents_matching(name: Seq<char>, patterns: Seq<(Seq<char>, Seq<char>)>) -> Seq<Seq<char>>
    decreases patterns.len(),
{
    if patterns.len() == 0 {
        Seq::empty()
    } else {
        let rest = agents_matching(name, patterns.drop_last());
        if seq_contains(name, patterns.last().0) {
            rest.push(patterns.last().1)
        } else {
            rest
        }
    }
}

/// The built-in rows followed by the configured ones.
fn known_patterns(extra: &Vec<(String, String)>) -> (r: Vec<(String, String)>)
    ensures
        pattern_texts(r@) == agent_patterns() + pattern_texts(extra@),
{
    let mut r: Vec<(String, String)> = Vec::new();
    r.push((String::from_str("openclaw"), String::from_str("openclaw")));
    let mut i: usize = 0;
    while i < extra.len()
        invariant
            i <= extra.len(),
            pattern_texts(r@) == agent_patterns() + pattern_texts(extra@.subrange(0, i as int)),
        decreases extra.len() - i,
    {
        let row = (extra[i].0.clone(), extra[i].1.clone());
        let ghost before = r@;
        r.push(row);
        assert(pattern_texts(r@) =~= pattern_texts(before).push((extra@[i as int].0@, extra@[i as int].1@)));
        assert(pattern_texts(extra@.subrange(0, i + 1)) =~= pattern_texts(extra@.subrange(0, i as int)).push(
            (extra@[i as int].0@, extra@[i as int].1@),
        ));
        i = i + 1;
    }
    assert(extra@.subrange(0, extra.len() as int) =~= extra@);
    r
}

/// The agents a process belongs to, by its name, matched case-insensitively against
/// the built-in table of known agents and then the configured rows; the process is
/// registered under each of them.
pub fn agents_for_process(process_name: &str, extra: &Vec<(String, String)>) -> (r: Vec<String>)
    ensures
        texts(r@) == agents_matching(spec_lowercase(process_name@), agent_patterns() + pattern_texts(extra@)),
{
    let name = lowercase(process_name);
    let patterns = known_patterns(extra);
    let ghost pats = pattern_texts(patterns@);
    let mut r: Vec<String> = Vec::new();
    let mut i: usize = 0;
    while i < patterns.len()
        invariant
            i <= patterns.len(),
            pats == pattern_texts(patterns@),
            texts(r@) == agents_matching(name@, pats.subrange(0, i as int)),
        decreases patterns.len() - i,
    {
        let ghost pre = pats.subrange(0, i as int);
        let ghost next = pats.subrange(0, i + 1);
        assert(next.drop_last() =~= pre);
        assert(next.last() == (patterns@[i as int].0@, patterns@[i as int].1@));
        if str_contains(name.as_str(), patterns[i].0.as_str()) {
            let ghost before = r@;
            r.push(patterns[i].1.clone());
            assert(texts(r@) =~= texts(before).push(patterns@[i as int].1@));
        }
        i = i + 1;
    }
    assert(pats.subrange(0, patterns.len() as int) =~= pats);
    r
}

/// The prefix of the sources of events that agents announce through the gateway.
pub open spec fn intent_source_prefix() -> Seq<char> {
    "agent_intent."@
}

/// The agent an event came from, when it is an agent's announced intent
/// ("agent_intent.<agent>"): only those events count towards the anomaly check.
pub fn intent_agent(source: &str) -> (r: Option<String>)
    ensures
        r is Some <==> seq_starts_with(source@, intent_source_prefix()),
        r matches Some(a) ==> a@ == source@.skip(13),
{
    if str_starts_with(source, "agent_intent.") {
        proof {
            reveal_strlit("agent_intent.");
        }
        let n = source.unicode_len();
        Some(String::from_str(source.substring_char(13, n)))
    } else {
        None
    }
}

/// A process belongs to every agent whose fragment occurs in its lower-cased name, and
/// to no other: each matching row gives its agent id, and each id given comes from a
/// row whose fragment occurs.
pub proof fn agents_are_the_matching_rows(name: Seq<char>, patterns: Seq<(Seq<char>, Seq<char>)>)
    ensures
        forall|k: int| 0 <= k < patterns.len() && seq_contains(name, (#[trigger] patterns[k]).0) ==> exists|j: int|
            0 <= j < agents_matching(name, patterns).len() && agents_matching(name, patterns)[j] == patterns[k].1,
        forall|j: int| 0 <= j < agents_matching(name, patterns).len() ==> exists|k: int|
            0 <= k < patterns.len() && seq_contains(name, patterns[k].0) && patterns[k].1
                == #[trigger] agents_matching(name, patterns)[j],
    decreases patterns.len(),
{
    if patterns.len() > 0 {
        let init = patterns.drop_last();
        agents_are_the_matching_rows(name, init);
        let rest = agents_matching(name, init);
        let all = agents_matching(name, patterns);
        assert forall|k: int| 0 <= k < patterns.len() && seq_contains(name, (#[trigger] patterns[k]).0) implies exists|j: int|
            0 <= j < all.len() && all[j] == patterns[k].1 by {
            if k < init.len() {
                assert(init[k] == patterns[k]);
                let j = choose|j: int| 0 <= j < rest.len() && rest[j] == init[k].1;
                assert(all[j] == rest[j]);
            } else {
                assert(all[rest.len() as int] == patterns[k].1);
            }
        }
        assert forall|j: int| 0 <= j < all.len() implies exists|k: int|
            0 <= k < patterns.len() && seq_contains(name, patterns[k].0) && patterns[k].1 == #[trigger] all[j] by {
            if j < rest.len() {
                assert(all[j] == rest[j]);
                let k = choose|k: int| 0 <= k < init.len() && seq_contains(name, init[k].0) && init[k].1 == #[trigger] rest[j];
                assert(init[k] == patterns[k]);
            } else {
                assert(patterns[patterns.len() - 1].1 == all[j]);
            }
        }
    }
}

} // verus!
