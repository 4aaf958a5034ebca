//! The kill switch: freezes every process of an agent, and thaws them again.
use crate::kill_switch::os_suspend::{receipt_for, signal_process};
use crate::kill_switch::signal::{SignalKind, SignalReceipt};
use crate::kill_switch::process_tree::{pids_of, set_of, ProcessTree};
use crate::notification::{str_texts, NotificationLevel, UiNotification};
use crate::text::{debug_list, decimal, push_debug_list, push_decimal};
use vstd::prelude::*;

verus! {

/// The list without the numbers of a set, the rest kept in order.
pub open spec fn without_all(s: Seq<u32>, gone: Set<u32>) -> Seq<u32>
    decreases s.len(),
{
    if s.len() == 0 {
        Seq::empty()
    } else if gone.contains(s.last()) {
        without_all(s.drop_last(), gone)
    } else {
        without_all(s.drop_last(), gone).push(s.last())
    }
}

/// The title of the notification sent when an agent is frozen.
pub open spec fn stop_title(agent_id: Seq<char>) -> Seq<char> {
    "🛑 Agent '"@ + agent_id + "' SUSPENDED"@
}

/// The message of the notification sent when an agent is frozen.
pub open spec fn stop_message(trigger: Seq<char>, frozen: Seq<u32>) -> Seq<char> {
    "Trigger: "@ + trigger + ". "@ + decimal(frozen.len()) + " process(es) frozen: "@ + debug_list(frozen)
        + ".\nChoose action:"@
}

/// The buttons offered when an agent is frozen.
pub open spec fn stop_buttons() -> Seq<Seq<char>> {
    seq!["Resume Agent"@, "Terminate Permanently"@, "Rollback Last Actions"@]
}

/// The trigger text of the anomaly detector.
pub open spec fn anomaly_trigger(ops: u32, limit: u32) -> Seq<char> {
    "AnomalyDetector: "@ + decimal(ops as nat) + " file ops/min > limit "@ + decimal(limit as nat)
}

/// The critical notification reporting the processes frozen for an agent.
pub fn stop_notification(agent_id: &str, trigger_source: &str, frozen: &Vec<u32>) -> (n: UiNotification)
    ensures
        n.has(NotificationLevel::Critical, stop_title(agent_id@), stop_message(trigger_source@, frozen@), stop_buttons()),
{
    let mut title = String::from_str("🛑 Agent '");
    title.append(agent_id);
    title.append("' SUSPENDED");
    let mut message = String::from_str("Trigger: ");
    message.append(trigger_source);
    message.append(". ");
    push_decimal(&mut message, frozen.len() as u64);
    message.append(" process(es) frozen: ");
    push_debug_list(&mut message, frozen);
    message.append(".\nChoose action:");
    let mut buttons: Vec<&str> = Vec::new();
    buttons.push("Resume Agent");
    buttons.push("Terminate Permanently");
    buttons.push("Rollback Last Actions");
    assert(str_texts(buttons@) =~= stop_buttons());
    UiNotification::critical(title.as_str(), message.as_str(), buttons)
}

/// The receipt shows a signal that was delivered.
pub open spec fn froze(o: Option<SignalReceipt>) -> bool {
    o matches Some(rc) && rc.spec_reply() is Delivered
}

/// The processes reported frozen: those whose SIGSTOP was delivered, in order.
pub open spec fn frozen_of(pids: Seq<u32>, outcomes: Seq<Option<SignalReceipt>>) -> Seq<u32>
    decreases pids.len(),
{
    if pids.len() == 0 {
        Seq::empty()
    } else {
        let f = frozen_of(pids.drop_last(), outcomes.subrange(0, pids.len() - 1));
        if froze(outcomes[pids.len() - 1]) {
            f.push(pids.last())
        } else {
            f
        }
    }
}

/// The bookkeeping of a freeze, given each process's SIGSTOP receipt: nothing happens
/// when the agent has no processes; otherwise the processes that froze are appended to
/// the frozen list and reported in a critical notification.
pub open spec fn freeze_recorded(
    pids: Seq<u32>,
    outcomes: Seq<Option<SignalReceipt>>,
    old_suspended: Seq<u32>,
    new_suspended: Seq<u32>,
    r: Option<UiNotification>,
    agent_id: Seq<char>,
    trigger: Seq<char>,
) -> bool {
    if pids.len() == 0 {
        &&& r is None
        &&& new_suspended == old_suspended
    } else {
        &&& new_suspended == old_suspended + frozen_of(pids, outcomes)
        &&& r matches Some(n) && n.has(
            NotificationLevel::Critical,
            stop_title(agent_id),
            stop_message(trigger, frozen_of(pids, outcomes)),
            stop_buttons(),
        )
    }
}

/// The outcome of freezing an agent whose tracked processes are `agent_pids`: each of
/// them, listed once, is sent SIGSTOP (the receipt is for exactly that process and that
/// signal), and the freeze is recorded from those receipts.
pub open spec fn stop_outcome(
    agent_pids: Set<u32>,
    old_suspended: Seq<u32>,
    new_suspended: Seq<u32>,
    r: Option<UiNotification>,
    agent_id: Seq<char>,
    trigger: Seq<char>,
) -> bool {
    exists|pids: Seq<u32>, outcomes: Seq<Option<SignalReceipt>>|
        {
            &&& pids.no_duplicates()
            &&& set_of(pids) == agent_pids
            &&& outcomes.len() == pids.len()
            &&& forall|i: int| 0 <= i < pids.len() ==> receipt_for(#[trigger] outcomes[i], pids[i], SignalKind::Stop)
            &&& #[trigger] freeze_recorded(pids, outcomes, old_suspended, new_suspended, r, agent_id, trigger)
        }
}

/// Each process of `pids` was sent `kind`, as the receipt at the same place shows.
pub open spec fn all_sent(pids: Seq<u32>, receipts: Seq<Option<SignalReceipt>>, kind: SignalKind) -> bool {
    forall|i: int| 0 <= i < pids.len() ==> receipt_for(#[trigger] receipts[i], pids[i], kind)
}

/// Every process of an agent, listed once, was sent SIGCONT.
pub open spec fn resume_sent(agent_pids: Set<u32>) -> bool {
    exists|pids: Seq<u32>, receipts: Seq<Option<SignalReceipt>>|
        pids.no_duplicates() && set_of(pids) == agent_pids && receipts.len() == pids.len()
            && #[trigger] all_sent(pids, receipts, SignalKind::Cont)
}

/// Freezes and thaws agents, remembering which processes it froze.
pub struct KillSwitch {
    pub process_tree: ProcessTree,
    suspended_pids: Vec<u32>,
}

impl KillSwitch {
    /// The process tree the switch consults.
    pub closed spec fn spec_tree(&self) -> ProcessTree {
        self.process_tree
    }

    /// The processes frozen so far, in the order they were frozen.
    pub closed spec fn spec_suspended(&self) -> Seq<u32> {
        self.suspended_pids@
    }

    /// A kill switch over a process tree, with nothing frozen yet.
    pub fn new(process_tree: ProcessTree) -> (r: Self)
        ensures
            r.spec_tree() == process_tree,
            r.spec_suspended() == Seq::<u32>::empty(),
    {
        KillSwitch { process_tree, suspended_pids: Vec::new() }
    }

    /// The processes frozen so far.
    pub fn suspended_pids(&self) -> (r: &Vec<u32>)
        ensures
            r@ == self.spec_suspended(),
    {
        &self.suspended_pids
    }

    /// Records a freeze from each process's SIGSTOP receipt: when `pids` is empty
    /// nothing changes and nothing is reported; otherwise the processes whose signal
    /// was delivered are appended, in order, to the frozen list and reported.
    pub fn record_freeze(
        &mut self,
        agent_id: &str,
        trigger_source: &str,
        pids: &Vec<u32>,
        outcomes: &Vec<Option<SignalReceipt>>,
    ) -> (r: Option<UiNotification>)
        requires
            pids.len() == outcomes.len(),
        ensures
            final(self).spec_tree() == old(self).spec_tree(),
            freeze_recorded(
                pids@,
                outcomes@,
                old(self).spec_suspended(),
                final(self).spec_suspended(),
                r,
                agent_id@,
                trigger_source@,
            ),
    {
        if pids.len() == 0 {
            return None;
        }
        let mut frozen: Vec<u32> = Vec::new();
        let mut i: usize = 0;
        while i < pids.len()
            invariant
                i <= pids@.len(),
                pids@.len() == outcomes@.len(),
                frozen@ == frozen_of(pids@.subrange(0, i as int), outcomes@.subrange(0, i as int)),
            decreases pids.len() - i,
        {
            let ghost pre_p = pids@.subrange(0, i as int);
            let ghost pre_o = outcomes@.subrange(0, i as int);
            let ghost next_p = pids@.subrange(0, i + 1);
            let ghost next_o = outcomes@.subrange(0, i + 1);
            assert(next_p.drop_last() =~= pre_p);
            assert(next_o.subrange(0, i as int) =~= pre_o);
            assert(next_o[i as int] == outcomes@[i as int]);
            assert(next_p.last() == pids@[i as int]);
            let delivered = match &outcomes[i] {
                Some(rc) => rc.delivered(),
                None => false,
            };
            if delivered {
                frozen.push(pids[i]);
            }
            i = i + 1;
        }
        assert(pids@.subrange(0, pids.len() as int) =~= pids@);
        assert(outcomes@.subrange(0, outcomes.len() as int) =~= outcomes@);
        let ghost before_suspended = self.suspended_pids@;
        let mut k: usize = 0;
        while k < frozen.len()
            invariant
                self.process_tree == old(self).process_tree,
                before_suspended == old(self).suspended_pids@,
                k <= frozen@.len(),
                self.suspended_pids@ == before_suspended + frozen@.subrange(0, k as int),
            decreases frozen.len() - k,
        {
            self.suspended_pids.push(frozen[k]);
            k = k + 1;
            assert(frozen@.subrange(0, k as int) == frozen@.subrange(0, k - 1).push(frozen@[k - 1]));
        }
        assert(frozen@.subrange(0, frozen.len() as int) =~= frozen@);
        Some(stop_notification(agent_id, trigger_source, &frozen))
    }

    /// Freezes every tracked process of an agent, whatever triggered it: each is sent
    /// SIGSTOP, and the freeze is recorded from the outcomes.
    pub fn emergency_stop(&mut self, agent_id: &str, trigger_source: &str) -> (r: Option<UiNotification>)
        ensures
            final(self).spec_tree() == old(self).spec_tree(),
            stop_outcome(
                pids_of(old(self).spec_tree().view(), agent_id@),
                old(self).spec_suspended(),
                final(self).spec_suspended(),
                r,
                agent_id@,
                trigger_source@,
            ),
    {
        let pids = self.process_tree.get_pids(agent_id);
        let mut outcomes: Vec<Option<SignalReceipt>> = Vec::new();
        let mut i: usize = 0;
        while i < pids.len()
            invariant
                i <= pids@.len(),
                outcomes@.len() == i,
                forall|k: int| 0 <= k < i ==> receipt_for(#[trigger] outcomes@[k], pids@[k], SignalKind::Stop),
            decreases pids.len() - i,
        {
            let o = signal_process(pids[i], true);
            outcomes.push(o);
            i = i + 1;
        }
        let r = self.record_freeze(agent_id, trigger_source, &pids, &outcomes);
        assert(freeze_recorded(pids@, outcomes@, old(self).spec_suspended(), self.spec_suspended(), r, agent_id@, trigger_source@));
        r
    }

    /// Thaws every tracked process of an agent and forgets them as frozen.
    pub fn resume_agent(&mut self, agent_id: &str)
        ensures
            final(self).spec_tree() == old(self).spec_tree(),
            final(self).spec_suspended() == without_all(
                old(self).spec_suspended(),
                pids_of(old(self).spec_tree().view(), agent_id@),
            ),
            resume_sent(pids_of(old(self).spec_tree().view(), agent_id@)),
    {
        let pids = self.process_tree.get_pids(agent_id);
        let ghost mut sent: Seq<Option<SignalReceipt>> = Seq::empty();
        let mut i: usize = 0;
        while i < pids.len()
            invariant
                self.process_tree == old(self).process_tree,
                self.suspended_pids == old(self).suspended_pids,
                i <= pids@.len(),
                sent.len() == i,
                forall|k: int| 0 <= k < i ==> receipt_for(#[trigger] sent[k], pids@[k], SignalKind::Cont),
            decreases pids.len() - i,
        {
            let o = signal_process(pids[i], false);
            proof {
                sent = sent.push(o);
            }
            i = i + 1;
        }
        assert(pids@.no_duplicates() && set_of(pids@) == pids_of(old(self).spec_tree().view(), agent_id@)
            && sent.len() == pids@.len() && all_sent(pids@, sent, SignalKind::Cont));
        let ghost gone = set_of(pids@);
        let mut kept: Vec<u32> = Vec::new();
        let mut k: usize = 0;
        while k < self.suspended_pids.len()
            invariant
                self.process_tree == old(self).process_tree,
                self.suspended_pids == old(self).suspended_pids,
                gone == set_of(pids@),
                k <= self.suspended_pids@.len(),
                kept@ == without_all(self.suspended_pids@.subrange(0, k as int), gone),
            decreases self.suspended_pids.len() - k,
        {
            let p = self.suspended_pids[k];
            let mut found = false;
            let mut j: usize = 0;
            while j < pids.len()
                invariant
                    j <= pids@.len(),
                    found == pids@.subrange(0, j as int).contains(p),
                decreases pids.len() - j,
            {
                if pids[j] == p {
                    found = true;
                }
                j = j + 1;
                assert(pids@.subrange(0, j as int) =~= pids@.subrange(0, j - 1).push(pids@[j - 1]));
                assert(found == pids@.subrange(0, j as int).contains(p)) by {
                    let pre = pids@.subrange(0, j - 1);
                    if pre.contains(p) {
                        let w = choose|w: int| 0 <= w < pre.len() && pre[w] == p;
                        assert(pids@.subrange(0, j as int)[w] == p);
                    }
                    if pids@[j - 1] == p {
                        assert(pids@.subrange(0, j as int)[j - 1] == p);
                    }
                    if pids@.subrange(0, j as int).contains(p) {
                        let w = choose|w: int| 0 <= w < j && pids@.subrange(0, j as int)[w] == p;
                        if w < j - 1 {
                            assert(pre[w] == p);
                        }
                    }
                }
            }
            assert(pids@.subrange(0, pids.len() as int) =~= pids@);
            assert(gone.contains(p) == found);
            if !found {
                kept.push(p);
            }
            k = k + 1;
            assert(self.suspended_pids@.subrange(0, k as int).last() == p);
            assert(self.suspended_pids@.subrange(0, k as int).drop_last() =~= self.suspended_pids@.subrange(0, k - 1));
        }
        assert(self.suspended_pids@.subrange(0, self.suspended_pids.len() as int) =~= self.suspended_pids@);
        self.suspended_pids = kept;
    }

    /// Freezes the agent when its file operations per minute exceed the limit;
    /// otherwise does nothing.
    pub fn check_anomaly(&mut self, agent_id: &str, file_ops_per_min: u32, configured_limit: u32) -> (r: Option<UiNotification>)
        ensures
            final(self).spec_tree() == old(self).spec_tree(),
            file_ops_per_min > configured_limit ==> stop_outcome(
                pids_of(old(self).spec_tree().view(), agent_id@),
                old(self).spec_suspended(),
                final(self).spec_suspended(),
                r,
                agent_id@,
                anomaly_trigger(file_ops_per_min, configured_limit),
            ),
            file_ops_per_min <= configured_limit ==> r is None && final(self).spec_suspended()
                == old(self).spec_suspended(),
    {
        if file_ops_per_min > configured_limit {
            let mut trigger = String::from_str("AnomalyDetector: ");
            push_decimal(&mut trigger, file_ops_per_min as u64);
            trigger.append(" file ops/min > limit ");
            push_decimal(&mut trigger, configured_limit as u64);
            self.emergency_stop(agent_id, trigger.as_str())
        } else {
            None
        }
    }
}

/// After resuming an agent, none of its processes is still listed as frozen, and
/// every other frozen process still is.
pub proof fn resume_clears_agent(s: Seq<u32>, gone: Set<u32>)
    ensures
        forall|i: int| 0 <= i < without_all(s, gone).len() ==> !gone.contains(#[trigger] without_all(s, gone)[i]),
        forall|p: u32| s.contains(p) && !gone.contains(p) ==> #[trigger] without_all(s, gone).contains(p),
    decreases s.len(),
{
    if s.len() > 0 {
        let init = s.drop_last();
        resume_clears_agent(init, gone);
        let w = without_all(init, gone);
        assert forall|p: u32| s.contains(p) && !gone.contains(p) implies #[trigger] without_all(s, gone).contains(p) by {
            let j = choose|j: int| 0 <= j < s.len() && s[j] == p;
            if j < s.len() - 1 {
                assert(init[j] == p);
                assert(init.contains(p));
                assert(without_all(init, gone).contains(p));
                let k = choose|k: int| 0 <= k < w.len() && w[k] == p;
                if !gone.contains(s.last()) {
                    assert(without_all(s, gone) == w.push(s.last()));
                    assert(w.push(s.last())[k] == p);
                } else {
                    assert(without_all(s, gone) == w);
                }
            } else {
                assert(w.push(s.last())[w.len() as int] == p);
            }
        }
    }
}

/// The frozen list holds exactly the processes whose SIGSTOP was delivered: every such
/// process is in it, every entry is such a process, and no other process is added.
pub proof fn frozen_are_exactly_the_delivered(pids: Seq<u32>, receipts: Seq<Option<SignalReceipt>>)
    requires
        receipts.len() == pids.len(),
    ensures
        forall|i: int|
            0 <= i < pids.len() && (#[trigger] receipts[i] matches Some(rc) && rc.spec_reply() is Delivered) ==> exists|k: int|
                0 <= k < frozen_of(pids, receipts).len() && #[trigger] frozen_of(pids, receipts)[k] == pids[i],
        forall|k: int| 0 <= k < frozen_of(pids, receipts).len() ==> exists|i: int|
            0 <= i < pids.len() && (receipts[i] matches Some(rc) && rc.spec_reply() is Delivered) && pids[i]
                == #[trigger] frozen_of(pids, receipts)[k],
        frozen_of(pids, receipts).len() <= pids.len(),
    decreases pids.len(),
{
    if pids.len() > 0 {
        let n = pids.len() - 1;
        let ip = pids.drop_last();
        let ir = receipts.subrange(0, n);
        frozen_are_exactly_the_delivered(ip, ir);
        let f = frozen_of(ip, ir);
        assert forall|i: int|
            0 <= i < pids.len() && (#[trigger] receipts[i] matches Some(rc) && rc.spec_reply() is Delivered) implies exists|k: int|
                0 <= k < frozen_of(pids, receipts).len() && #[trigger] frozen_of(pids, receipts)[k] == pids[i] by {
            if i < n {
                assert(ir[i] == receipts[i] && ip[i] == pids[i]);
                let k = choose|k: int| 0 <= k < f.len() && #[trigger] f[k] == ip[i];
                assert(frozen_of(pids, receipts)[k] == f[k]);
            } else {
                assert(frozen_of(pids, receipts)[f.len() as int] == pids[i]);
            }
        }
        assert forall|k: int| 0 <= k < frozen_of(pids, receipts).len() implies exists|i: int|
            0 <= i < pids.len() && (receipts[i] matches Some(rc) && rc.spec_reply() is Delivered) && pids[i]
                == #[trigger] frozen_of(pids, receipts)[k] by {
            if k < f.len() {
                assert(frozen_of(pids, receipts)[k] == f[k]);
                let i = choose|i: int|
                    0 <= i < ip.len() && (ir[i] matches Some(rc) && rc.spec_reply() is Delivered) && ip[i] == #[trigger] f[k];
                assert(ir[i] == receipts[i] && ip[i] == pids[i]);
            } else {
                assert(pids[n] == frozen_of(pids, receipts)[k]);
            }
        }
    }
}

} // verus!
