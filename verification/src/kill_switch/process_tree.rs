//! Which process ids belong to which agent.
use crate::text::str_eq;
use vstd::prelude::*;

verus! {

/// The process ids of one agent.
pub struct AgentPids {
    agent: String,
    pids: Vec<u32>,
}

/// The entries behind a process tree: one per agent, in registration order.
struct AgentTable {
    entries: Vec<AgentPids>,
}

/// Tracks the processes of every agent: agent id to a set of process ids.
pub struct ProcessTree {
    table: AgentTable,
}

/// The set of the numbers in a list.
pub open spec fn set_of(s: Seq<u32>) -> Set<u32> {
    Set::new(|p: u32| s.contains(p))
}

/// The tree after registering `pid` under `agent`.
pub open spec fn registered(m: Map<Seq<char>, Set<u32>>, agent: Seq<char>, pid: u32) -> Map<Seq<char>, Set<u32>> {
    if m.contains_key(agent) {
        m.insert(agent, m[agent].insert(pid))
    } else {
        m.insert(agent, set![pid])
    }
}

/// The tree after removing `pid` from every agent (agents stay, possibly with no ids).
pub open spec fn deregistered(m: Map<Seq<char>, Set<u32>>, pid: u32) -> Map<Seq<char>, Set<u32>> {
    Map::new(|a: Seq<char>| m.contains_key(a), |a: Seq<char>| m[a].remove(pid))
}

/// The process ids registered for an agent (none for an unknown agent).
pub open spec fn pids_of(m: Map<Seq<char>, Set<u32>>, agent: Seq<char>) -> Set<u32> {
    if m.contains_key(agent) {
        m[agent]
    } else {
        Set::empty()
    }
}

/// Pushing a number onto a list adds it to the list's set.
proof fn lemma_set_of_push(s: Seq<u32>, x: u32)
    ensures
        set_of(s.push(x)) == set_of(s).insert(x),
{
    assert forall|p: u32| set_of(s.push(x)).contains(p) == set_of(s).insert(x).contains(p) by {
        if s.contains(p) {
            let j = choose|j: int| 0 <= j < s.len() && s[j] == p;
            assert(s.push(x)[j] == p);
        }
        if p == x {
            assert(s.push(x)[s.len() as int] == x);
        }
        if s.push(x).contains(p) {
            let j = choose|j: int| 0 <= j < s.len() + 1 && s.push(x)[j] == p;
            if j < s.len() {
                assert(s[j] == p);
            }
        }
    }
    assert(set_of(s.push(x)) =~= set_of(s).insert(x));
}

/// The list holds the number.
fn contains_u32(v: &Vec<u32>, x: u32) -> (r: bool)
    ensures
        r == v@.contains(x),
{
    let mut k: usize = 0;
    while k < v.len()
        invariant
            k <= v.len(),
            forall|j: int| 0 <= j < k ==> v@[j] != x,
        decreases v.len() - k,
    {
        if v[k] == x {
            assert(v@[k as int] == x);
            return true;
        }
        k = k + 1;
    }
    false
}

/// A copy of a list of numbers.
fn copy_u32s(v: &Vec<u32>) -> (r: Vec<u32>)
    ensures
        r@ == v@,
{
    let mut r: Vec<u32> = Vec::new();
    let mut k: usize = 0;
    while k < v.len()
        invariant
            k <= v.len(),
            r@ == v@.subrange(0, k as int),
        decreases v.len() - k,
    {
        r.push(v[k]);
        k = k + 1;
    }
    assert(v@.subrange(0, v.len() as int) =~= v@);
    r
}

/// The list without the number `x`.
fn without_u32(v: &Vec<u32>, x: u32) -> (r: Vec<u32>)
    requires
        v@.no_duplicates(),
    ensures
        r@.no_duplicates(),
        set_of(r@) == set_of(v@).remove(x),
{
    let mut r: Vec<u32> = Vec::new();
    let mut k: usize = 0;
    while k < v.len()
        invariant
            k <= v.len(),
            v@.no_duplicates(),
            r@.no_duplicates(),
            forall|p: u32| r@.contains(p) <==> (v@.subrange(0, k as int).contains(p) && p != x),
        decreases v.len() - k,
    {
        let ghost before = r@;
        let ghost pre = v@.subrange(0, k as int);
        let e = v[k];
        if e != x {
            assert(!before.contains(e)) by {
                if before.contains(e) {
                    let j = choose|j: int| 0 <= j < pre.len() && pre[j] == e;
                    assert(v@[j] == v@[k as int]);
                }
            }
            r.push(e);
            assert forall|p: u32| before.push(e).contains(p) <==> (before.contains(p) || p == e) by {
                if before.push(e).contains(p) {
                    let j = choose|j: int| 0 <= j < before.len() + 1 && before.push(e)[j] == p;
                    if j < before.len() {
                        assert(before[j] == p);
                    }
                }
                if before.contains(p) {
                    let j = choose|j: int| 0 <= j < before.len() && before[j] == p;
                    assert(before.push(e)[j] == p);
                }
                if p == e {
                    assert(before.push(e)[before.len() as int] == e);
                }
            }
        }
        k = k + 1;
        let ghost post = v@.subrange(0, k as int);
        assert(post == pre.push(e));
        assert forall|p: u32| post.contains(p) <==> (pre.contains(p) || p == e) by {
            if post.contains(p) {
                let j = choose|j: int| 0 <= j < post.len() && post[j] == p;
                if j < pre.len() {
                    assert(pre[j] == p);
                }
            }
            if pre.contains(p) {
                let j = choose|j: int| 0 <= j < pre.len() && pre[j] == p;
                assert(post[j] == p);
            }
            if p == e {
                assert(post[pre.len() as int] == e);
            }
        }
        assert forall|p: u32| r@.contains(p) <==> (post.contains(p) && p != x) by {
            if e != x {
                assert(r@ == before.push(e));
                assert(before.push(e).contains(p) <==> (before.contains(p) || p == e));
            } else {
                assert(r@ == before);
            }
            assert(before.contains(p) <==> (pre.contains(p) && p != x));
        }
    }
    assert(v@.subrange(0, v.len() as int) =~= v@);
    assert(set_of(r@) =~= set_of(v@).remove(x));
    r
}

impl AgentTable {
    /// Agent ids are distinct and no agent lists a process id twice.
    spec fn wf(&self) -> bool {
        &&& forall|i: int, j: int|
            0 <= i < j < self.entries@.len() ==> #[trigger] self.entries@[i].agent@ != #[trigger] self.entries@[j].agent@
        &&& forall|i: int| 0 <= i < self.entries@.len() ==> (#[trigger] self.entries@[i]).pids@.no_duplicates()
    }

    /// The tree as a map from agent id to process ids.
    spec fn view(&self) -> Map<Seq<char>, Set<u32>> {
        Map::new(
            |a: Seq<char>| exists|i: int| 0 <= i < self.entries@.len() && #[trigger] self.entries@[i].agent@ == a,
            |a: Seq<char>|
                {
                    let i = choose|i: int| 0 <= i < self.entries@.len() && #[trigger] self.entries@[i].agent@ == a;
                    set_of(self.entries@[i].pids@)
                },
        )
    }

    proof fn lemma_view_at(&self, i: int)
        requires
            self.wf(),
            0 <= i < self.entries@.len(),
        ensures
            self.view().contains_key(self.entries@[i].agent@),
            self.view()[self.entries@[i].agent@] == set_of(self.entries@[i].pids@),
    {
        let a = self.entries@[i].agent@;
        assert(self.view().contains_key(a));
        let k = choose|k: int| 0 <= k < self.entries@.len() && #[trigger] self.entries@[k].agent@ == a;
        assert(k == i) by {
            if k < i {
                assert(self.entries@[k].agent@ != self.entries@[i].agent@);
            } else if k > i {
                assert(self.entries@[i].agent@ != self.entries@[k].agent@);
            }
        }
    }

    /// An empty tree.
    fn new() -> (r: Self)
        ensures
            r.wf(),
            r.view() == Map::<Seq<char>, Set<u32>>::empty(),
    {
        let r = AgentTable { entries: Vec::new() };
        assert(r.view() =~= Map::<Seq<char>, Set<u32>>::empty());
        r
    }

    fn find(&self, agent: &str) -> (r: Option<usize>)
        requires
            self.wf(),
        ensures
            match r {
                Some(i) => i < self.entries@.len() && self.entries@[i as int].agent@ == agent@,
                None => !self.view().contains_key(agent@),
            },
    {
        let mut i: usize = 0;
        while i < self.entries.len()
            invariant
                i <= self.entries@.len(),
                forall|k: int| 0 <= k < i ==> #[trigger] self.entries@[k].agent@ != agent@,
            decreases self.entries.len() - i,
        {
            if str_eq(self.entries[i].agent.as_str(), agent) {
                return Some(i);
            }
            i = i + 1;
        }
        None
    }

    /// Records that `pid` belongs to `agent`.
    fn register(&mut self, agent: &str, pid: u32)
        requires
            old(self).wf(),
        ensures
            final(self).wf(),
            final(self).view() == registered(old(self).view(), agent@, pid),
    {
        let ghost old_view = self.view();
        match self.find(agent) {
            Some(i) => {
                proof {
                    self.lemma_view_at(i as int);
                }
                let present = contains_u32(&self.entries[i].pids, pid);
                if !present {
                    let ghost before = self.entries@;
                    self.entries[i].pids.push(pid);
                    assert(self.entries@[i as int].agent@ == agent@);
                    assert forall|j: int| 0 <= j < self.entries@.len() && j != i implies self.entries@[j] == before[j] by {}
                    proof {
                        assert(self.wf());
                        self.lemma_view_at(i as int);
                        assert forall|a: Seq<char>| #[trigger] self.view().contains_key(a) == registered(old_view, agent@, pid).contains_key(a) by {
                            if old_view.contains_key(a) {
                                let w = choose|w: int| 0 <= w < before.len() && #[trigger] before[w].agent@ == a;
                                assert(self.entries@[w].agent@ == a);
                            }
                            if self.view().contains_key(a) {
                                let w = choose|w: int| 0 <= w < self.entries@.len() && #[trigger] self.entries@[w].agent@ == a;
                                assert(before[w].agent@ == a);
                            }
                        }
                        assert forall|a: Seq<char>| #[trigger] self.view().contains_key(a) implies self.view()[a] == registered(old_view, agent@, pid)[a] by {
                            let w = choose|w: int| 0 <= w < self.entries@.len() && #[trigger] self.entries@[w].agent@ == a;
                            self.lemma_view_at(w);
                            if w == i {
                                lemma_set_of_push(before[i as int].pids@, pid);
                            } else {
                                assert(self.entries@[w] == before[w]);
                            }
                        }
                        assert(self.view() =~= registered(old_view, agent@, pid));
                    }
                    return;
                }
                assert(set_of(self.entries@[i as int].pids@) =~= old_view[agent@].insert(pid)) by {
                    let ps = self.entries@[i as int].pids@;
                    let j = choose|j: int| 0 <= j < ps.len() && ps[j] == pid;
                    assert(set_of(ps).contains(pid));
                }
                assert(self.view() =~= registered(old_view, agent@, pid));
            },
            None => {
                let mut pids: Vec<u32> = Vec::new();
                pids.push(pid);
                let ghost before = self.entries@;
                self.entries.push(AgentPids { agent: String::from_str(agent), pids });
                proof {
                    let n = before.len() as int;
                    assert(self.entries@[n].pids@ =~= seq![pid]);
                    assert forall|k: int| 0 <= k < n implies #[trigger] self.entries@[k].agent@ != agent@ by {
                        if self.entries@[k].agent@ == agent@ {
                            assert(before[k].agent@ == agent@);
                        }
                    }
                    assert(self.wf());
                    assert forall|a: Seq<char>| #[trigger] self.view().contains_key(a) == registered(old_view, agent@, pid).contains_key(a) by {
                        if old_view.contains_key(a) {
                            let w = choose|w: int| 0 <= w < before.len() && #[trigger] before[w].agent@ == a;
                            assert(self.entries@[w].agent@ == a);
                        }
                        if a == agent@ {
                            assert(self.entries@[n].agent@ == a);
                        }
                        if self.view().contains_key(a) {
                            let w = choose|w: int| 0 <= w < self.entries@.len() && #[trigger] self.entries@[w].agent@ == a;
                            if w < n {
                                assert(before[w].agent@ == a);
                            }
                        }
                    }
                    assert forall|a: Seq<char>| #[trigger] self.view().contains_key(a) implies self.view()[a] == registered(old_view, agent@, pid)[a] by {
                        let w = choose|w: int| 0 <= w < self.entries@.len() && #[trigger] self.entries@[w].agent@ == a;
                        self.lemma_view_at(w);
                        if w == n {
                            lemma_set_of_push(Seq::<u32>::empty(), pid);
                            assert(set_of(Seq::<u32>::empty()) =~= Set::<u32>::empty());
                            assert(Seq::<u32>::empty().push(pid) == seq![pid]);
                        } else {
                            assert(self.entries@[w] == before[w]);
                            assert(old_view.contains_key(a)) by {
                                assert(before[w].agent@ == a);
                            }
                            let v = choose|v: int| 0 <= v < before.len() && #[trigger] before[v].agent@ == a;
                            assert(v == w) by {
                                if v != w {
                                    assert(self.entries@[v].agent@ == a);
                                }
                            }
                        }
                    }
                    assert(self.view() =~= registered(old_view, agent@, pid));
                }
            },
        }
    }
}

impl AgentTable {
    /// Forgets `pid` for every agent (the process ended). Agents stay registered.
    fn deregister(&mut self, pid: u32)
        requires
            old(self).wf(),
        ensures
            final(self).wf(),
            final(self).view() == deregistered(old(self).view(), pid),
    {
        let ghost before = self.entries@;
        let ghost old_view = self.view();
        let mut i: usize = 0;
        while i < self.entries.len()
            invariant
                self.entries@.len() == before.len(),
                i <= self.entries@.len(),
                forall|j: int| 0 <= j < before.len() ==> #[trigger] self.entries@[j].agent@ == before[j].agent@,
                forall|j: int| 0 <= j < before.len() ==> (#[trigger] self.entries@[j]).pids@.no_duplicates(),
                forall|j: int| 0 <= j < i ==> set_of(#[trigger] self.entries@[j].pids@) == set_of(before[j].pids@).remove(pid),
                forall|j: int| i <= j < before.len() ==> #[trigger] self.entries@[j].pids@ == before[j].pids@,
            decreases self.entries.len() - i,
        {
            let newp = without_u32(&self.entries[i].pids, pid);
            self.entries[i].pids = newp;
            i = i + 1;
        }
        proof {
            assert forall|j: int, k: int| 0 <= j < k < self.entries@.len() implies #[trigger] self.entries@[j].agent@ != #[trigger] self.entries@[k].agent@ by {
                assert(before[j].agent@ != before[k].agent@) by {
                    assert(old(self).entries@[j].agent@ != old(self).entries@[k].agent@);
                }
            }
            assert(self.wf());
            assert forall|a: Seq<char>| #[trigger] self.view().contains_key(a) == deregistered(old_view, pid).contains_key(a) by {
                if old_view.contains_key(a) {
                    let w = choose|w: int| 0 <= w < before.len() && #[trigger] before[w].agent@ == a;
                    assert(self.entries@[w].agent@ == a);
                }
                if self.view().contains_key(a) {
                    let w = choose|w: int| 0 <= w < self.entries@.len() && #[trigger] self.entries@[w].agent@ == a;
                    assert(before[w].agent@ == a);
                    assert(old(self).entries@[w].agent@ == a);
                }
            }
            assert forall|a: Seq<char>| #[trigger] self.view().contains_key(a) implies self.view()[a] == deregistered(old_view, pid)[a] by {
                let w = choose|w: int| 0 <= w < self.entries@.len() && #[trigger] self.entries@[w].agent@ == a;
                self.lemma_view_at(w);
                old(self).lemma_view_at(w);
            }
            assert(self.view() =~= deregistered(old_view, pid));
        }
    }

    /// The process ids registered for an agent, each once (none for an unknown agent).
    fn get_pids(&self, agent: &str) -> (r: Vec<u32>)
        requires
            self.wf(),
        ensures
            r@.no_duplicates(),
            set_of(r@) == pids_of(self.view(), agent@),
    {
        match self.find(agent) {
            Some(i) => {
                proof {
                    self.lemma_view_at(i as int);
                }
                copy_u32s(&self.entries[i].pids)
            },
            None => {
                let r: Vec<u32> = Vec::new();
                assert(set_of(r@) =~= Set::<u32>::empty());
                r
            },
        }
    }

    /// The ids of all registered agents, each once.
    fn all_agents(&self) -> (r: Vec<String>)
        requires
            self.wf(),
        ensures
            forall|i: int, j: int| 0 <= i < j < r@.len() ==> #[trigger] r@[i]@ != #[trigger] r@[j]@,
            forall|a: Seq<char>| #![trigger self.view().contains_key(a)]
                self.view().contains_key(a) <==> exists|i: int| 0 <= i < r@.len() && #[trigger] r@[i]@ == a,
    {
        let mut r: Vec<String> = Vec::new();
        let mut k: usize = 0;
        while k < self.entries.len()
            invariant
                k <= self.entries@.len(),
                r@.len() == k,
                forall|j: int| 0 <= j < k ==> #[trigger] r@[j]@ == self.entries@[j].agent@,
            decreases self.entries.len() - k,
        {
            r.push(self.entries[k].agent.clone());
            k = k + 1;
        }
        assert forall|a: Seq<char>| #![trigger self.view().contains_key(a)]
            self.view().contains_key(a) <==> exists|i: int| 0 <= i < r@.len() && #[trigger] r@[i]@ == a by {
            if self.view().contains_key(a) {
                let w = choose|w: int| 0 <= w < self.entries@.len() && #[trigger] self.entries@[w].agent@ == a;
                assert(r@[w]@ == a);
            }
            if exists|i: int| 0 <= i < r@.len() && #[trigger] r@[i]@ == a {
                let w = choose|i: int| 0 <= i < r@.len() && #[trigger] r@[i]@ == a;
                assert(self.entries@[w].agent@ == a);
            }
        }
        r
    }
}

impl ProcessTree {
    /// Agent ids are distinct and no agent lists a process id twice.
    #[verifier::type_invariant]
    spec fn wf(self) -> bool {
        self.table.wf()
    }

    /// The tree as a map from agent id to process ids.
    pub closed spec fn view(&self) -> Map<Seq<char>, Set<u32>> {
        self.table.view()
    }

    /// An empty tree.
    pub fn new() -> (r: Self)
        ensures
            r.view() == Map::<Seq<char>, Set<u32>>::empty(),
    {
        ProcessTree { table: AgentTable::new() }
    }

    /// Records that `pid` belongs to `agent`.
    pub fn register(&mut self, agent: &str, pid: u32)
        ensures
            final(self).view() == registered(old(self).view(), agent@, pid),
    {
        proof {
            use_type_invariant(&*self);
        }
        let mut table = AgentTable::new();
        std::mem::swap(&mut table, &mut self.table);
        table.register(agent, pid);
        self.table = table;
    }

    /// Forgets `pid` for every agent (the process ended). Agents stay registered.
    pub fn deregister(&mut self, pid: u32)
        ensures
            final(self).view() == deregistered(old(self).view(), pid),
    {
        proof {
            use_type_invariant(&*self);
        }
        let mut table = AgentTable::new();
        std::mem::swap(&mut table, &mut self.table);
        table.deregister(pid);
        self.table = table;
    }

    /// The process ids registered for an agent, each once (none for an unknown agent).
    pub fn get_pids(&self, agent: &str) -> (r: Vec<u32>)
        ensures
            r@.no_duplicates(),
            set_of(r@) == pids_of(self.view(), agent@),
    {
        proof {
            use_type_invariant(self);
        }
        self.table.get_pids(agent)
    }

    /// The ids of all registered agents, each once.
    pub fn all_agents(&self) -> (r: Vec<String>)
        ensures
            forall|i: int, j: int| 0 <= i < j < r@.len() ==> #[trigger] r@[i]@ != #[trigger] r@[j]@,
            forall|a: Seq<char>| #![trigger self.view().contains_key(a)]
                self.view().contains_key(a) <==> exists|i: int| 0 <= i < r@.len() && #[trigger] r@[i]@ == a,
    {
        proof {
            use_type_invariant(self);
        }
        self.table.all_agents()
    }
}

/// After registering a process under an agent, the agent's processes include it,
/// and every other agent's processes are unchanged.
pub proof fn register_records_pid(m: Map<Seq<char>, Set<u32>>, agent: Seq<char>, pid: u32, other: Seq<char>)
    requires
        other != agent,
    ensures
        pids_of(registered(m, agent, pid), agent).contains(pid),
        pids_of(registered(m, agent, pid), other) == pids_of(m, other),
{
}

/// Registering the same process twice is the same as registering it once.
pub proof fn register_is_idempotent(m: Map<Seq<char>, Set<u32>>, agent: Seq<char>, pid: u32)
    ensures
        registered(registered(m, agent, pid), agent, pid) == registered(m, agent, pid),
{
    let once = registered(m, agent, pid);
    assert(once.contains_key(agent));
    assert(once[agent].insert(pid) =~= once[agent]);
    assert(registered(once, agent, pid) =~= once);
}

/// After deregistering a process, no agent holds it, and every other process
/// stays where it was.
pub proof fn deregister_forgets_pid(m: Map<Seq<char>, Set<u32>>, pid: u32, agent: Seq<char>, other_pid: u32)
    requires
        other_pid != pid,
    ensures
        !pids_of(deregistered(m, pid), agent).contains(pid),
        pids_of(deregistered(m, pid), agent).contains(other_pid) == pids_of(m, agent).contains(other_pid),
{
}

} // verus!
