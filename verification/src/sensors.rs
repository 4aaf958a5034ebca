//! The sensors' decision logic: naming, classifying file-system changes, URIs, and
//! telling started from terminated processes between two polls.
use crate::event::EventType;
use crate::text::{decimal, push_char, push_decimal, to_chars};
use vstd::prelude::*;

verus! {

/// Watches one folder, recursively, for file-system changes.
pub struct FileSystemSensor {
    watch_path: String,
}

impl FileSystemSensor {
    /// The folder this sensor watches.
    pub closed spec fn spec_watch_path(&self) -> Seq<char> {
        self.watch_path@
    }

    /// A sensor for a folder.
    pub fn new(path: &str) -> (r: Self)
        ensures
            r.spec_watch_path() == path@,
    {
        FileSystemSensor { watch_path: String::from_str(path) }
    }

    /// The folder this sensor watches.
    pub fn watch_path(&self) -> (r: &str)
        ensures
            r@ == self.spec_watch_path(),
    {
        self.watch_path.as_str()
    }

    /// The sensor's source name.
    pub fn name(&self) -> (r: &'static str)
        ensures
            r@ == "sensor.fs"@,
    {
        "sensor.fs"
    }
}

/// Polls the process list at a fixed interval.
pub struct ProcessSensor {
    poll_interval_secs: u64,
}

impl ProcessSensor {
    /// The polling interval in seconds.
    pub closed spec fn spec_poll_interval(&self) -> u64 {
        self.poll_interval_secs
    }

    /// A sensor polling every `poll_interval_secs` seconds.
    pub fn new(poll_interval_secs: u64) -> (r: Self)
        ensures
            r.spec_poll_interval() == poll_interval_secs,
    {
        ProcessSensor { poll_interval_secs }
    }

    /// The polling interval in seconds.
    pub fn poll_interval_secs(&self) -> (r: u64)
        ensures
            r == self.spec_poll_interval(),
    {
        self.poll_interval_secs
    }

    /// The sensor's source name.
    pub fn name(&self) -> (r: &'static str)
        ensures
            r@ == "sensor.process"@,
    {
        "sensor.process"
    }
}

/// The kind of a raw file-system notification.
#[derive(Debug, Clone, Copy, PartialEq, Eq, Structural)]
pub enum FsChange {
    Create,
    Modify,
    Remove,
    Access,
    /// Anything else; ignored.
    Other,
}

/// The event a file-system change is reported as; other changes are ignored.
pub open spec fn event_for_change(c: FsChange) -> Option<EventType> {
    match c {
        FsChange::Create => Some(EventType::Created),
        FsChange::Modify => Some(EventType::Modified),
        FsChange::Remove => Some(EventType::Deleted),
        FsChange::Access => Some(EventType::Accessed),
        FsChange::Other => None,
    }
}

/// Classifies a file-system change.
pub fn event_type_for(c: FsChange) -> (r: Option<EventType>)
    ensures
        r == event_for_change(c),
{
    match c {
        FsChange::Create => Some(EventType::Created),
        FsChange::Modify => Some(EventType::Modified),
        FsChange::Remove => Some(EventType::Deleted),
        FsChange::Access => Some(EventType::Accessed),
        FsChange::Other => None,
    }
}

/// A path with every backslash turned into a slash.
pub open spec fn forward_slashes(path: Seq<char>) -> Seq<char> {
    path.map_values(|c: char| if c == '\\' { '/' } else { c })
}

/// The URI of a file path: "file://" and the path with forward slashes.
pub fn file_uri(path: &str) -> (r: String)
    ensures
        r@ == "file://"@ + forward_slashes(path@),
{
    let cs = to_chars(path);
    let mut r = String::from_str("file://");
    let ghost start = r@;
    let mut i: usize = 0;
    while i < cs.len()
        invariant
            i <= cs@.len(),
            r@ == start + forward_slashes(cs@.subrange(0, i as int)),
        decreases cs.len() - i,
    {
        let c = cs[i];
        push_char(&mut r, if c == '\\' { '/' } else { c });
        i = i + 1;
        assert(forward_slashes(cs@.subrange(0, i as int)) =~= forward_slashes(cs@.subrange(0, i - 1)).push(if c == '\\' { '/' } else { c }));
    }
    assert(cs@.subrange(0, cs.len() as int) =~= cs@);
    r
}

/// The URI of a process: "process://" and its id.
pub fn process_uri(pid: u32) -> (r: String)
    ensures
        r@ == "process://"@ + decimal(pid as nat),
{
    let mut r = String::from_str("process://");
    push_decimal(&mut r, pid as u64);
    r
}

/// One process as the operating system lists it.
#[derive(Debug, Clone)]
pub struct ProcessInfo {
    pub pid: u32,
    pub name: String,
    pub executable: String,
    pub memory_bytes: u64,
}

/// What the sensor remembers of a process it has seen.
#[derive(Debug, Clone)]
pub struct KnownProcess {
    pub pid: u32,
    pub name: String,
    pub executable: String,
}

/// A change between two polls of the process list.
#[derive(Debug, Clone)]
pub enum ProcessChange {
    /// A process not seen before; reported as an access.
    Started { pid: u32, name: String, executable: String, memory_kb: u64 },
    /// A process seen before that is gone; reported as a deletion.
    Terminated { pid: u32, name: String, executable: String },
}

/// The process ids of a listing.
pub open spec fn listed_pids(listing: Seq<ProcessInfo>) -> Set<u32> {
    Set::new(|p: u32| exists|i: int| 0 <= i < listing.len() && #[trigger] listing[i].pid == p)
}

/// The process ids the sensor knows.
pub open spec fn known_pids(known: Seq<KnownProcess>) -> Set<u32> {
    Set::new(|p: u32| exists|i: int| 0 <= i < known.len() && #[trigger] known[i].pid == p)
}

/// The listed processes that were not known, in listing order.
pub open spec fn started(listing: Seq<ProcessInfo>, known: Set<u32>) -> Seq<ProcessInfo>
    decreases listing.len(),
{
    if listing.len() == 0 {
        Seq::empty()
    } else if known.contains(listing.last().pid) {
        started(listing.drop_last(), known)
    } else {
        started(listing.drop_last(), known).push(listing.last())
    }
}

/// The known processes that are no longer listed, in the order they became known.
pub open spec fn terminated(known: Seq<KnownProcess>, current: Set<u32>) -> Seq<KnownProcess>
    decreases known.len(),
{
    if known.len() == 0 {
        Seq::empty()
    } else if current.contains(known.last().pid) {
        terminated(known.drop_last(), current)
    } else {
        terminated(known.drop_last(), current).push(known.last())
    }
}

/// `c` reports the start of `p`, its memory in KiB.
pub open spec fn reports_start(c: ProcessChange, p: ProcessInfo) -> bool {
    c matches ProcessChange::Started { pid, name, executable, memory_kb } && pid == p.pid && name@ == p.name@
        && executable@ == p.executable@ && memory_kb == p.memory_bytes / 1024
}

/// `c` reports the end of `k`, with the name and executable remembered for it.
pub open spec fn reports_end(c: ProcessChange, k: KnownProcess) -> bool {
    c matches ProcessChange::Terminated { pid, name, executable } && pid == k.pid && name@ == k.name@
        && executable@ == k.executable@
}

/// `k` holds the name and executable that the listing gives its process.
pub open spec fn remembered_from(k: KnownProcess, listing: Seq<ProcessInfo>) -> bool {
    exists|i: int|
        0 <= i < listing.len() && #[trigger] listing[i].pid == k.pid && listing[i].name@ == k.name@
            && listing[i].executable@ == k.executable@
}

/// The memory of what is known about the process list between polls.
pub struct ProcessWatch {
    known: Vec<KnownProcess>,
}

fn remember(p: &ProcessInfo) -> (k: KnownProcess)
    ensures
        k.pid == p.pid,
        k.name@ == p.name@,
        k.executable@ == p.executable@,
{
    KnownProcess { pid: p.pid, name: p.name.clone(), executable: p.executable.clone() }
}

fn copy_known(k: &KnownProcess) -> (r: KnownProcess)
    ensures
        r.pid == k.pid,
        r.name@ == k.name@,
        r.executable@ == k.executable@,
{
    KnownProcess { pid: k.pid, name: k.name.clone(), executable: k.executable.clone() }
}

fn is_listed(listing: &Vec<ProcessInfo>, pid: u32) -> (r: bool)
    ensures
        r == listed_pids(listing@).contains(pid),
{
    let mut i: usize = 0;
    while i < listing.len()
        invariant
            i <= listing@.len(),
            forall|j: int| 0 <= j < i ==> listing@[j].pid != pid,
        decreases listing.len() - i,
    {
        if listing[i].pid == pid {
            return true;
        }
        i = i + 1;
    }
    false
}

fn is_known(known: &Vec<KnownProcess>, pid: u32) -> (r: bool)
    ensures
        r == known_pids(known@).contains(pid),
{
    let mut i: usize = 0;
    while i < known.len()
        invariant
            i <= known@.len(),
            forall|j: int| 0 <= j < i ==> known@[j].pid != pid,
        decreases known.len() - i,
    {
        if known[i].pid == pid {
            return true;
        }
        i = i + 1;
    }
    false
}

impl ProcessWatch {
    /// The processes known, each id once, in the order they became known.
    pub closed spec fn spec_known(&self) -> Seq<KnownProcess> {
        self.known@
    }

    /// No process id is known twice.
    pub open spec fn distinct(known: Seq<KnownProcess>) -> bool {
        forall|i: int, j: int| 0 <= i < j < known.len() ==> #[trigger] known[i].pid != #[trigger] known[j].pid
    }

    /// Starts from a first listing, reporting nothing: every listed process is known.
    pub fn new(listing: &Vec<ProcessInfo>) -> (r: Self)
        ensures
            ProcessWatch::distinct(r.spec_known()),
            known_pids(r.spec_known()) == listed_pids(listing@),
            forall|j: int| 0 <= j < r.spec_known().len() ==> remembered_from(#[trigger] r.spec_known()[j], listing@),
    {
        let empty = ProcessWatch { known: Vec::new() };
        let (watch, _) = empty.poll_from(listing);
        watch
    }

    fn poll_from(self, listing: &Vec<ProcessInfo>) -> (r: (Self, Vec<ProcessChange>))
        requires
            ProcessWatch::distinct(self.known@),
        ensures
            ProcessWatch::distinct(r.0.known@),
            known_pids(r.0.known@) == listed_pids(listing@),
            r.1@.len() == started(listing@, known_pids(self.known@)).len() + terminated(self.known@, listed_pids(listing@)).len(),
            forall|i: int| 0 <= i < started(listing@, known_pids(self.known@)).len() ==>
                reports_start(#[trigger] r.1@[i], started(listing@, known_pids(self.known@))[i]),
            forall|i: int| 0 <= i < terminated(self.known@, listed_pids(listing@)).len() ==>
                reports_end(#[trigger] r.1@[started(listing@, known_pids(self.known@)).len() + i], terminated(self.known@, listed_pids(listing@))[i]),
            forall|i: int, j: int| 0 <= i < self.known@.len() && 0 <= j < r.0.known@.len() && self.known@[i].pid == r.0.known@[j].pid ==>
                r.0.known@[j].name@ == self.known@[i].name@ && r.0.known@[j].executable@ == self.known@[i].executable@,
            forall|j: int| 0 <= j < r.0.known@.len() && !known_pids(self.known@).contains(#[trigger] r.0.known@[j].pid) ==>
                remembered_from(r.0.known@[j], listing@),
    {
        let ghost old_known = self.known@;
        let ghost kp = known_pids(old_known);
        let ghost lp = listed_pids(listing@);
        let mut changes: Vec<ProcessChange> = Vec::new();
        // Processes seen for the first time.
        let mut i: usize = 0;
        while i < listing.len()
            invariant
                i <= listing@.len(),
                self.known@ == old_known,
                kp == known_pids(old_known),
                changes@.len() == started(listing@.subrange(0, i as int), kp).len(),
                forall|k: int| 0 <= k < changes@.len() ==> reports_start(#[trigger] changes@[k], started(listing@.subrange(0, i as int), kp)[k]),
            decreases listing.len() - i,
        {
            let p = &listing[i];
            let ghost before = changes@;
            let ghost pre = listing@.subrange(0, i as int);
            if !is_known(&self.known, p.pid) {
                changes.push(ProcessChange::Started {
                    pid: p.pid,
                    name: p.name.clone(),
                    executable: p.executable.clone(),
                    memory_kb: p.memory_bytes / 1024,
                });
            }
            i = i + 1;
            assert(listing@.subrange(0, i as int).drop_last() =~= pre);
            assert(listing@.subrange(0, i as int).last() == *p);
            assert forall|k: int| 0 <= k < changes@.len() implies reports_start(#[trigger] changes@[k], started(listing@.subrange(0, i as int), kp)[k]) by {
                if k < before.len() {
                    assert(changes@[k] == before[k]);
                }
            }
        }
        assert(listing@.subrange(0, listing.len() as int) =~= listing@);
        let ghost n_started = changes@.len();
        // Processes that are gone, and the processes still running that were known.
        let mut kept: Vec<KnownProcess> = Vec::new();
        let mut j: usize = 0;
        while j < self.known.len()
            invariant
                j <= old_known.len(),
                self.known@ == old_known,
                ProcessWatch::distinct(old_known),
                lp == listed_pids(listing@),
                n_started == started(listing@, kp).len(),
                changes@.len() == n_started + terminated(old_known.subrange(0, j as int), lp).len(),
                forall|k: int| 0 <= k < n_started ==> reports_start(#[trigger] changes@[k], started(listing@, kp)[k]),
                forall|k: int| 0 <= k < terminated(old_known.subrange(0, j as int), lp).len() ==>
                    reports_end(#[trigger] changes@[n_started + k], terminated(old_known.subrange(0, j as int), lp)[k]),
                ProcessWatch::distinct(kept@),
                forall|k: int| 0 <= k < kept@.len() ==> exists|w: int| 0 <= w < j && old_known[w].pid == (#[trigger] kept@[k]).pid
                    && old_known[w].name@ == kept@[k].name@ && old_known[w].executable@ == kept@[k].executable@,
                forall|p: u32| #[trigger] known_pids(kept@).contains(p) <==> (known_pids(old_known.subrange(0, j as int)).contains(p) && lp.contains(p)),
            decreases old_known.len() - j,
        {
            let k0 = &self.known[j];
            let ghost before = changes@;
            let ghost kept_before = kept@;
            let ghost pre = old_known.subrange(0, j as int);
            if is_listed(listing, k0.pid) {
                let c = copy_known(k0);
                assert(!known_pids(kept_before).contains(k0.pid)) by {
                    if known_pids(kept_before).contains(k0.pid) {
                        let w = choose|w: int| 0 <= w < pre.len() && #[trigger] pre[w].pid == k0.pid;
                        assert(old_known[w].pid == old_known[j as int].pid);
                    }
                }
                kept.push(c);
                assert forall|a: int, b: int| 0 <= a < b < kept@.len() implies #[trigger] kept@[a].pid != #[trigger] kept@[b].pid by {
                    if b == kept@.len() - 1 {
                        assert(kept@[a] == kept_before[a]);
                        if kept@[a].pid == k0.pid {
                            assert(known_pids(kept_before).contains(k0.pid));
                        }
                    } else {
                        assert(kept@[a] == kept_before[a] && kept@[b] == kept_before[b]);
                    }
                }
                assert forall|k: int| 0 <= k < kept@.len() implies exists|w: int| 0 <= w < j + 1 && old_known[w].pid == (#[trigger] kept@[k]).pid
                    && old_known[w].name@ == kept@[k].name@ && old_known[w].executable@ == kept@[k].executable@ by {
                    if k < kept_before.len() {
                        assert(kept@[k] == kept_before[k]);
                    } else {
                        assert(old_known[j as int].pid == kept@[k].pid);
                    }
                }
            } else {
                changes.push(ProcessChange::Terminated {
                    pid: k0.pid,
                    name: k0.name.clone(),
                    executable: k0.executable.clone(),
                });
            }
            j = j + 1;
            let ghost post = old_known.subrange(0, j as int);
            assert(post.drop_last() =~= pre);
            assert(post.last() == old_known[j - 1]);
            assert forall|k: int| 0 <= k < n_started implies reports_start(#[trigger] changes@[k], started(listing@, kp)[k]) by {
                assert(changes@[k] == before[k]);
            }
            assert forall|k: int| 0 <= k < terminated(post, lp).len() implies reports_end(#[trigger] changes@[n_started + k], terminated(post, lp)[k]) by {
                if k < terminated(pre, lp).len() {
                    assert(changes@[n_started + k] == before[n_started + k]);
                }
            }
            assert forall|p: u32| #[trigger] known_pids(kept@).contains(p) <==> (known_pids(post).contains(p) && lp.contains(p)) by {
                if known_pids(post).contains(p) {
                    let w = choose|w: int| 0 <= w < post.len() && #[trigger] post[w].pid == p;
                    if w < pre.len() {
                        assert(pre[w].pid == p);
                        if lp.contains(p) {
                            assert(known_pids(kept_before).contains(p));
                            let v = choose|v: int| 0 <= v < kept_before.len() && #[trigger] kept_before[v].pid == p;
                            assert(kept@[v].pid == p);
                        }
                    } else if lp.contains(p) {
                        assert(kept@[kept@.len() - 1].pid == p);
                    }
                }
                if known_pids(kept@).contains(p) {
                    let v = choose|v: int| 0 <= v < kept@.len() && #[trigger] kept@[v].pid == p;
                    if v < kept_before.len() {
                        assert(kept_before[v].pid == p);
                        assert(known_pids(kept_before).contains(p));
                        let w = choose|w: int| 0 <= w < pre.len() && #[trigger] pre[w].pid == p;
                        assert(post[w].pid == p);
                    } else {
                        assert(post[j - 1].pid == p);
                    }
                }
            }
        }
        assert(old_known.subrange(0, old_known.len() as int) =~= old_known);
        assert forall|k: int| 0 <= k < kept@.len() implies kp.contains(#[trigger] kept@[k].pid) by {
            let w = choose|w: int| 0 <= w < old_known.len() && old_known[w].pid == kept@[k].pid
                && old_known[w].name@ == kept@[k].name@ && old_known[w].executable@ == kept@[k].executable@;
            assert(old_known[w].pid == kept@[k].pid);
        }
        // Newly started processes join the known ones.
        let mut t: usize = 0;
        while t < listing.len()
            invariant
                t <= listing@.len(),
                ProcessWatch::distinct(kept@),
                forall|p: u32| #[trigger] known_pids(kept@).contains(p) <==> ((kp.contains(p) && lp.contains(p))
                    || listed_pids(listing@.subrange(0, t as int)).contains(p)),
                forall|k: int| 0 <= k < kept@.len() ==> kp.contains((#[trigger] kept@[k]).pid) ==> exists|w: int| 0 <= w < old_known.len() && old_known[w].pid == kept@[k].pid
                    && old_known[w].name@ == kept@[k].name@ && old_known[w].executable@ == kept@[k].executable@,
                forall|k: int| 0 <= k < kept@.len() && !kp.contains(#[trigger] kept@[k].pid) ==> remembered_from(kept@[k], listing@),
                lp == listed_pids(listing@),
                kp == known_pids(old_known),
            decreases listing.len() - t,
        {
            let p = &listing[t];
            let ghost kept_before = kept@;
            let ghost pre = listing@.subrange(0, t as int);
            if !is_known(&kept, p.pid) {
                let c = remember(p);
                kept.push(c);
                assert forall|a: int, b: int| 0 <= a < b < kept@.len() implies #[trigger] kept@[a].pid != #[trigger] kept@[b].pid by {
                    if b == kept@.len() - 1 {
                        assert(kept@[a] == kept_before[a]);
                        if kept@[a].pid == p.pid {
                            assert(known_pids(kept_before).contains(p.pid));
                        }
                    } else {
                        assert(kept@[a] == kept_before[a] && kept@[b] == kept_before[b]);
                    }
                }
                assert forall|k: int| 0 <= k < kept@.len() && kp.contains((#[trigger] kept@[k]).pid) implies exists|w: int| 0 <= w < old_known.len() && old_known[w].pid == kept@[k].pid
                    && old_known[w].name@ == kept@[k].name@ && old_known[w].executable@ == kept@[k].executable@ by {
                    if k < kept_before.len() {
                        assert(kept@[k] == kept_before[k]);
                    } else {
                        assert(lp.contains(p.pid)) by {
                            assert(listing@[t as int].pid == p.pid);
                        }
                        assert(!known_pids(kept_before).contains(p.pid));
                    }
                }
                assert forall|k: int| 0 <= k < kept@.len() && !kp.contains(#[trigger] kept@[k].pid) implies remembered_from(kept@[k], listing@) by {
                    if k < kept_before.len() {
                        assert(kept@[k] == kept_before[k]);
                    } else {
                        assert(listing@[t as int].pid == kept@[k].pid);
                    }
                }
            }
            t = t + 1;
            let ghost post = listing@.subrange(0, t as int);
            assert forall|q: u32| #[trigger] known_pids(kept@).contains(q) <==> ((kp.contains(q) && lp.contains(q))
                || listed_pids(post).contains(q)) by {
                if listed_pids(post).contains(q) {
                    let w = choose|w: int| 0 <= w < post.len() && #[trigger] post[w].pid == q;
                    if w < pre.len() {
                        assert(pre[w].pid == q);
                        assert(known_pids(kept_before).contains(q));
                        let v = choose|v: int| 0 <= v < kept_before.len() && #[trigger] kept_before[v].pid == q;
                        assert(kept@[v].pid == q);
                    } else if !known_pids(kept_before).contains(q) {
                        assert(kept@[kept@.len() - 1].pid == q);
                    } else {
                        let v = choose|v: int| 0 <= v < kept_before.len() && #[trigger] kept_before[v].pid == q;
                        assert(kept@[v].pid == q);
                    }
                }
                if kp.contains(q) && lp.contains(q) {
                    assert(known_pids(kept_before).contains(q));
                    let v = choose|v: int| 0 <= v < kept_before.len() && #[trigger] kept_before[v].pid == q;
                    assert(kept@[v].pid == q);
                }
                if known_pids(kept@).contains(q) {
                    let v = choose|v: int| 0 <= v < kept@.len() && #[trigger] kept@[v].pid == q;
                    if v < kept_before.len() {
                        assert(kept_before[v].pid == q);
                        assert(known_pids(kept_before).contains(q));
                        if listed_pids(pre).contains(q) {
                            let w = choose|w: int| 0 <= w < pre.len() && #[trigger] pre[w].pid == q;
                            assert(post[w].pid == q);
                        }
                    } else {
                        assert(post[t - 1].pid == q);
                    }
                }
            }
        }
        assert(listing@.subrange(0, listing.len() as int) =~= listing@);
        assert(known_pids(kept@) =~= lp) by {
            assert forall|q: u32| known_pids(kept@).contains(q) <==> lp.contains(q) by {
                assert(known_pids(kept@).contains(q) <==> ((kp.contains(q) && lp.contains(q)) || listed_pids(listing@).contains(q)));
            }
        }
        assert forall|a: int, b: int| 0 <= a < old_known.len() && 0 <= b < kept@.len() && old_known[a].pid == kept@[b].pid implies
            kept@[b].name@ == old_known[a].name@ && kept@[b].executable@ == old_known[a].executable@ by {
            assert(kp.contains(kept@[b].pid)) by {
                assert(old_known[a].pid == kept@[b].pid);
            }
            let w = choose|w: int| 0 <= w < old_known.len() && old_known[w].pid == kept@[b].pid
                && old_known[w].name@ == kept@[b].name@ && old_known[w].executable@ == kept@[b].executable@;
            if w != a {
                if w < a {
                    assert(old_known[w].pid != old_known[a].pid);
                } else {
                    assert(old_known[a].pid != old_known[w].pid);
                }
            }
        }
        (ProcessWatch { known: kept }, changes)
    }

    /// Compares a new listing with what is known: reports the processes that started
    /// (listing order) and then those that terminated (known order), and remembers
    /// the new listing. A process keeps the name and executable it was first seen with.
    pub fn poll(&mut self, listing: &Vec<ProcessInfo>) -> (r: Vec<ProcessChange>)
        requires
            ProcessWatch::distinct(old(self).spec_known()),
        ensures
            ProcessWatch::distinct(final(self).spec_known()),
            known_pids(final(self).spec_known()) == listed_pids(listing@),
            r@.len() == started(listing@, known_pids(old(self).spec_known())).len()
                + terminated(old(self).spec_known(), listed_pids(listing@)).len(),
            forall|i: int| 0 <= i < started(listing@, known_pids(old(self).spec_known())).len() ==>
                reports_start(#[trigger] r@[i], started(listing@, known_pids(old(self).spec_known()))[i]),
            forall|i: int| 0 <= i < terminated(old(self).spec_known(), listed_pids(listing@)).len() ==>
                reports_end(
                    #[trigger] r@[started(listing@, known_pids(old(self).spec_known())).len() + i],
                    terminated(old(self).spec_known(), listed_pids(listing@))[i],
                ),
            forall|i: int, j: int|
                0 <= i < old(self).spec_known().len() && 0 <= j < final(self).spec_known().len()
                    && old(self).spec_known()[i].pid == final(self).spec_known()[j].pid ==>
                final(self).spec_known()[j].name@ == old(self).spec_known()[i].name@
                    && final(self).spec_known()[j].executable@ == old(self).spec_known()[i].executable@,
            forall|j: int|
                0 <= j < final(self).spec_known().len() && !known_pids(old(self).spec_known()).contains(
                    #[trigger] final(self).spec_known()[j].pid,
                ) ==> remembered_from(final(self).spec_known()[j], listing@),
    {
        let mut current: Vec<KnownProcess> = Vec::new();
        std::mem::swap(&mut current, &mut self.known);
        let (next, changes) = (ProcessWatch { known: current }).poll_from(listing);
        self.known = next.known;
        changes
    }
}

/// A poll reports as started only processes that were not known and are listed, and
/// as terminated only processes that were known and are no longer listed.
pub proof fn poll_reports_only_changes(listing: Seq<ProcessInfo>, known: Seq<KnownProcess>)
    ensures
        forall|i: int| 0 <= i < started(listing, known_pids(known)).len() ==>
            !known_pids(known).contains(#[trigger] started(listing, known_pids(known))[i].pid)
                && listed_pids(listing).contains(started(listing, known_pids(known))[i].pid),
        forall|i: int| 0 <= i < terminated(known, listed_pids(listing)).len() ==>
            known_pids(known).contains(#[trigger] terminated(known, listed_pids(listing))[i].pid)
                && !listed_pids(listing).contains(terminated(known, listed_pids(listing))[i].pid),
{
    started_members(listing, known_pids(known));
    terminated_members(known, listed_pids(listing));
}

proof fn started_members(listing: Seq<ProcessInfo>, known: Set<u32>)
    ensures
        forall|i: int| 0 <= i < started(listing, known).len() ==> !known.contains(#[trigger] started(listing, known)[i].pid)
            && listed_pids(listing).contains(started(listing, known)[i].pid),
    decreases listing.len(),
{
    if listing.len() > 0 {
        let init = listing.drop_last();
        started_members(init, known);
        assert forall|i: int| 0 <= i < started(listing, known).len() implies !known.contains(#[trigger] started(listing, known)[i].pid)
            && listed_pids(listing).contains(started(listing, known)[i].pid) by {
            let s0 = started(init, known);
            if i < s0.len() {
                assert(started(listing, known)[i] == s0[i]);
                let w = choose|w: int| 0 <= w < init.len() && #[trigger] init[w].pid == s0[i].pid;
                assert(listing[w].pid == s0[i].pid);
            } else {
                assert(started(listing, known)[i] == listing.last());
                assert(listing[listing.len() - 1].pid == listing.last().pid);
            }
        }
    }
}

proof fn terminated_members(known: Seq<KnownProcess>, current: Set<u32>)
    ensures
        forall|i: int| 0 <= i < terminated(known, current).len() ==> !current.contains(#[trigger] terminated(known, current)[i].pid)
            && known_pids(known).contains(terminated(known, current)[i].pid),
    decreases known.len(),
{
    if known.len() > 0 {
        let init = known.drop_last();
        terminated_members(init, current);
        assert forall|i: int| 0 <= i < terminated(known, current).len() implies !current.contains(#[trigger] terminated(known, current)[i].pid)
            && known_pids(known).contains(terminated(known, current)[i].pid) by {
            let t0 = terminated(init, current);
            if i < t0.len() {
                assert(terminated(known, current)[i] == t0[i]);
                let w = choose|w: int| 0 <= w < init.len() && #[trigger] init[w].pid == t0[i].pid;
                assert(known[w].pid == t0[i].pid);
            } else {
                assert(terminated(known, current)[i] == known.last());
                assert(known[known.len() - 1].pid == known.last().pid);
            }
        }
    }
}

/// Every listed process whose id was not known is reported as started: the entry
/// itself is among the started ones, whatever its place in the listing.
pub proof fn every_new_process_is_started(listing: Seq<ProcessInfo>, known: Set<u32>, i: int)
    requires
        0 <= i < listing.len(),
        !known.contains(listing[i].pid),
    ensures
        exists|k: int| 0 <= k < started(listing, known).len() && #[trigger] started(listing, known)[k] == listing[i],
    decreases listing.len(),
{
    let init = listing.drop_last();
    if i == listing.len() - 1 {
        let k = started(init, known).len() as int;
        assert(started(listing, known)[k] == listing[i]);
    } else {
        assert(init[i] == listing[i]);
        every_new_process_is_started(init, known, i);
        let k = choose|k: int| 0 <= k < started(init, known).len() && #[trigger] started(init, known)[k] == init[i];
        assert(started(listing, known)[k] == started(init, known)[k]);
    }
}

/// Every known process that is no longer listed is reported as terminated, with what
/// was remembered of it.
pub proof fn every_vanished_process_is_terminated(known: Seq<KnownProcess>, current: Set<u32>, i: int)
    requires
        0 <= i < known.len(),
        !current.contains(known[i].pid),
    ensures
        exists|k: int| 0 <= k < terminated(known, current).len() && #[trigger] terminated(known, current)[k] == known[i],
    decreases known.len(),
{
    let init = known.drop_last();
    if i == known.len() - 1 {
        let k = terminated(init, current).len() as int;
        assert(terminated(known, current)[k] == known[i]);
    } else {
        assert(init[i] == known[i]);
        every_vanished_process_is_terminated(init, current, i);
        let k = choose|k: int| 0 <= k < terminated(init, current).len() && #[trigger] terminated(init, current)[k] == init[i];
        assert(terminated(known, current)[k] == terminated(init, current)[k]);
    }
}

} // verus!
