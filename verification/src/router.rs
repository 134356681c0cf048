//! The session-scoped file-change notification router.
//!
//! The router is the single authority over subscriber registration,
//! per-session watch sets and change fan-out. All of its state transitions
//! are ordinary (synchronous) functions here; the surrounding program runs
//! the message loop, performs the I/O each decision calls for — pushing a
//! notification into a sink, arming the native watcher — and feeds the
//! outcomes back in.
//!
//! A subscriber's sink is referred to by a numeric handle chosen by the
//! caller; the router never touches the transport itself.

use vstd::prelude::*;

use crate::event::{EventKind, FileChangeEvent};
use crate::os_string::{OsStrView, PortableOsString};

verus! {

/// The lifecycle of the router's message loop.
#[derive(Clone, Copy, Debug, PartialEq, Eq, Structural)]
pub enum RouterPhase {
    /// No subscriber has ever been registered.
    AwaitingFirstSubscriber,
    /// At least one subscriber has been registered at some point.
    Active,
    /// The message loop is directed to exit; no further work is done.
    Terminated,
}

/// How a watch on a path is to be armed.
#[derive(Clone, Copy, Debug, PartialEq, Eq, Structural)]
pub enum WatchMode {
    Recursive,
    NonRecursive,
}

/// A failure reported by the native watcher when arming a watch.
#[derive(Clone, Debug)]
pub struct WatchError {
    pub message: String,
}

/// A demand that the native watcher be armed on `path` with `mode`, to be
/// performed by the caller.
#[derive(Clone, Debug)]
pub struct ArmRequest {
    pub path: PortableOsString,
    pub mode: WatchMode,
}

/// One notification to push: the subscriber (by session and sink handle) and
/// the path it is told has changed.
#[derive(Clone, Debug)]
pub struct Notification {
    pub session: String,
    pub sink: u64,
    pub path: PortableOsString,
}

/// Everything one file-change event requires of the caller: re-arm the watch
/// first if demanded, then push each notification.
#[derive(Debug)]
pub struct FileChangePlan {
    pub arm: Option<ArmRequest>,
    pub notifications: Vec<Notification>,
}

/// A single step of work for the caller, in the order the plan lists them.
#[derive(Debug)]
pub enum RouterAction {
    Arm(ArmRequest),
    Notify(Notification),
}

impl FileChangePlan {
    /// Whether the plan notifies session `sid`.
    pub open spec fn notifies(self, sid: Seq<char>) -> bool {
        exists|k: int|
            0 <= k < self.notifications@.len() && (#[trigger] self.notifications@[k]).session@
                == sid
    }

    /// How [`FileChangePlan::into_actions`] lays a plan out: the re-arm, if
    /// any, comes first, then the notifications in plan order.
    pub open spec fn actions_of(self, acts: Seq<RouterAction>) -> bool {
        match self.arm {
            Some(a) => {
                &&& acts.len() == self.notifications@.len() + 1
                &&& acts[0] == RouterAction::Arm(a)
                &&& forall|k: int|
                    1 <= k < acts.len() ==> #[trigger] acts[k] == RouterAction::Notify(
                        self.notifications@[k - 1],
                    )
            },
            None => {
                &&& acts.len() == self.notifications@.len()
                &&& forall|k: int|
                    0 <= k < acts.len() ==> #[trigger] acts[k] == RouterAction::Notify(
                        self.notifications@[k],
                    )
            },
        }
    }

    /// Flattens the plan into the order the caller must perform it: the
    /// watch is re-armed before any subscriber hears of the change.
    pub fn into_actions(self) -> (acts: Vec<RouterAction>)
        ensures
            self.actions_of(acts@),
    {
        let ghost plan0 = self;
        let FileChangePlan { arm, notifications } = self;
        let ghost orig = notifications@;
        let mut acts: Vec<RouterAction> = Vec::new();
        let ghost offset: int = if arm is Some {
            1
        } else {
            0
        };
        match arm {
            Some(a) => {
                acts.push(RouterAction::Arm(a));
            }
            None => {}
        }
        let mut rest = notifications;
        proof {
            assert(rest@ =~= orig.subrange(orig.len() - rest@.len(), orig.len() as int));
        }
        while rest.len() > 0
            invariant
                rest@.len() <= orig.len(),
                acts@.len() == offset + orig.len() - rest@.len(),
                rest@ == orig.subrange(orig.len() - rest@.len(), orig.len() as int),
                plan0.arm matches Some(a0) ==> offset == 1 && acts@[0] == RouterAction::Arm(a0),
                plan0.arm is None ==> offset == 0,
                forall|k: int|
                    offset <= k < acts@.len() ==> #[trigger] acts@[k] == RouterAction::Notify(
                        orig[k - offset],
                    ),
            decreases rest@.len(),
        {
            let n = rest.remove(0);
            proof {
                assert(n == orig[acts@.len() - offset]);
            }
            acts.push(RouterAction::Notify(n));
            proof {
                assert(rest@ =~= orig.subrange(orig.len() - rest@.len(), orig.len() as int));
            }
        }
        acts
    }
}

/// A message into the router, as the inbound queue carries it.
#[derive(Debug)]
pub enum RouterMessage {
    NewConnection { id: String, sink: u64 },
    FileChange { event: FileChangeEvent },
    AddWatch { id: String, path: PortableOsString },
}

struct ConnectionEntry {
    session: String,
    sink: u64,
}

struct WatchEntry {
    session: String,
    paths: Vec<PortableOsString>,
}

/// True when no two elements of `ps` stand for the same path.
spec fn paths_distinct(ps: Seq<PortableOsString>) -> bool {
    forall|a: int, b: int| 0 <= a < b < ps.len() ==> ps[a]@ != ps[b]@
}

spec fn ce_has(cs: Seq<ConnectionEntry>, sid: Seq<char>) -> bool {
    exists|i: int| 0 <= i < cs.len() && (#[trigger] cs[i]).session@ == sid
}

spec fn ce_index(cs: Seq<ConnectionEntry>, sid: Seq<char>) -> int {
    choose|i: int| 0 <= i < cs.len() && (#[trigger] cs[i]).session@ == sid
}

spec fn ce_sink(cs: Seq<ConnectionEntry>, sid: Seq<char>) -> u64 {
    cs[ce_index(cs, sid)].sink
}

spec fn conns_wf(cs: Seq<ConnectionEntry>) -> bool {
    forall|i: int, j: int|
        0 <= i < j < cs.len() ==> (#[trigger] cs[i]).session@ != (#[trigger] cs[j]).session@
}

spec fn we_has(ws: Seq<WatchEntry>, sid: Seq<char>) -> bool {
    exists|i: int| 0 <= i < ws.len() && (#[trigger] ws[i]).session@ == sid
}

spec fn we_index(ws: Seq<WatchEntry>, sid: Seq<char>) -> int {
    choose|i: int| 0 <= i < ws.len() && (#[trigger] ws[i]).session@ == sid
}

spec fn we_paths(ws: Seq<WatchEntry>, sid: Seq<char>) -> Seq<OsStrView> {
    if we_has(ws, sid) {
        ws[we_index(ws, sid)].paths@.map_values(|q: PortableOsString| q@)
    } else {
        Seq::empty()
    }
}

spec fn watches_wf(ws: Seq<WatchEntry>) -> bool {
    &&& forall|i: int, j: int|
        0 <= i < j < ws.len() ==> (#[trigger] ws[i]).session@ != (#[trigger] ws[j]).session@
    &&& forall|i: int| 0 <= i < ws.len() ==> paths_distinct((#[trigger] ws[i]).paths@)
}

proof fn lemma_ce_at(cs: Seq<ConnectionEntry>, i: int)
    requires
        conns_wf(cs),
        0 <= i < cs.len(),
    ensures
        ce_has(cs, cs[i].session@),
        ce_index(cs, cs[i].session@) == i,
        ce_sink(cs, cs[i].session@) == cs[i].sink,
{
    let sid = cs[i].session@;
    assert(ce_has(cs, sid));
    let j = ce_index(cs, sid);
    if i < j {
        assert(cs[i].session@ != cs[j].session@);
    } else if j < i {
        assert(cs[j].session@ != cs[i].session@);
    }
}

proof fn lemma_we_at(ws: Seq<WatchEntry>, i: int)
    requires
        watches_wf(ws),
        0 <= i < ws.len(),
    ensures
        we_has(ws, ws[i].session@),
        we_index(ws, ws[i].session@) == i,
        we_paths(ws, ws[i].session@) == ws[i].paths@.map_values(|q: PortableOsString| q@),
{
    let sid = ws[i].session@;
    assert(we_has(ws, sid));
    let j = we_index(ws, sid);
    if i < j {
        assert(ws[i].session@ != ws[j].session@);
    } else if j < i {
        assert(ws[j].session@ != ws[i].session@);
    }
}

/// The routing state: connection registry, per-session watch sets, the count
/// of outstanding disconnect signals, and the loop phase.
pub struct Router {
    connections: Vec<ConnectionEntry>,
    watches: Vec<WatchEntry>,
    pending_completions: usize,
    phase: RouterPhase,
}

impl Router {
    /// The loop phase the router is in.
    pub closed spec fn phase(self) -> RouterPhase {
        self.phase
    }

    /// How many disconnect signals are outstanding: one per registration not
    /// yet resolved.
    pub closed spec fn pending(self) -> nat {
        self.pending_completions as nat
    }

    /// Whether a sink is registered for session `sid`.
    pub closed spec fn has_connection(self, sid: Seq<char>) -> bool {
        ce_has(self.connections@, sid)
    }

    /// The sink handle registered for session `sid` (meaningful only when
    /// `has_connection(sid)`).
    pub closed spec fn sink_of(self, sid: Seq<char>) -> u64 {
        ce_sink(self.connections@, sid)
    }

    /// The paths session `sid` has asked to watch, as abstract values. A
    /// session that never asked for a watch has the empty sequence.
    pub closed spec fn watched_paths(self, sid: Seq<char>) -> Seq<OsStrView> {
        we_paths(self.watches@, sid)
    }

    /// Whether path `p` is an exact member of session `sid`'s watch set.
    pub closed spec fn session_watches(self, sid: Seq<char>, p: OsStrView) -> bool {
        self.watched_paths(sid).contains(p)
    }

    /// Connects membership to the watch-set sequence, for callers that hold
    /// one but not the other.
    pub proof fn lemma_session_watches_is_membership(self, sid: Seq<char>, p: OsStrView)
        ensures
            self.session_watches(sid, p) == self.watched_paths(sid).contains(p),
    {
    }

    /// Whether any session at all watches path `p`.
    pub open spec fn any_session_watches(self, p: OsStrView) -> bool {
        exists|sid: Seq<char>| self.session_watches(sid, p)
    }

    /// Well-formedness: sessions are unique in the registry and among watch
    /// sets, and each watch set holds each path at most once.
    pub closed spec fn wf(self) -> bool {
        &&& conns_wf(self.connections@)
        &&& watches_wf(self.watches@)
    }

    /// A router as it stands at startup: empty registry, no watch sets, no
    /// outstanding disconnect signals, awaiting its first subscriber.
    pub closed spec fn is_initial(self) -> bool {
        &&& self.connections@.len() == 0
        &&& self.watches@.len() == 0
        &&& self.pending_completions == 0
        &&& self.phase == RouterPhase::AwaitingFirstSubscriber
    }

    /// What the initial state guarantees: nothing is registered, nothing is
    /// watched, nothing is pending.
    pub proof fn lemma_initial_properties(self)
        requires
            self.is_initial(),
        ensures
            self.wf(),
            self.phase() == RouterPhase::AwaitingFirstSubscriber,
            self.pending() == 0,
            forall|sid: Seq<char>| !self.has_connection(sid),
            forall|sid: Seq<char>| #[trigger] self.watched_paths(sid) == Seq::<OsStrView>::empty(),
            forall|sid: Seq<char>, p: OsStrView| !self.session_watches(sid, p),
    {
        assert forall|sid: Seq<char>| #[trigger] self.watched_paths(sid) == Seq::<
            OsStrView,
        >::empty() by {
            assert(!we_has(self.watches@, sid));
        }
        assert forall|sid: Seq<char>, p: OsStrView| !self.session_watches(sid, p) by {
            assert(!we_has(self.watches@, sid));
        }
    }

    /// Creates the router's startup state.
    pub fn new() -> (r: Router)
        ensures
            r.wf(),
            r.is_initial(),
    {
        Router {
            connections: Vec::new(),
            watches: Vec::new(),
            pending_completions: 0,
            phase: RouterPhase::AwaitingFirstSubscriber,
        }
    }

    /// Finds the registry slot holding session `id`, if any.
    fn find_connection(&self, id: &String) -> (r: Option<usize>)
        ensures
            match r {
                Some(i) => i < self.connections@.len() && self.connections@[i as int].session@
                    == id@,
                None => !self.has_connection(id@),
            },
    {
        let mut i: usize = 0;
        while i < self.connections.len()
            invariant
                i <= self.connections@.len(),
                forall|j: int| 0 <= j < i ==> (#[trigger] self.connections@[j]).session@ != id@,
            decreases self.connections@.len() - i,
        {
            if self.connections[i].session == *id {
                return Some(i);
            }
            i += 1;
        }
        None
    }

    /// The full effect of [`Router::handle_new_connection`], relating the
    /// state before (`pre`) and after (`post`) registering `sid` with `sink`.
    pub open spec fn new_connection_post(
        pre: Router,
        post: Router,
        sid: Seq<char>,
        sink: u64,
    ) -> bool {
        &&& post.phase() == RouterPhase::Active
        &&& post.pending() == pre.pending() + 1
        &&& post.has_connection(sid)
        &&& post.sink_of(sid) == sink
        &&& forall|s: Seq<char>|
            s != sid ==> (#[trigger] post.has_connection(s)) == pre.has_connection(s)
        &&& forall|s: Seq<char>|
            s != sid && pre.has_connection(s) ==> (#[trigger] post.sink_of(s)) == pre.sink_of(s)
        &&& forall|s: Seq<char>| (#[trigger] post.watched_paths(s)) == pre.watched_paths(s)
    }

    /// What one notification of a plan must satisfy: it carries the changed
    /// path to a registered sink whose session watches that path.
    pub open spec fn notification_ok(self, p: OsStrView, n: Notification) -> bool {
        &&& n.path@ == p
        &&& self.has_connection(n.session@)
        &&& n.sink == self.sink_of(n.session@)
        &&& self.session_watches(n.session@, p)
    }

    /// The full effect of [`Router::route_file_change`] for a change of path
    /// `p` with kind `kind`: notifications go exactly to the sessions that
    /// watch `p`, at most once each, and a rename demands one re-arm of the
    /// watch on `p` (non-recursively) whenever anyone watches it.
    pub open spec fn plan_ok(self, p: OsStrView, kind: EventKind, plan: FileChangePlan) -> bool {
        &&& forall|k: int|
            0 <= k < plan.notifications@.len() ==> self.notification_ok(
                p,
                #[trigger] plan.notifications@[k],
            )
        &&& forall|sid: Seq<char>|
            #[trigger] self.has_connection(sid) && self.session_watches(sid, p)
                ==> plan.notifies(sid)
        &&& forall|k1: int, k2: int|
            0 <= k1 < k2 < plan.notifications@.len() ==> plan.notifications@[k1].session@
                != plan.notifications@[k2].session@
        &&& (plan.arm is Some <==> kind == EventKind::RenameTo && self.any_session_watches(p))
        &&& (plan.arm matches Some(a) ==> a.path@ == p && a.mode == WatchMode::NonRecursive)
    }

    /// Checks whether `p` is one of the paths in `paths`, by abstract value.
    fn paths_contain(paths: &Vec<PortableOsString>, p: &PortableOsString) -> (r: bool)
        ensures
            r == paths@.map_values(|q: PortableOsString| q@).contains(p@),
    {
        let ghost views = paths@.map_values(|q: PortableOsString| q@);
        let mut i: usize = 0;
        while i < paths.len()
            invariant
                i <= paths@.len(),
                views == paths@.map_values(|q: PortableOsString| q@),
                forall|j: int| 0 <= j < i ==> views[j] != p@,
            decreases paths@.len() - i,
        {
            if paths[i] == *p {
                proof {
                    assert(views[i as int] == p@);
                }
                return true;
            }
            i += 1;
        }
        proof {
            assert(forall|j: int| 0 <= j < views.len() ==> views[j] != p@);
        }
        false
    }

    /// Finds the watch-set slot holding session `id`, if any.
    fn find_watch_entry(&self, id: &String) -> (r: Option<usize>)
        ensures
            match r {
                Some(i) => i < self.watches@.len() && self.watches@[i as int].session@ == id@,
                None => !we_has(self.watches@, id@),
            },
    {
        let mut i: usize = 0;
        while i < self.watches.len()
            invariant
                i <= self.watches@.len(),
                forall|j: int| 0 <= j < i ==> (#[trigger] self.watches@[j]).session@ != id@,
            decreases self.watches@.len() - i,
        {
            if self.watches[i].session == *id {
                return Some(i);
            }
            i += 1;
        }
        None
    }

    /// Decides whether session `id` watches path `p`.
    fn session_watches_exec(&self, id: &String, p: &PortableOsString) -> (r: bool)
        requires
            self.wf(),
        ensures
            r == self.session_watches(id@, p@),
    {
        match self.find_watch_entry(id) {
            Some(i) => {
                proof {
                    lemma_we_at(self.watches@, i as int);
                }
                Self::paths_contain(&self.watches[i].paths, p)
            }
            None => {
                proof {
                    assert(self.watched_paths(id@) == Seq::<OsStrView>::empty());
                }
                false
            }
        }
    }

    /// Decides whether any session watches path `p`.
    fn any_session_watches_exec(&self, p: &PortableOsString) -> (r: bool)
        requires
            self.wf(),
        ensures
            r == self.any_session_watches(p@),
    {
        let mut i: usize = 0;
        while i < self.watches.len()
            invariant
                self.wf(),
                i <= self.watches@.len(),
                forall|j: int|
                    0 <= j < i ==> !(#[trigger] self.watches@[j]).paths@.map_values(
                        |q: PortableOsString| q@,
                    ).contains(p@),
            decreases self.watches@.len() - i,
        {
            if Self::paths_contain(&self.watches[i].paths, p) {
                proof {
                    lemma_we_at(self.watches@, i as int);
                    assert(self.session_watches(self.watches@[i as int].session@, p@));
                }
                return true;
            }
            i += 1;
        }
        proof {
            assert forall|sid: Seq<char>| !self.session_watches(sid, p@) by {
                if self.watched_paths(sid).contains(p@) {
                    assert(we_has(self.watches@, sid));
                    let j = we_index(self.watches@, sid);
                    assert(0 <= j < self.watches@.len() && self.watches@[j].session@ == sid);
                    assert(self.watches@[j].paths@.map_values(|q: PortableOsString| q@).contains(
                        p@,
                    ));
                }
            }
        }
        false
    }

    /// Decides everything one file change demands: which subscribers to
    /// notify (exactly those whose watch set holds the path, once each), and
    /// whether the watch must be re-armed first because the path was renamed
    /// into place.
    #[verifier::rlimit(50)]
    pub fn route_file_change(&self, path: &PortableOsString, kind: EventKind) -> (plan:
        FileChangePlan)
        requires
            self.wf(),
        ensures
            self.plan_ok(path@, kind, plan),
    {
        let arm: Option<ArmRequest> = if kind == EventKind::RenameTo
            && self.any_session_watches_exec(path) {
            Some(ArmRequest { path: path.clone(), mode: WatchMode::NonRecursive })
        } else {
            None
        };
        let ghost cs = self.connections@;
        let mut notifications: Vec<Notification> = Vec::new();
        let mut i: usize = 0;
        while i < self.connections.len()
            invariant
                self.wf(),
                cs == self.connections@,
                i <= cs.len(),
                forall|k: int|
                    0 <= k < notifications@.len() ==> exists|j: int|
                        0 <= j < i && (#[trigger] notifications@[k]).session@ == cs[j].session@
                            && notifications@[k].sink == cs[j].sink,
                forall|k: int|
                    0 <= k < notifications@.len() ==> (#[trigger] notifications@[k]).path@
                        == path@ && self.session_watches(notifications@[k].session@, path@),
                forall|j: int|
                    0 <= j < i && self.session_watches((#[trigger] cs[j]).session@, path@)
                        ==> exists|k: int|
                        0 <= k < notifications@.len() && (#[trigger] notifications@[k]).session@
                            == cs[j].session@,
                forall|k1: int, k2: int|
                    0 <= k1 < k2 < notifications@.len() ==> notifications@[k1].session@
                        != notifications@[k2].session@,
            decreases cs.len() - i,
        {
            let entry = &self.connections[i];
            if self.session_watches_exec(&entry.session, path) {
                proof {
                    assert forall|k: int| 0 <= k < notifications@.len()
                        implies notifications@[k].session@ != cs[i as int].session@ by {
                        let j = choose|j: int|
                            0 <= j < i && notifications@[k].session@ == cs[j].session@
                                && notifications@[k].sink == cs[j].sink;
                        assert(cs[j].session@ != cs[i as int].session@);
                    }
                }
                let ghost pre = notifications@;
                let n = Notification {
                    session: entry.session.clone(),
                    sink: entry.sink,
                    path: path.clone(),
                };
                proof {
                    assert(n.session@ == cs[i as int].session@);
                }
                notifications.push(n);
                proof {
                    let m = pre.len() as int;
                    assert(notifications@ == pre.push(notifications@[m]));
                    assert forall|k: int| 0 <= k < notifications@.len() implies exists|j: int|
                        0 <= j < i + 1 && (#[trigger] notifications@[k]).session@ == cs[j].session@
                            && notifications@[k].sink == cs[j].sink by {
                        if k < m {
                            assert(notifications@[k] == pre[k]);
                            let j = choose|j: int|
                                0 <= j < i && pre[k].session@ == cs[j].session@ && pre[k].sink
                                    == cs[j].sink;
                            assert(0 <= j < i + 1 && notifications@[k].session@ == cs[j].session@
                                && notifications@[k].sink == cs[j].sink);
                        } else {
                            let j = i as int;
                            assert(0 <= j < i + 1 && notifications@[k].session@ == cs[j].session@
                                && notifications@[k].sink == cs[j].sink);
                        }
                    }
                    assert forall|j: int|
                        0 <= j < i + 1 && self.session_watches(
                            (#[trigger] cs[j]).session@,
                            path@,
                        ) implies exists|k: int|
                        0 <= k < notifications@.len() && (#[trigger] notifications@[k]).session@
                            == cs[j].session@ by {
                        if j < i {
                            let k = choose|k: int|
                                0 <= k < pre.len() && (#[trigger] pre[k]).session@
                                    == cs[j].session@;
                            assert(notifications@[k] == pre[k]);
                            assert(notifications@[k].session@ == cs[j].session@);
                        } else {
                            assert(notifications@[m].session@ == cs[j].session@);
                        }
                    }
                }
            }
            i += 1;
        }
        let plan = FileChangePlan { arm, notifications };
        proof {
            assert forall|k: int| 0 <= k < plan.notifications@.len() implies self.notification_ok(
                path@,
                plan.notifications@[k],
            ) by {
                let j = choose|j: int|
                    0 <= j < cs.len() && plan.notifications@[k].session@ == cs[j].session@
                        && plan.notifications@[k].sink == cs[j].sink;
                lemma_ce_at(cs, j);
            }
            assert forall|sid: Seq<char>|
                self.has_connection(sid) && self.session_watches(sid, path@)
                implies plan.notifies(sid) by {
                let j = ce_index(cs, sid);
                assert(0 <= j < cs.len() && cs[j].session@ == sid);
            }
        }
        plan
    }

    /// Registers (or re-registers) a subscriber: records `sink` as the sole
    /// outbound handle for session `id`, overwriting any prior registration,
    /// counts one more outstanding disconnect signal, and moves the loop to
    /// `Active`.
    pub fn handle_new_connection(&mut self, id: String, sink: u64)
        requires
            old(self).wf(),
            old(self).pending() < usize::MAX,
        ensures
            final(self).wf(),
            Self::new_connection_post(*old(self), *final(self), id@, sink),
    {
        let ghost pre_cs = self.connections@;
        let ghost sid = id@;
        let found = self.find_connection(&id);
        match found {
            Some(i) => {
                self.connections.set(i, ConnectionEntry { session: id, sink });
                proof {
                    lemma_ce_update(pre_cs, self.connections@, i as int, sid, sink);
                }
            }
            None => {
                self.connections.push(ConnectionEntry { session: id, sink });
                proof {
                    lemma_ce_push(pre_cs, self.connections@, sid, sink);
                }
            }
        }
        self.pending_completions = self.pending_completions + 1;
        self.phase = RouterPhase::Active;
    }

    /// The registry and its sinks are untouched between `pre` and `post`.
    pub open spec fn same_connections(pre: Router, post: Router) -> bool {
        &&& forall|s: Seq<char>| (#[trigger] post.has_connection(s)) == pre.has_connection(s)
        &&& forall|s: Seq<char>|
            pre.has_connection(s) ==> (#[trigger] post.sink_of(s)) == pre.sink_of(s)
    }

    /// Every session's watch set is untouched between `pre` and `post`.
    pub open spec fn same_watch_sets(pre: Router, post: Router) -> bool {
        forall|s: Seq<char>| (#[trigger] post.watched_paths(s)) == pre.watched_paths(s)
    }

    /// The watch the router demands for an `AddWatch` request: the exact
    /// requested path, armed non-recursively. The caller performs it and
    /// reports the outcome to [`Router::complete_add_watch`].
    pub fn add_watch_request(&self, path: &PortableOsString) -> (r: ArmRequest)
        ensures
            r.path@ == path@,
            r.mode == WatchMode::NonRecursive,
    {
        ArmRequest { path: path.clone(), mode: WatchMode::NonRecursive }
    }

    /// The full effect of [`Router::complete_add_watch`]: on a successful
    /// arm, `p` joins `sid`'s watch set (appended once, never twice) and
    /// nothing else moves; on a failed arm, the state is untouched except
    /// that the loop is directed to terminate, and the failure is handed
    /// back to the caller.
    pub open spec fn add_watch_post(
        pre: Router,
        post: Router,
        sid: Seq<char>,
        p: OsStrView,
        outcome: Result<(), WatchError>,
        r: Result<(), WatchError>,
    ) -> bool {
        &&& r == outcome
        &&& post.pending() == pre.pending()
        &&& Self::same_connections(pre, post)
        &&& match outcome {
            Ok(_) => {
                &&& post.phase() == pre.phase()
                &&& post.session_watches(sid, p)
                &&& post.watched_paths(sid) == if pre.session_watches(sid, p) {
                    pre.watched_paths(sid)
                } else {
                    pre.watched_paths(sid).push(p)
                }
                &&& forall|q: OsStrView|
                    q != p ==> (#[trigger] post.session_watches(sid, q)) == pre.session_watches(
                        sid,
                        q,
                    )
                &&& forall|s: Seq<char>|
                    s != sid ==> (#[trigger] post.watched_paths(s)) == pre.watched_paths(s)
            },
            Err(_) => {
                &&& post.phase() == RouterPhase::Terminated
                &&& Self::same_watch_sets(pre, post)
            },
        }
    }

    /// Records the outcome of arming the watch that an
    /// `AddWatch { id, path }` message demanded. Success records the path in
    /// the session's watch set; failure is fatal — there is no fallback
    /// watch mechanism, so the router is directed to terminate rather than
    /// continue with a path it cannot observe.
    pub fn complete_add_watch(
        &mut self,
        id: String,
        path: PortableOsString,
        outcome: Result<(), WatchError>,
    ) -> (r: Result<(), WatchError>)
        requires
            old(self).wf(),
        ensures
            final(self).wf(),
            Self::add_watch_post(*old(self), *final(self), id@, path@, outcome, r),
    {
        match &outcome {
            Err(_) => {
                self.phase = RouterPhase::Terminated;
                outcome
            }
            Ok(_) => {
                let ghost pre_ws = self.watches@;
                let ghost sid = id@;
                let ghost pv = path@;
                let found = self.find_watch_entry(&id);
                match found {
                    Some(i) => {
                        proof {
                            lemma_we_at(pre_ws, i as int);
                        }
                        let mut entry = self.watches.remove(i);
                        let already = Self::paths_contain(&entry.paths, &path);
                        let ghost entry_paths0 = entry.paths@;
                        if !already {
                            entry.paths.push(path);
                            proof {
                                let vs = entry_paths0.map_values(|q: PortableOsString| q@);
                                let vs2 = entry.paths@.map_values(|q: PortableOsString| q@);
                                assert(vs2 =~= vs.push(pv));
                                assert forall|a: int, b: int|
                                    0 <= a < b < entry.paths@.len() implies entry.paths@[a]@
                                    != entry.paths@[b]@ by {
                                    if b < entry_paths0.len() {
                                        assert(paths_distinct(entry_paths0));
                                    } else {
                                        assert(vs[a] == entry.paths@[a]@);
                                    }
                                }
                            }
                        }
                        self.watches.insert(i, entry);
                        proof {
                            assert(self.watches@ =~= pre_ws.update(
                                i as int,
                                self.watches@[i as int],
                            ));
                            lemma_we_set(pre_ws, self.watches@, i as int, sid);
                            let vs = pre_ws[i as int].paths@.map_values(|q: PortableOsString| q@);
                            let vs2 = self.watches@[i as int].paths@.map_values(
                                |q: PortableOsString| q@,
                            );
                            if vs.contains(pv) {
                                assert(vs2 == vs);
                            } else {
                                assert(vs2 == vs.push(pv));
                                assert(vs2.contains(pv)) by {
                                    assert(vs2[vs.len() as int] == pv);
                                }
                                assert forall|q: OsStrView| q != pv implies vs2.contains(q)
                                    == vs.contains(q) by {
                                    if vs2.contains(q) {
                                        let k = choose|k: int|
                                            0 <= k < vs2.len() && vs2[k] == q;
                                        assert(k < vs.len());
                                        assert(vs[k] == q);
                                    }
                                    if vs.contains(q) {
                                        let k = choose|k: int| 0 <= k < vs.len() && vs[k] == q;
                                        assert(vs2[k] == q);
                                    }
                                }
                            }
                        }
                        outcome
                    }
                    None => {
                        let mut paths: Vec<PortableOsString> = Vec::new();
                        paths.push(path);
                        self.watches.push(WatchEntry { session: id, paths });
                        proof {
                            let n = pre_ws.len() as int;
                            lemma_we_push(pre_ws, self.watches@, sid);
                            let vs2 = self.watches@[n].paths@.map_values(
                                |q: PortableOsString| q@,
                            );
                            assert(vs2 =~= Seq::empty().push(pv));
                            assert(vs2.contains(pv)) by {
                                assert(vs2[0] == pv);
                            }
                            assert(we_paths(pre_ws, sid) == Seq::<OsStrView>::empty());
                            assert(we_paths(pre_ws, sid).push(pv) =~= vs2);
                            assert forall|q: OsStrView| q != pv implies vs2.contains(q)
                                == we_paths(pre_ws, sid).contains(q) by {
                                if vs2.contains(q) {
                                    let k = choose|k: int| 0 <= k < vs2.len() && vs2[k] == q;
                                    assert(vs2[k] == pv);
                                }
                            }
                        }
                        outcome
                    }
                }
            }
        }
    }

    /// The full effect of [`Router::handle_completion`]: the session's
    /// registry entry is gone, one outstanding signal fewer remains, and
    /// nothing else moves. Watch sets are deliberately never pruned, so a
    /// returning session keeps its interests.
    pub open spec fn completion_post(pre: Router, post: Router, sid: Seq<char>) -> bool {
        &&& !post.has_connection(sid)
        &&& forall|s: Seq<char>|
            s != sid ==> (#[trigger] post.has_connection(s)) == pre.has_connection(s)
        &&& forall|s: Seq<char>|
            s != sid && pre.has_connection(s) ==> (#[trigger] post.sink_of(s)) == pre.sink_of(s)
        &&& Self::same_watch_sets(pre, post)
        &&& post.phase() == pre.phase()
        &&& post.pending() == if pre.pending() > 0 {
            (pre.pending() - 1) as nat
        } else {
            0
        }
    }

    /// Resolves one disconnect signal: the subscriber for session `id` is
    /// gone, so its sink leaves the registry and one fewer signal remains
    /// outstanding.
    pub fn handle_completion(&mut self, id: &String)
        requires
            old(self).wf(),
        ensures
            final(self).wf(),
            Self::completion_post(*old(self), *final(self), id@),
    {
        let ghost pre_cs = self.connections@;
        let found = self.find_connection(id);
        match found {
            Some(i) => {
                self.connections.remove(i);
                proof {
                    lemma_ce_remove(pre_cs, self.connections@, i as int, id@);
                }
            }
            None => {}
        }
        if self.pending_completions > 0 {
            self.pending_completions = self.pending_completions - 1;
        }
    }

    /// The full effect of [`Router::handle_completions_drained`].
    pub open spec fn drained_post(pre: Router, post: Router, terminate: bool) -> bool {
        &&& terminate == (pre.phase() == RouterPhase::Active)
        &&& post.phase() == if terminate {
            RouterPhase::Terminated
        } else {
            pre.phase()
        }
        &&& post.pending() == pre.pending()
        &&& Self::same_connections(pre, post)
        &&& Self::same_watch_sets(pre, post)
    }

    /// Decides what an empty completion queue means. Before any subscriber
    /// ever connected the drain is spurious and the loop continues; once
    /// subscribers have come and all have gone, the loop is directed to
    /// terminate.
    pub fn handle_completions_drained(&mut self) -> (terminate: bool)
        requires
            old(self).wf(),
        ensures
            final(self).wf(),
            Self::drained_post(*old(self), *final(self), terminate),
    {
        match self.phase {
            RouterPhase::Active => {
                self.phase = RouterPhase::Terminated;
                true
            }
            _ => false,
        }
    }

    /// The full effect of [`Router::handle_inbound_closed`].
    pub open spec fn inbound_closed_post(pre: Router, post: Router) -> bool {
        &&& post.phase() == RouterPhase::Terminated
        &&& post.pending() == pre.pending()
        &&& Self::same_connections(pre, post)
        &&& Self::same_watch_sets(pre, post)
    }

    /// The loop phase the router is in, for the loop that runs it.
    pub fn current_phase(&self) -> (r: RouterPhase)
        ensures
            r == self.phase(),
    {
        self.phase
    }

    /// How many disconnect signals are outstanding, for the loop that runs
    /// the router.
    pub fn pending_completion_count(&self) -> (r: usize)
        ensures
            r == self.pending(),
    {
        self.pending_completions
    }

    /// Reacts to the inbound message channel closing: with no producers
    /// left, the loop is directed to exit — whatever phase it is in, so an
    /// empty completion queue can never hold it back.
    pub fn handle_inbound_closed(&mut self)
        requires
            old(self).wf(),
        ensures
            final(self).wf(),
            Self::inbound_closed_post(*old(self), *final(self)),
    {
        self.phase = RouterPhase::Terminated;
    }
}

/// After overwriting slot `i` (which held `sid`) with a new sink, the
/// registry still maps `sid` — now to `sink` — and every other session
/// exactly as before.
proof fn lemma_ce_update(
    cs: Seq<ConnectionEntry>,
    cs2: Seq<ConnectionEntry>,
    i: int,
    sid: Seq<char>,
    sink: u64,
)
    requires
        conns_wf(cs),
        0 <= i < cs.len(),
        cs[i].session@ == sid,
        cs2.len() == cs.len(),
        cs2[i].session@ == sid,
        cs2[i].sink == sink,
        forall|j: int| 0 <= j < cs.len() && j != i ==> cs2[j] == cs[j],
    ensures
        conns_wf(cs2),
        ce_has(cs2, sid),
        ce_sink(cs2, sid) == sink,
        forall|s: Seq<char>| s != sid ==> (#[trigger] ce_has(cs2, s)) == ce_has(cs, s),
        forall|s: Seq<char>|
            s != sid && ce_has(cs, s) ==> (#[trigger] ce_sink(cs2, s)) == ce_sink(cs, s),
{
    assert forall|a: int, b: int| 0 <= a < b < cs2.len() implies cs2[a].session@
        != cs2[b].session@ by {
        assert(cs[a].session@ != cs[b].session@);
        assert(cs2[a].session@ == cs[a].session@);
        assert(cs2[b].session@ == cs[b].session@);
    }
    lemma_ce_at(cs2, i);
    assert forall|s: Seq<char>| s != sid implies (#[trigger] ce_has(cs2, s)) == ce_has(cs, s) && (
    ce_has(cs, s) ==> ce_sink(cs2, s) == ce_sink(cs, s)) by {
        if ce_has(cs, s) {
            let j = ce_index(cs, s);
            assert(cs2[j].session@ == s);
            lemma_ce_at(cs2, j);
            lemma_ce_at(cs, j);
        }
        if ce_has(cs2, s) {
            let j = ce_index(cs2, s);
            assert(cs[j].session@ == s);
        }
    }
}

/// After appending a fresh session's entry, the registry maps the new
/// session to its sink and every other session exactly as before.
proof fn lemma_ce_push(cs: Seq<ConnectionEntry>, cs2: Seq<ConnectionEntry>, sid: Seq<char>, sink: u64)
    requires
        conns_wf(cs),
        !ce_has(cs, sid),
        cs2.len() == cs.len() + 1,
        cs2[cs.len() as int].session@ == sid,
        cs2[cs.len() as int].sink == sink,
        forall|j: int| 0 <= j < cs.len() ==> cs2[j] == cs[j],
    ensures
        conns_wf(cs2),
        ce_has(cs2, sid),
        ce_sink(cs2, sid) == sink,
        forall|s: Seq<char>| s != sid ==> (#[trigger] ce_has(cs2, s)) == ce_has(cs, s),
        forall|s: Seq<char>|
            s != sid && ce_has(cs, s) ==> (#[trigger] ce_sink(cs2, s)) == ce_sink(cs, s),
{
    let n = cs.len() as int;
    assert forall|a: int, b: int| 0 <= a < b < cs2.len() implies cs2[a].session@
        != cs2[b].session@ by {
        if b < n {
            assert(cs[a].session@ != cs[b].session@);
        } else {
            assert(cs2[a] == cs[a]);
            assert(ce_has(cs, cs[a].session@));
        }
    }
    assert(conns_wf(cs2));
    lemma_ce_at(cs2, n);
    assert forall|s: Seq<char>| s != sid implies (#[trigger] ce_has(cs2, s)) == ce_has(cs, s) && (
    ce_has(cs, s) ==> ce_sink(cs2, s) == ce_sink(cs, s)) by {
        if ce_has(cs, s) {
            let j = ce_index(cs, s);
            assert(cs2[j].session@ == s);
            lemma_ce_at(cs2, j);
            lemma_ce_at(cs, j);
        }
        if ce_has(cs2, s) {
            let j = ce_index(cs2, s);
            assert(j != n);
            assert(cs[j].session@ == s);
        }
    }
}

/// After deleting the slot holding `sid`, the registry no longer maps `sid`
/// and maps every other session exactly as before.
proof fn lemma_ce_remove(cs: Seq<ConnectionEntry>, cs2: Seq<ConnectionEntry>, i: int, sid: Seq<char>)
    requires
        conns_wf(cs),
        0 <= i < cs.len(),
        cs[i].session@ == sid,
        cs2 == cs.remove(i),
    ensures
        conns_wf(cs2),
        !ce_has(cs2, sid),
        forall|s: Seq<char>| s != sid ==> (#[trigger] ce_has(cs2, s)) == ce_has(cs, s),
        forall|s: Seq<char>|
            s != sid && ce_has(cs, s) ==> (#[trigger] ce_sink(cs2, s)) == ce_sink(cs, s),
{
    cs.remove_ensures(i);
    assert forall|a: int, b: int| 0 <= a < b < cs2.len() implies cs2[a].session@
        != cs2[b].session@ by {
        let a0 = if a < i {
            a
        } else {
            a + 1
        };
        let b0 = if b < i {
            b
        } else {
            b + 1
        };
        assert(cs2[a] == cs[a0]);
        assert(cs2[b] == cs[b0]);
        assert(cs[a0].session@ != cs[b0].session@);
    }
    assert forall|j: int| 0 <= j < cs2.len() implies cs2[j].session@ != sid by {
        let j0 = if j < i {
            j
        } else {
            j + 1
        };
        assert(cs2[j] == cs[j0]);
        assert(j0 != i);
        if j0 < i {
            assert(cs[j0].session@ != cs[i].session@);
        } else {
            assert(cs[i].session@ != cs[j0].session@);
        }
    }
    assert forall|s: Seq<char>| s != sid implies (#[trigger] ce_has(cs2, s)) == ce_has(cs, s) by {
        if ce_has(cs, s) {
            let j = ce_index(cs, s);
            assert(j != i);
            let j2 = if j < i {
                j
            } else {
                j - 1
            };
            assert(cs2[j2] == cs[j]);
            lemma_ce_at(cs2, j2);
        }
        if ce_has(cs2, s) {
            let j = ce_index(cs2, s);
            let j0 = if j < i {
                j
            } else {
                j + 1
            };
            assert(cs2[j] == cs[j0]);
            assert(ce_has(cs, s));
        }
    }
    assert forall|s: Seq<char>| s != sid && ce_has(cs, s) implies (#[trigger] ce_sink(cs2, s))
        == ce_sink(cs, s) by {
        let j = ce_index(cs, s);
        assert(j != i);
        let j2 = if j < i {
            j
        } else {
            j - 1
        };
        assert(cs2[j2] == cs[j]);
        lemma_ce_at(cs2, j2);
        lemma_ce_at(cs, j);
    }
}

/// After replacing the watch entry at slot `i` (same session, possibly
/// extended paths), the watch sets map `sid` to the new entry's paths and
/// every other session exactly as before.
proof fn lemma_we_set(ws: Seq<WatchEntry>, ws2: Seq<WatchEntry>, i: int, sid: Seq<char>)
    requires
        watches_wf(ws),
        0 <= i < ws.len(),
        ws[i].session@ == sid,
        ws2.len() == ws.len(),
        ws2[i].session@ == sid,
        forall|j: int| 0 <= j < ws.len() && j != i ==> ws2[j] == ws[j],
        paths_distinct(ws2[i].paths@),
    ensures
        watches_wf(ws2),
        we_has(ws2, sid),
        we_index(ws2, sid) == i,
        we_paths(ws2, sid) == ws2[i].paths@.map_values(|q: PortableOsString| q@),
        forall|s: Seq<char>| s != sid ==> (#[trigger] we_has(ws2, s)) == we_has(ws, s),
        forall|s: Seq<char>| s != sid ==> (#[trigger] we_paths(ws2, s)) == we_paths(ws, s),
{
    assert forall|a: int, b: int| 0 <= a < b < ws2.len() implies ws2[a].session@
        != ws2[b].session@ by {
        assert(ws[a].session@ != ws[b].session@);
        assert(ws2[a].session@ == ws[a].session@);
        assert(ws2[b].session@ == ws[b].session@);
    }
    assert forall|j: int| 0 <= j < ws2.len() implies paths_distinct(ws2[j].paths@) by {
        if j != i {
            assert(ws2[j] == ws[j]);
        }
    }
    lemma_we_at(ws2, i);
    assert forall|s: Seq<char>| s != sid implies (#[trigger] we_has(ws2, s)) == we_has(ws, s) && (
    #[trigger] we_paths(ws2, s)) == we_paths(ws, s) by {
        if we_has(ws, s) {
            let j = we_index(ws, s);
            assert(0 <= j < ws.len() && ws[j].session@ == s);
            assert(j != i);
            assert(ws2[j] == ws[j]);
            lemma_we_at(ws2, j);
            lemma_we_at(ws, j);
        }
        if we_has(ws2, s) {
            let j = we_index(ws2, s);
            assert(j != i);
            assert(ws[j].session@ == s);
        }
        if !we_has(ws, s) && !we_has(ws2, s) {
            assert(we_paths(ws2, s) == Seq::<OsStrView>::empty());
            assert(we_paths(ws, s) == Seq::<OsStrView>::empty());
        }
    }
}

/// After appending a watch entry for a fresh session, the watch sets map
/// the new session to the entry's paths and every other session exactly as
/// before.
proof fn lemma_we_push(ws: Seq<WatchEntry>, ws2: Seq<WatchEntry>, sid: Seq<char>)
    requires
        watches_wf(ws),
        !we_has(ws, sid),
        ws2.len() == ws.len() + 1,
        ws2[ws.len() as int].session@ == sid,
        forall|j: int| 0 <= j < ws.len() ==> ws2[j] == ws[j],
        paths_distinct(ws2[ws.len() as int].paths@),
    ensures
        watches_wf(ws2),
        we_has(ws2, sid),
        we_index(ws2, sid) == ws.len() as int,
        we_paths(ws2, sid) == ws2[ws.len() as int].paths@.map_values(|q: PortableOsString| q@),
        forall|s: Seq<char>| s != sid ==> (#[trigger] we_has(ws2, s)) == we_has(ws, s),
        forall|s: Seq<char>| s != sid ==> (#[trigger] we_paths(ws2, s)) == we_paths(ws, s),
{
    let n = ws.len() as int;
    assert forall|a: int, b: int| 0 <= a < b < ws2.len() implies ws2[a].session@
        != ws2[b].session@ by {
        if b < n {
            assert(ws[a].session@ != ws[b].session@);
        } else {
            assert(ws2[a] == ws[a]);
            assert(we_has(ws, ws[a].session@));
        }
    }
    assert forall|j: int| 0 <= j < ws2.len() implies paths_distinct(ws2[j].paths@) by {
        if j < n {
            assert(ws2[j] == ws[j]);
        }
    }
    assert(watches_wf(ws2));
    lemma_we_at(ws2, n);
    assert forall|s: Seq<char>| s != sid implies (#[trigger] we_has(ws2, s)) == we_has(ws, s) && (
    #[trigger] we_paths(ws2, s)) == we_paths(ws, s) by {
        if we_has(ws, s) {
            let j = we_index(ws, s);
            assert(0 <= j < ws.len() && ws[j].session@ == s);
            assert(ws2[j] == ws[j]);
            lemma_we_at(ws2, j);
            lemma_we_at(ws, j);
        }
        if we_has(ws2, s) {
            let j = we_index(ws2, s);
            assert(j != n);
            assert(ws[j].session@ == s);
        }
        if !we_has(ws, s) && !we_has(ws2, s) {
            assert(we_paths(ws2, s) == Seq::<OsStrView>::empty());
            assert(we_paths(ws, s) == Seq::<OsStrView>::empty());
        }
    }
}

} // verus!
