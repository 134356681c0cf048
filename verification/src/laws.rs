//! The router's delivery and lifecycle guarantees, stated and proved once,
//! over the transition predicates that the router's methods ensure.
//!
//! Each law takes the states and results of one or more router transitions
//! — related by the public `*_post` and `plan_ok` predicates — and derives
//! the guarantee a subscriber relies on.

use vstd::prelude::*;

use crate::event::EventKind;
use crate::os_string::OsStrView;
use crate::router::{FileChangePlan, Router, RouterAction, RouterPhase, WatchError, WatchMode};

verus! {

/// Exact-match delivery: a file-change plan notifies a session exactly when
/// that session is registered and its watch set holds the changed path —
/// and then through the sink registered for it.
pub proof fn lemma_exact_match_delivery(
    r: Router,
    p: OsStrView,
    kind: EventKind,
    plan: FileChangePlan,
)
    requires
        r.wf(),
        r.plan_ok(p, kind, plan),
    ensures
        forall|sid: Seq<char>|
            #[trigger] plan.notifies(sid) ==> r.has_connection(sid) && r.session_watches(sid, p),
        forall|sid: Seq<char>|
            r.has_connection(sid) && #[trigger] r.session_watches(sid, p) ==> plan.notifies(sid),
        forall|k: int|
            0 <= k < plan.notifications@.len() ==> (#[trigger] plan.notifications@[k]).sink
                == r.sink_of(plan.notifications@[k].session@) && plan.notifications@[k].path@
                == p,
{
    assert forall|sid: Seq<char>| #[trigger] plan.notifies(sid) implies r.has_connection(sid)
        && r.session_watches(sid, p) by {
        let k = choose|k: int|
            0 <= k < plan.notifications@.len() && (#[trigger] plan.notifications@[k]).session@
                == sid;
        assert(r.notification_ok(p, plan.notifications@[k]));
    }
}

/// No cross-session leakage: a change to a path that a session does not
/// watch is never delivered to that session, whatever other sessions watch.
pub proof fn lemma_no_cross_session_leakage(
    r: Router,
    p: OsStrView,
    kind: EventKind,
    plan: FileChangePlan,
    other: Seq<char>,
)
    requires
        r.wf(),
        r.plan_ok(p, kind, plan),
        !r.session_watches(other, p),
    ensures
        !plan.notifies(other),
{
    if plan.notifies(other) {
        let k = choose|k: int|
            0 <= k < plan.notifications@.len() && (#[trigger] plan.notifications@[k]).session@
                == other;
        assert(r.notification_ok(p, plan.notifications@[k]));
    }
}

/// Idempotent watch registration, first half: registering the same path a
/// second time for the same session leaves every watch set exactly as the
/// first registration left it.
pub proof fn lemma_idempotent_watch_registration(
    r0: Router,
    r1: Router,
    r2: Router,
    sid: Seq<char>,
    p: OsStrView,
    res1: Result<(), WatchError>,
    res2: Result<(), WatchError>,
)
    requires
        Router::add_watch_post(r0, r1, sid, p, Ok(()), res1),
        Router::add_watch_post(r1, r2, sid, p, Ok(()), res2),
    ensures
        forall|s: Seq<char>| #[trigger] r2.watched_paths(s) == r1.watched_paths(s),
{
    assert(r1.session_watches(sid, p));
    assert(r2.watched_paths(sid) == r1.watched_paths(sid));
}

/// Idempotent watch registration, second half: one change event yields at
/// most one notification per session, however the watch set was built.
pub proof fn lemma_at_most_one_notification(
    r: Router,
    p: OsStrView,
    kind: EventKind,
    plan: FileChangePlan,
)
    requires
        r.wf(),
        r.plan_ok(p, kind, plan),
    ensures
        forall|k1: int, k2: int|
            0 <= k1 < plan.notifications@.len() && 0 <= k2 < plan.notifications@.len() && k1 != k2
                ==> (#[trigger] plan.notifications@[k1]).session@
                != (#[trigger] plan.notifications@[k2]).session@,
{
}

/// Rename-chase: when a watched path is renamed into place, the plan leads
/// with a non-recursive re-arm of the watch on that exact path, and every
/// notification of the event comes after it.
pub proof fn lemma_rename_chase(
    r: Router,
    p: OsStrView,
    plan: FileChangePlan,
    acts: Seq<RouterAction>,
)
    requires
        r.wf(),
        r.plan_ok(p, EventKind::RenameTo, plan),
        plan.actions_of(acts),
        r.any_session_watches(p),
    ensures
        acts.len() > 0,
        acts[0] is Arm,
        acts[0] matches RouterAction::Arm(a) ==> a.path@ == p && a.mode
            == WatchMode::NonRecursive,
        forall|j: int| 0 <= j < acts.len() && (#[trigger] acts[j]) is Notify ==> 0 < j,
{
    assert(plan.arm is Some);
}

/// Disconnect cleanup: once a session's completion signal has been
/// resolved, the session is absent from the registry and no later change
/// event is delivered to its stale sink.
pub proof fn lemma_disconnect_cleanup(
    r0: Router,
    r1: Router,
    sid: Seq<char>,
    p: OsStrView,
    kind: EventKind,
    plan: FileChangePlan,
)
    requires
        r1.wf(),
        Router::completion_post(r0, r1, sid),
        r1.plan_ok(p, kind, plan),
    ensures
        !r1.has_connection(sid),
        !plan.notifies(sid),
{
    if plan.notifies(sid) {
        let k = choose|k: int|
            0 <= k < plan.notifications@.len() && (#[trigger] plan.notifications@[k]).session@
                == sid;
        assert(r1.notification_ok(p, plan.notifications@[k]));
    }
}

/// Termination: a router that never saw a subscriber exits as soon as its
/// inbound channel closes — with no completion signals outstanding, nothing
/// can hold it back — and an empty completion queue alone never terminates
/// it prematurely.
pub proof fn lemma_termination_without_subscribers(
    r0: Router,
    r1: Router,
    r2: Router,
    drained: bool,
)
    requires
        r0.is_initial(),
        Router::drained_post(r0, r1, drained),
        Router::inbound_closed_post(r1, r2),
    ensures
        !drained,
        r1.phase() == RouterPhase::AwaitingFirstSubscriber,
        r2.phase() == RouterPhase::Terminated,
        r2.pending() == 0,
{
    r0.lemma_initial_properties();
}

/// Fatal watch failure: a failed `Watch` call for an `AddWatch` request is
/// handed back as the step's terminal error, the router is directed to
/// terminate, and no watch set is touched.
pub proof fn lemma_fatal_watch_failure(
    r0: Router,
    r1: Router,
    sid: Seq<char>,
    p: OsStrView,
    e: WatchError,
    res: Result<(), WatchError>,
)
    requires
        Router::add_watch_post(r0, r1, sid, p, Err(e), res),
    ensures
        res is Err,
        r1.phase() == RouterPhase::Terminated,
        forall|s: Seq<char>| #[trigger] r1.watched_paths(s) == r0.watched_paths(s),
{
}

} // verus!
