use gmtool::event::EventKind;
use gmtool::os_string::PortableOsString;
use gmtool::router::{Router, RouterAction, RouterPhase, WatchError, WatchMode};

fn path(text: &str) -> PortableOsString {
    PortableOsString::Undifferentiated(String::from(text))
}

fn add_watch(router: &mut Router, session: &str, p: &PortableOsString) {
    let req = router.add_watch_request(p);
    assert!(matches!(req.mode, WatchMode::NonRecursive));
    let res = router.complete_add_watch(String::from(session), p.clone(), Ok(()));
    assert!(res.is_ok());
}

#[test]
fn exact_match_delivery_reaches_watchers_only() {
    let mut router = Router::new();
    router.handle_new_connection(String::from("a"), 1);
    router.handle_new_connection(String::from("b"), 2);
    router.handle_new_connection(String::from("c"), 3);
    let hero = path("/tmp/proj/hero.gcs");
    add_watch(&mut router, "a", &hero);
    add_watch(&mut router, "b", &hero);
    // session "c" never asks for a watch

    let plan = router.route_file_change(&hero, EventKind::ModifyData);
    let mut sinks: Vec<u64> = plan.notifications.iter().map(|n| n.sink).collect();
    sinks.sort();
    assert_eq!(sinks, vec![1, 2]);
    for n in &plan.notifications {
        assert_eq!(n.path, hero);
    }
}

#[test]
fn no_delivery_without_connection() {
    let mut router = Router::new();
    let hero = path("/tmp/hero.gcs");
    add_watch(&mut router, "ghostly", &hero);
    let plan = router.route_file_change(&hero, EventKind::ModifyData);
    assert!(plan.notifications.is_empty());
}

#[test]
fn no_cross_session_leakage() {
    let mut router = Router::new();
    router.handle_new_connection(String::from("a"), 1);
    router.handle_new_connection(String::from("b"), 2);
    let private_a = path("/tmp/a-only.gcs");
    let private_b = path("/tmp/b-only.gcs");
    add_watch(&mut router, "a", &private_a);
    add_watch(&mut router, "b", &private_b);

    let plan = router.route_file_change(&private_a, EventKind::ModifyData);
    assert_eq!(plan.notifications.len(), 1);
    assert_eq!(plan.notifications[0].session, "a");
    assert_eq!(plan.notifications[0].sink, 1);
}

#[test]
fn idempotent_watch_registration() {
    let mut router = Router::new();
    router.handle_new_connection(String::from("a"), 1);
    let hero = path("/tmp/hero.gcs");
    add_watch(&mut router, "a", &hero);
    add_watch(&mut router, "a", &hero);

    let plan = router.route_file_change(&hero, EventKind::ModifyData);
    assert_eq!(plan.notifications.len(), 1);
    assert_eq!(plan.notifications[0].session, "a");
}

#[test]
fn rename_chase_arms_before_notifying() {
    let mut router = Router::new();
    router.handle_new_connection(String::from("a"), 1);
    let hero = path("/tmp/hero.gcs");
    add_watch(&mut router, "a", &hero);

    let plan = router.route_file_change(&hero, EventKind::RenameTo);
    let actions = plan.into_actions();
    assert_eq!(actions.len(), 2);
    match &actions[0] {
        RouterAction::Arm(req) => {
            assert_eq!(req.path, hero);
            assert!(matches!(req.mode, WatchMode::NonRecursive));
        }
        RouterAction::Notify(_) => panic!("notification before the re-arm"),
    }
    match &actions[1] {
        RouterAction::Notify(n) => {
            assert_eq!(n.session, "a");
            assert_eq!(n.sink, 1);
        }
        RouterAction::Arm(_) => panic!("expected the notification second"),
    }
}

#[test]
fn rename_of_unwatched_path_arms_nothing() {
    let mut router = Router::new();
    router.handle_new_connection(String::from("a"), 1);
    add_watch(&mut router, "a", &path("/tmp/hero.gcs"));

    let plan = router.route_file_change(&path("/tmp/other.gcs"), EventKind::RenameTo);
    assert!(plan.arm.is_none());
    assert!(plan.notifications.is_empty());
}

#[test]
fn plain_change_of_watched_path_arms_nothing() {
    let mut router = Router::new();
    router.handle_new_connection(String::from("a"), 1);
    let hero = path("/tmp/hero.gcs");
    add_watch(&mut router, "a", &hero);

    let plan = router.route_file_change(&hero, EventKind::ModifyData);
    assert!(plan.arm.is_none());
    assert_eq!(plan.notifications.len(), 1);
}

#[test]
fn disconnect_cleanup_stops_delivery() {
    let mut router = Router::new();
    router.handle_new_connection(String::from("a"), 1);
    router.handle_new_connection(String::from("b"), 2);
    let hero = path("/tmp/hero.gcs");
    add_watch(&mut router, "a", &hero);
    add_watch(&mut router, "b", &hero);

    router.handle_completion(&String::from("a"));
    let plan = router.route_file_change(&hero, EventKind::ModifyData);
    assert_eq!(plan.notifications.len(), 1);
    assert_eq!(plan.notifications[0].session, "b");
    assert_eq!(plan.notifications[0].sink, 2);
}

#[test]
fn termination_without_subscribers() {
    let mut router = Router::new();
    // A spurious "completion queue drained" before any subscriber is a no-op.
    let terminate = router.handle_completions_drained();
    assert!(!terminate);
    assert_eq!(router.current_phase(), RouterPhase::AwaitingFirstSubscriber);
    // The inbound channel closing exits cleanly even with nothing pending.
    assert_eq!(router.pending_completion_count(), 0);
    router.handle_inbound_closed();
    assert_eq!(router.current_phase(), RouterPhase::Terminated);
}

#[test]
fn termination_after_all_subscribers_left() {
    let mut router = Router::new();
    router.handle_new_connection(String::from("a"), 1);
    assert_eq!(router.pending_completion_count(), 1);
    assert_eq!(router.current_phase(), RouterPhase::Active);
    router.handle_completion(&String::from("a"));
    assert_eq!(router.pending_completion_count(), 0);
    let terminate = router.handle_completions_drained();
    assert!(terminate);
    assert_eq!(router.current_phase(), RouterPhase::Terminated);
}

#[test]
fn fatal_watch_failure_terminates() {
    let mut router = Router::new();
    router.handle_new_connection(String::from("a"), 1);
    let hero = path("/tmp/hero.gcs");
    let err = WatchError { message: String::from("inotify limit reached") };
    let res = router.complete_add_watch(String::from("a"), hero.clone(), Err(err));
    assert!(res.is_err());
    assert_eq!(router.current_phase(), RouterPhase::Terminated);
    // The failed request recorded nothing.
    let plan = router.route_file_change(&hero, EventKind::ModifyData);
    assert!(plan.notifications.is_empty());
}

#[test]
fn second_connection_overwrites_sink() {
    let mut router = Router::new();
    router.handle_new_connection(String::from("a"), 1);
    let hero = path("/tmp/hero.gcs");
    add_watch(&mut router, "a", &hero);
    router.handle_new_connection(String::from("a"), 9);

    let plan = router.route_file_change(&hero, EventKind::ModifyData);
    assert_eq!(plan.notifications.len(), 1);
    assert_eq!(plan.notifications[0].sink, 9);
}

#[test]
fn watch_sets_survive_disconnection() {
    let mut router = Router::new();
    router.handle_new_connection(String::from("a"), 1);
    let hero = path("/tmp/hero.gcs");
    add_watch(&mut router, "a", &hero);
    router.handle_completion(&String::from("a"));
    // Watch sets are never pruned: a returning subscriber with the same
    // session id hears of changes again.
    router.handle_new_connection(String::from("a"), 2);
    let plan = router.route_file_change(&hero, EventKind::ModifyData);
    assert_eq!(plan.notifications.len(), 1);
    assert_eq!(plan.notifications[0].sink, 2);
}
