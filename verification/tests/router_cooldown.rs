use deffy_bot::cooldown::CooldownState;
use deffy_bot::router::EventRouter;

#[test]
fn register_then_gateway_matches() {
    let mut router = EventRouter::new();
    router.register("moderate:event", 7);
    assert!(router.check_gateway("moderate:event", 7));
    assert!(!router.check_gateway("moderate:event", 8));
    assert!(!router.check_gateway("other:event", 7));
}

#[test]
fn latest_register_wins_and_stale_unregister_is_noop() {
    let mut router = EventRouter::new();
    router.register("first:event", 42);
    router.register("second:event", 42);
    // Only the latest key is active.
    assert!(!router.check_gateway("first:event", 42));
    assert!(router.check_gateway("second:event", 42));
    // A stale unregister under the superseded key changes nothing.
    router.unregister("first:event", 42);
    assert!(router.check_gateway("second:event", 42));
    // The matching unregister removes the route.
    router.unregister("second:event", 42);
    assert!(!router.check_gateway("second:event", 42));
}

#[test]
fn unregister_absent_user_is_noop() {
    let mut router = EventRouter::new();
    router.register("moderate:event", 1);
    router.unregister("moderate:event", 2);
    assert!(router.check_gateway("moderate:event", 1));
}

#[test]
fn routes_are_per_user() {
    let mut router = EventRouter::new();
    router.register("moderate:event", 1);
    router.register("moderate:event", 2);
    router.unregister("moderate:event", 1);
    assert!(!router.check_gateway("moderate:event", 1));
    assert!(router.check_gateway("moderate:event", 2));
}

#[test]
fn cooldown_window_rejects_then_admits() {
    let mut gate = CooldownState::new();
    let user = 5;
    let d = 1000;
    // First attempt at t=100 is admitted.
    assert!(gate.check_and_update(user, 100, d).is_ok());
    // A second attempt within the window is rejected with the remaining wait.
    let err = gate.check_and_update(user, 400, d).unwrap_err();
    assert_eq!(err.remaining, 700);
    // The remainder shrinks monotonically as time advances, because a
    // rejected attempt never extends the window.
    let err = gate.check_and_update(user, 900, d).unwrap_err();
    assert_eq!(err.remaining, 200);
    // Once the window has fully elapsed the user is admitted again.
    assert!(gate.check_and_update(user, 1100, d).is_ok());
}

#[test]
fn cooldown_rejection_never_resets_window() {
    let mut gate = CooldownState::new();
    assert!(gate.check_and_update(9, 0, 100).is_ok());
    assert_eq!(gate.check_and_update(9, 50, 100).unwrap_err().remaining, 50);
    // Still measured from t=0, not from the rejected attempt at t=50.
    assert_eq!(gate.check_and_update(9, 99, 100).unwrap_err().remaining, 1);
    assert!(gate.check_and_update(9, 100, 100).is_ok());
}

#[test]
fn cooldown_entries_are_per_user() {
    let mut gate = CooldownState::new();
    assert!(gate.check_and_update(1, 10, 500).is_ok());
    assert!(gate.check_and_update(2, 10, 500).is_ok());
    assert!(gate.check_and_update(1, 20, 500).is_err());
}

#[test]
fn expire_removes_only_the_exact_entry() {
    let mut gate = CooldownState::new();
    assert!(gate.check_and_update(3, 100, 50).is_ok());
    // The user is admitted again at 200 and the entry refreshed.
    assert!(gate.check_and_update(3, 200, 50).is_ok());
    // The deferred removal scheduled by the first admission fires with the
    // stale stamp: it must not drop the refreshed entry.
    gate.expire_entry(3, 100);
    assert_eq!(gate.check_and_update(3, 210, 50).unwrap_err().remaining, 40);
    // The removal scheduled by the second admission does drop it.
    gate.expire_entry(3, 200);
    assert!(gate.check_and_update(3, 211, 50).is_ok());
}
