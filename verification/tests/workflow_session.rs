use deffy_bot::router::EventRouter;
use deffy_bot::session::{BanField, BanSession};
use deffy_bot::workflow::{
    apply_modal_submission, cancel_custom_id, cancel_honored, classify_component, confirm_ban,
    confirm_custom_id, confirm_honored, on_timeout, select_menu_custom_id, start_ban_session,
    teardown, ComponentAction,
};

const KEY: &str = "moderate:event";

#[test]
fn confirm_bans_plain_targets_and_skips_elevated_ones() {
    // Targets [A, B] where B holds an elevated permission the invoker
    // lacks: A is banned, B is skipped and reported as a failure.
    let invoker = 1;
    let a = 2;
    let b = 3;
    let targets = vec![a, b];
    let elevated = vec![b];
    let outcome = confirm_ban(invoker, &targets, &elevated).unwrap();
    assert_eq!(outcome.banned, vec![a]);
    assert_eq!(outcome.skipped, vec![b]);

    // And the session is removed afterwards by the shared teardown.
    let mut sessions = BanSession::new();
    let mut router = EventRouter::new();
    start_ban_session(&mut sessions, &mut router, KEY, invoker, 0, 60_000);
    teardown(&mut sessions, &mut router, KEY, invoker);
    assert!(sessions.get(invoker).is_none());
    assert!(!router.check_gateway(KEY, invoker));
}

#[test]
fn confirm_targeting_the_invoker_rejects_everything() {
    let invoker = 1;
    let targets = vec![invoker];
    let elevated: Vec<u64> = vec![];
    assert!(confirm_ban(invoker, &targets, &elevated).is_err());
    // Even buried among other targets, the whole action is rejected.
    let targets = vec![5, invoker, 6];
    assert!(confirm_ban(invoker, &targets, &elevated).is_err());
    // The session is left open: rejection applies nothing and tears
    // nothing down.
    let mut sessions = BanSession::new();
    let mut router = EventRouter::new();
    start_ban_session(&mut sessions, &mut router, KEY, invoker, 0, 60_000);
    assert!(sessions.get(invoker).is_some());
    assert!(router.check_gateway(KEY, invoker));
}

#[test]
fn confirm_with_no_elevated_targets_bans_all_in_order() {
    let outcome = confirm_ban(1, &vec![4, 5, 6], &vec![]).unwrap();
    assert_eq!(outcome.banned, vec![4, 5, 6]);
    assert!(outcome.skipped.is_empty());
}

#[test]
fn session_times_out_at_its_deadline_and_leaves_the_router() {
    let mut sessions = BanSession::new();
    let mut router = EventRouter::new();
    let t0 = 1_000;
    let w = 60_000;
    start_ban_session(&mut sessions, &mut router, KEY, 9, t0, w);
    // The waiter must not fire before the deadline.
    assert!(!on_timeout(&mut sessions, &mut router, KEY, 9, t0 + w - 1));
    assert!(sessions.get(9).is_some());
    // At t0 + w it fires, and the session is gone from store and router
    // immediately after.
    assert!(on_timeout(&mut sessions, &mut router, KEY, 9, t0 + w));
    assert!(sessions.get(9).is_none());
    assert!(!router.check_gateway(KEY, 9));
}

#[test]
fn teardown_twice_is_idempotent() {
    let mut sessions = BanSession::new();
    let mut router = EventRouter::new();
    start_ban_session(&mut sessions, &mut router, KEY, 4, 0, 30_000);
    let first = teardown(&mut sessions, &mut router, KEY, 4);
    assert!(first.is_some());
    // The racing path finds the work already done: a no-op.
    let second = teardown(&mut sessions, &mut router, KEY, 4);
    assert!(second.is_none());
    assert!(sessions.get(4).is_none());
    assert!(!router.check_gateway(KEY, 4));
    // The timeout path converges on the same final state too.
    assert!(!on_timeout(&mut sessions, &mut router, KEY, 4, 999_999));
}

#[test]
fn new_session_supersedes_the_old_one() {
    let mut sessions = BanSession::new();
    let mut router = EventRouter::new();
    let (old_gen, gen1) = start_ban_session(&mut sessions, &mut router, KEY, 8, 0, 60_000);
    assert!(old_gen.is_none());
    let (superseded, gen2) = start_ban_session(&mut sessions, &mut router, KEY, 8, 10, 60_000);
    // The caller gets the superseded waiter's generation to cancel it.
    assert_eq!(superseded, Some(gen1));
    assert_ne!(gen1, gen2);
    // The fresh session has an empty draft again.
    let draft = sessions.get(8).unwrap();
    assert!(draft.targets.is_empty());
    assert!(draft.info.reason.is_none());
}

#[test]
fn selection_replaces_targets_wholesale() {
    let mut sessions = BanSession::new();
    let mut router = EventRouter::new();
    start_ban_session(&mut sessions, &mut router, KEY, 2, 0, 60_000);
    assert!(!sessions.confirm_enabled(2));
    assert!(sessions.handle_select(2, vec![10, 11]));
    assert_eq!(sessions.get(2).unwrap().targets, vec![10, 11]);
    assert!(sessions.confirm_enabled(2));
    // The control reports the full current selection, not a delta.
    assert!(sessions.handle_select(2, vec![12]));
    assert_eq!(sessions.get(2).unwrap().targets, vec![12]);
    // An empty selection disables confirm again.
    assert!(sessions.handle_select(2, vec![]));
    assert!(!sessions.confirm_enabled(2));
    // Without a live session the event is ignored.
    assert!(!sessions.handle_select(3, vec![1]));
}

#[test]
fn detail_edits_update_exactly_one_field() {
    let mut sessions = BanSession::new();
    let mut router = EventRouter::new();
    start_ban_session(&mut sessions, &mut router, KEY, 6, 0, 60_000);
    assert!(sessions.handle_select(6, vec![7]));
    assert!(sessions.update_detail(6, BanField::Reason, "spam"));
    assert!(sessions.update_detail(6, BanField::Duration, "14"));
    assert!(sessions.update_detail(6, BanField::Attachment, "https://example.test/a.png"));
    let d = sessions.get(6).unwrap();
    assert_eq!(d.info.reason.as_deref(), Some("spam"));
    assert_eq!(d.info.duration_days, Some(14));
    assert_eq!(d.info.attachment.as_deref(), Some("https://example.test/a.png"));
    assert_eq!(d.targets, vec![7]);
    // Edits are re-entrant: a later edit overrides an earlier one.
    assert!(sessions.update_detail(6, BanField::Duration, "0"));
    assert_eq!(sessions.get(6).unwrap().info.duration_days, Some(0));
}

#[test]
fn bad_duration_changes_nothing() {
    let mut sessions = BanSession::new();
    let mut router = EventRouter::new();
    start_ban_session(&mut sessions, &mut router, KEY, 6, 0, 60_000);
    assert!(sessions.update_detail(6, BanField::Duration, "7"));
    assert!(!sessions.update_detail(6, BanField::Duration, "forever"));
    assert!(!sessions.update_detail(6, BanField::Duration, "300"));
    assert!(!sessions.update_detail(6, BanField::Duration, ""));
    assert!(!sessions.update_detail(6, BanField::Duration, "+"));
    assert_eq!(sessions.get(6).unwrap().info.duration_days, Some(7));
    // A leading plus sign is accepted, as the standard parser accepts it.
    assert!(sessions.update_detail(6, BanField::Duration, "+9"));
    assert_eq!(sessions.get(6).unwrap().info.duration_days, Some(9));
}

#[test]
fn component_ids_classify_back_to_their_actions() {
    let owner = 123456789;
    assert_eq!(
        classify_component(&confirm_custom_id(owner), owner),
        ComponentAction::Confirm { owner }
    );
    assert_eq!(classify_component(&select_menu_custom_id(owner), owner), ComponentAction::SelectUsers);
    assert_eq!(classify_component("reasonbanbtn:123", 1), ComponentAction::OpenReasonModal);
    assert_eq!(classify_component("durationbanbtn:123", 1), ComponentAction::OpenDurationModal);
    assert_eq!(classify_component("attachmentbanbtn:123", 1), ComponentAction::OpenAttachmentModal);
    // Someone else's select menu is not the actor's.
    assert_eq!(classify_component("banuser:99", 1), ComponentAction::Ignored);
    // A malformed confirm owner is ignored; a signed one parses as the
    // standard parser would.
    assert_eq!(classify_component("confirmbanbtn:notanumber", 1), ComponentAction::Ignored);
    assert_eq!(classify_component("confirmbanbtn:+7", 1), ComponentAction::Confirm { owner: 7 });
    assert_eq!(classify_component("something:else", 1), ComponentAction::Ignored);
}

#[test]
fn modal_submissions_land_in_the_draft() {
    let mut sessions = BanSession::new();
    let mut router = EventRouter::new();
    start_ban_session(&mut sessions, &mut router, KEY, 5, 0, 60_000);
    let fields = vec![("ban_reason".to_string(), "rule violation".to_string())];
    assert!(apply_modal_submission(&mut sessions, 5, "BAN REASON", &fields));
    assert_eq!(sessions.get(5).unwrap().info.reason.as_deref(), Some("rule violation"));
    // An unknown form changes nothing.
    assert!(!apply_modal_submission(&mut sessions, 5, "SOMETHING ELSE", &fields));
    // A missing input counts as empty, which is no valid duration.
    assert!(!apply_modal_submission(&mut sessions, 5, "BAN DURATION", &fields));
    let fields = vec![("ban_duration".to_string(), "30".to_string())];
    assert!(apply_modal_submission(&mut sessions, 5, "BAN DURATION", &fields));
    assert_eq!(sessions.get(5).unwrap().info.duration_days, Some(30));
}

#[test]
fn confirm_is_honored_only_for_the_owner() {
    let action = classify_component(&confirm_custom_id(42), 42);
    assert!(confirm_honored(&action, 42));
    // Another user pressing the owner's confirm control is not honored.
    assert!(!confirm_honored(&action, 43));
    assert!(!confirm_honored(&ComponentAction::SelectUsers, 42));
}

#[test]
fn cancel_runs_the_same_teardown() {
    let mut sessions = BanSession::new();
    let mut router = EventRouter::new();
    start_ban_session(&mut sessions, &mut router, KEY, 11, 0, 60_000);
    let action = classify_component(&cancel_custom_id(11), 11);
    assert_eq!(action, ComponentAction::Cancel { owner: 11 });
    assert!(cancel_honored(&action, 11));
    // Someone else's press of the owner's cancel control is not honored.
    assert!(!cancel_honored(&action, 12));
    assert!(teardown(&mut sessions, &mut router, KEY, 11).is_some());
    assert!(sessions.get(11).is_none());
    assert!(!router.check_gateway(KEY, 11));
}
