use deffy_bot::commands::{CommandManager, CommandSpec};
use deffy_bot::cooldown::CooldownState;
use deffy_bot::dispatch::{admit_job, DispatchQueue};
use deffy_bot::events::{EventBus, EventData, EventTag, HandlerRegistration, HandlerRegistry, Interaction};
use deffy_bot::router::EventRouter;
use deffy_bot::session::BanSession;
use deffy_bot::facts::{EventManager, EventType};
use deffy_bot::workflow::{
    classify_component, confirm_ban, confirm_custom_id, select_menu_custom_id, start_ban_session,
    teardown, ComponentAction,
};

const KEY: &str = "moderate:event";

/// The whole path: a user invokes the ban command, a session is created,
/// a selection arrives, confirm is enabled, the confirm event bans the
/// target, the session is removed, and a later event with the same
/// custom id is ignored because no session is found.
#[test]
fn ban_workflow_end_to_end() {
    let u1 = 100;
    let u2 = 200;

    // Startup: the command registry (the ban command with cooldown 0),
    // the handler registry (one unrouted command handler, one routed
    // workflow handler), the router, the cooldown gate, the queue, the bus.
    let mut registry = CommandManager::new();
    registry
        .register_command(CommandSpec { name: "ban".to_string(), cooldown_ms: 0 })
        .unwrap();
    let mut handlers = HandlerRegistry::new();
    handlers.register(HandlerRegistration { tag: EventTag::InteractionCreate, route: None });
    handlers.register(HandlerRegistration {
        tag: EventTag::InteractionCreate,
        route: Some(KEY.to_string()),
    });
    let mut router = EventRouter::new();
    let mut gate = CooldownState::new();
    let mut queue = DispatchQueue::new(16);
    let mut bus = EventBus::new(16);
    let mut sessions = BanSession::new();

    // U1 invokes "ban".
    bus.ingest(EventData::Interaction(Interaction::Command {
        user: u1,
        name: "ban".to_string(),
        subcommand: Some("ban".to_string()),
    }));
    let event = bus.next_event().unwrap();
    // Before the session exists, only the unrouted handler receives it.
    assert_eq!(handlers.delivery_plan(&event, &router), vec![0]);
    // The command handler routes it into the job queue and the worker
    // admits it (cooldown 0 never rejects).
    queue.submit(&registry, "ban", u1).unwrap();
    let job = queue.take_next().unwrap();
    assert!(admit_job(&mut gate, &job, 1_000).is_ok());

    // Executing the job starts the workflow session.
    start_ban_session(&mut sessions, &mut router, KEY, u1, 1_000, 60_000);
    assert!(!sessions.confirm_enabled(u1));

    // A selection-change event arrives from U1's select control; now the
    // routed handler receives it too.
    let select_id = select_menu_custom_id(u1);
    bus.ingest(EventData::Interaction(Interaction::Component {
        user: u1,
        custom_id: select_id.clone(),
        selected_users: vec![u2],
    }));
    let event = bus.next_event().unwrap();
    assert_eq!(handlers.delivery_plan(&event, &router), vec![0, 1]);
    assert_eq!(classify_component(&select_id, u1), ComponentAction::SelectUsers);
    assert!(sessions.handle_select(u1, vec![u2]));
    assert!(sessions.confirm_enabled(u1));

    // The confirm event: classified, validated, applied.
    let confirm_id = confirm_custom_id(u1);
    match classify_component(&confirm_id, u1) {
        ComponentAction::Confirm { owner } => assert_eq!(owner, u1),
        other => panic!("confirm control misclassified: {:?}", other),
    }
    let targets = sessions.get(u1).unwrap().targets.clone();
    let outcome = confirm_ban(u1, &targets, &vec![]).unwrap();
    // The notification attempt and the ban apply to exactly U2.
    assert_eq!(outcome.banned, vec![u2]);
    assert!(outcome.skipped.is_empty());

    // Teardown: session removed, route gone.
    assert!(teardown(&mut sessions, &mut router, KEY, u1).is_some());
    assert!(sessions.get(u1).is_none());
    assert!(!router.check_gateway(KEY, u1));

    // A later confirm event with the same custom id finds no session:
    // the routed handler no longer matches, and the store ignores it.
    bus.ingest(EventData::Interaction(Interaction::Component {
        user: u1,
        custom_id: confirm_id.clone(),
        selected_users: vec![],
    }));
    let event = bus.next_event().unwrap();
    assert_eq!(handlers.delivery_plan(&event, &router), vec![0]);
    assert!(sessions.get(u1).is_none());
    assert!(teardown(&mut sessions, &mut router, KEY, u1).is_none());
}

#[test]
fn routed_handlers_never_match_events_without_a_user() {
    let mut handlers = HandlerRegistry::new();
    handlers.register(HandlerRegistration { tag: EventTag::Ready, route: None });
    handlers.register(HandlerRegistration {
        tag: EventTag::Ready,
        route: Some(KEY.to_string()),
    });
    let mut router = EventRouter::new();
    router.register(KEY, 1);
    // Ready carries no acting user, so the routed handler never matches.
    assert_eq!(handlers.delivery_plan(&EventData::Ready, &router), vec![0]);
    // And tags must match at all.
    assert_eq!(handlers.delivery_plan(&EventData::Message, &router), Vec::<usize>::new());
}

#[test]
fn routed_delivery_requires_a_matching_live_session() {
    let mut handlers = HandlerRegistry::new();
    handlers.register(HandlerRegistration {
        tag: EventTag::InteractionCreate,
        route: Some(KEY.to_string()),
    });
    let router_empty = EventRouter::new();
    let event = EventData::Interaction(Interaction::Modal {
        user: 7,
        custom_id: "BAN REASON".to_string(),
        fields: vec![],
    });
    assert_eq!(handlers.delivery_plan(&event, &router_empty), Vec::<usize>::new());
    let mut router = EventRouter::new();
    router.register(KEY, 7);
    assert_eq!(handlers.delivery_plan(&event, &router), vec![0]);
    // Another user's session does not open the route for user 7.
    let mut other = EventRouter::new();
    other.register(KEY, 8);
    assert_eq!(handlers.delivery_plan(&event, &other), Vec::<usize>::new());
}

#[test]
fn event_bus_preserves_arrival_order() {
    let mut bus = EventBus::new(4);
    bus.ingest(EventData::Ready);
    bus.ingest(EventData::Message);
    assert!(matches!(bus.next_event(), Some(EventData::Ready)));
    assert!(matches!(bus.next_event(), Some(EventData::Message)));
    assert!(bus.next_event().is_none());
}

#[test]
fn fact_fanout_reaches_every_subscriber_in_order() {
    let mut manager = EventManager::new();
    manager.register_event(EventType::PatreonWebhookUserCreated, 11);
    manager.register_event(EventType::BotStarted, 22);
    manager.register_event(EventType::PatreonWebhookUserCreated, 33);
    assert_eq!(manager.emit(EventType::PatreonWebhookUserCreated), vec![11, 33]);
    assert_eq!(manager.emit(EventType::BotStarted), vec![22]);
    assert_eq!(manager.emit(EventType::PatreonWebhookUserDeleted), Vec::<u64>::new());
}
