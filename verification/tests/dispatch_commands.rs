use deffy_bot::commands::{
    register_all, CommandInfo, CommandManager, CommandSpec, KeyCommand, ModerateCommand,
    TestCommand, VerifyCommand,
};
use deffy_bot::cooldown::CooldownState;
use deffy_bot::dispatch::{admit_job, DispatchQueue};

#[test]
fn unknown_command_enqueues_nothing_and_yields_routing_error() {
    let mut registry = CommandManager::new();
    registry
        .register_command(CommandSpec { name: "ping".to_string(), cooldown_ms: 0 })
        .unwrap();
    let mut queue = DispatchQueue::new(8);
    let err = queue.submit(&registry, "missing", 1).unwrap_err();
    assert_eq!(err.name, "missing");
    assert_eq!(queue.len(), 0);
    // And again: no attempt ever creates an entry for an unknown name.
    assert!(queue.submit(&registry, "missing", 1).is_err());
    assert_eq!(queue.len(), 0);
}

#[test]
fn duplicate_registration_is_refused_and_changes_nothing() {
    let mut registry = CommandManager::new();
    registry
        .register_command(CommandSpec { name: "ping".to_string(), cooldown_ms: 0 })
        .unwrap();
    let err = registry
        .register_command(CommandSpec { name: "ping".to_string(), cooldown_ms: 99 })
        .unwrap_err();
    assert_eq!(err.name, "ping");
    // The original registration still stands, untouched.
    assert_eq!(registry.get_handler("ping").unwrap().cooldown_ms, 0);
    assert_eq!(registry.get_commands().len(), 1);
}

#[test]
fn jobs_leave_in_submission_order() {
    let mut registry = CommandManager::new();
    registry
        .register_command(CommandSpec { name: "a".to_string(), cooldown_ms: 10 })
        .unwrap();
    registry
        .register_command(CommandSpec { name: "b".to_string(), cooldown_ms: 20 })
        .unwrap();
    let mut queue = DispatchQueue::new(4);
    queue.submit(&registry, "a", 1).unwrap();
    queue.submit(&registry, "b", 2).unwrap();
    let first = queue.take_next().unwrap();
    assert_eq!(first.name, "a");
    assert_eq!(first.cooldown_ms, 10);
    assert_eq!(first.user, 1);
    let second = queue.take_next().unwrap();
    assert_eq!(second.name, "b");
    assert_eq!(second.user, 2);
    assert!(queue.take_next().is_none());
}

#[test]
fn worker_admission_respects_the_declared_cooldown() {
    let mut registry = CommandManager::new();
    registry
        .register_command(CommandSpec { name: "slow".to_string(), cooldown_ms: 1000 })
        .unwrap();
    let mut queue = DispatchQueue::new(4);
    queue.submit(&registry, "slow", 7).unwrap();
    queue.submit(&registry, "slow", 7).unwrap();
    let mut gate = CooldownState::new();
    let job1 = queue.take_next().unwrap();
    assert!(admit_job(&mut gate, &job1, 100).is_ok());
    let job2 = queue.take_next().unwrap();
    let err = admit_job(&mut gate, &job2, 600).unwrap_err();
    assert_eq!(err.remaining, 500);
}

#[test]
fn startup_roster_registers_every_command_once() {
    let mut manager = CommandManager::new();
    register_all(&mut manager).unwrap();
    let names = manager.get_commands();
    assert_eq!(names.len(), 13);
    assert_eq!(manager.get_handler("test").unwrap().cooldown_ms, 30000);
    assert_eq!(manager.get_handler("moderator").unwrap().cooldown_ms, 5000);
    assert_eq!(manager.get_handler("verify").unwrap().cooldown_ms, 10000);
    assert_eq!(manager.get_handler("key").unwrap().cooldown_ms, 0);
    assert_eq!(manager.get_handler("wip_create").unwrap().cooldown_ms, 0);
    assert!(manager.get_handler("nonexistent").is_none());
}

#[test]
fn command_info_names_match_the_roster() {
    assert_eq!(TestCommand.name(), "test");
    assert_eq!(TestCommand.cooldown(), 30);
    assert_eq!(KeyCommand.name(), "key");
    assert_eq!(KeyCommand.cooldown(), 0);
    assert_eq!(ModerateCommand.name(), "moderator");
    assert_eq!(ModerateCommand.cooldown(), 5);
    assert_eq!(VerifyCommand.name(), "verify");
    assert_eq!(VerifyCommand.cooldown(), 10);
}
