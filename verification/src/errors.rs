//! The error taxonomy of the engine.
//!
//! Registration failures are fatal at startup; everything else is
//! recoverable and scoped to one command invocation, one target, or one
//! confirm action.

use vstd::prelude::*;

verus! {

/// Two commands shared a name during startup registration.  Fatal.
#[derive(Debug, Clone, PartialEq, Eq)]
pub struct RegistrationError {
    pub name: String,
}

/// A command was invoked under a name no handler is registered for.
/// The invoker sees an "unavailable" reply; nothing is enqueued.
#[derive(Debug, Clone, PartialEq, Eq)]
pub struct RoutingError {
    pub name: String,
}

/// The cooldown gate rejected an invocation; the user must wait
/// `remaining` more milliseconds.
#[derive(Debug, Clone, PartialEq, Eq)]
pub struct CooldownError {
    pub remaining: u64,
}

/// A confirm action included the invoker among its own targets; the whole
/// action is rejected and nothing is applied.
#[derive(Debug, Clone, PartialEq, Eq, Structural)]
pub struct SelfTargetError;

/// One target held an elevated permission the invoker cannot override;
/// that target is skipped while the action continues for the rest.
#[derive(Debug, Clone, PartialEq, Eq, Structural)]
pub struct PermissionError {
    pub target: u64,
}

/// A handler body failed while executing a job.  Caught at the dispatch
/// boundary and never surfaced to the bus or to other jobs.
#[derive(Debug, Clone, PartialEq, Eq, Structural)]
pub struct HandlerExecutionError;

} // verus!
