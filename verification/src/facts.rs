//! The domain-fact fan-out: named fact types from the webhook bridge and
//! the startup signal, each carried to the handlers registered for it.
//! Handlers are named by plain ids here; the outside shell owns the
//! callable objects and invokes each id's handler independently, so one
//! failing handler cannot affect another.

use vstd::prelude::*;

use crate::patreon::{ApiDocument, MemberAttributes};

verus! {

/// The fact types handlers can subscribe to.
#[derive(Clone, Copy, PartialEq, Eq, Structural, Debug, Hash)]
pub enum EventType {
    PatreonWebhookUserCreated,
    PatreonWebhookUserUpdated,
    PatreonWebhookUserDeleted,
    BotStarted,
}

/// The payload a fact carries to its handlers.
pub enum EventTypeData {
    PatreonData(String),
    PatreonMemberData(ApiDocument<MemberAttributes>),
}

/// A registered fact handler: which fact type it reacts to.
pub trait EventInfo {
    fn event_type(&self) -> EventType;
}

/// The capability a fact handler implements.
pub trait UtilsEventHandler {
    fn handle(&self, data: EventTypeData) -> Result<(), crate::errors::HandlerExecutionError>;
}

/// The handler ids registered for a fact type, oldest registration
/// first.
pub open spec fn spec_handlers_for(s: Seq<(EventType, u64)>, t: EventType) -> Seq<u64>
    decreases s.len(),
{
    if s.len() == 0 {
        Seq::<u64>::empty()
    } else {
        let rest = spec_handlers_for(s.drop_last(), t);
        if s.last().0 == t {
            rest.push(s.last().1)
        } else {
            rest
        }
    }
}

/// The fact registry: (fact type, handler id) pairs in registration
/// order.
pub struct EventManager {
    event_handlers: Vec<(EventType, u64)>,
}

impl View for EventManager {
    type V = Seq<(EventType, u64)>;

    closed spec fn view(&self) -> Seq<(EventType, u64)> {
        self.event_handlers@
    }
}

impl EventManager {
    pub fn new() -> (r: Self)
        ensures
            r@ == Seq::<(EventType, u64)>::empty(),
    {
        EventManager { event_handlers: Vec::new() }
    }

    /// Subscribe one handler id to one fact type.  Several handlers may
    /// share a type; each registration is kept.
    pub fn register_event(&mut self, event: EventType, handler_id: u64)
        ensures
            final(self)@ == old(self)@.push((event, handler_id)),
    {
        self.event_handlers.push((event, handler_id));
    }

    /// The fan-out plan for one fact: the ids of every handler
    /// registered for its type, in registration order.  The caller
    /// invokes each independently and logs failures; none propagates.
    pub fn emit(&self, event_type: EventType) -> (r: Vec<u64>)
        ensures
            r@ == spec_handlers_for(self@, event_type),
    {
        let mut plan: Vec<u64> = Vec::new();
        let mut i: usize = 0;
        proof {
            assert(self@.take(0) =~= Seq::<(EventType, u64)>::empty());
        }
        while i < self.event_handlers.len()
            invariant
                i <= self@.len(),
                plan@ == spec_handlers_for(self@.take(i as int), event_type),
            decreases self@.len() - i,
        {
            proof {
                assert(self@.take(i + 1).drop_last() =~= self@.take(i as int));
                assert(self@.take(i + 1).last() == self@[i as int]);
            }
            if self.event_handlers[i].0 == event_type {
                plan.push(self.event_handlers[i].1);
            }
            i += 1;
        }
        proof {
            assert(self@.take(self@.len() as int) =~= self@);
        }
        plan
    }
}

/// Which fact type, if any, a webhook event kind is announced under.
pub fn fact_type_of_kind(kind: crate::webhook::EventKind) -> (r: Option<EventType>)
    ensures
        r == match kind {
            crate::webhook::EventKind::CreateMember => Some(EventType::PatreonWebhookUserCreated),
            crate::webhook::EventKind::UpdateMember => Some(EventType::PatreonWebhookUserUpdated),
            crate::webhook::EventKind::DeleteMember => Some(EventType::PatreonWebhookUserDeleted),
            _ => None::<EventType>,
        },
{
    match kind {
        crate::webhook::EventKind::CreateMember => Some(EventType::PatreonWebhookUserCreated),
        crate::webhook::EventKind::UpdateMember => Some(EventType::PatreonWebhookUserUpdated),
        crate::webhook::EventKind::DeleteMember => Some(EventType::PatreonWebhookUserDeleted),
        _ => None,
    }
}

} // verus!
