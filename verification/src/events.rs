//! The typed event model, the handler registry, and the event bus.
//!
//! Events enter over a single bounded, ordered ingress queue (the producer
//! suspends when it is full; nothing is dropped).  For each dequeued event
//! the bus computes a delivery plan: every handler subscribed to the
//! event's tag receives it, except that a handler declaring a routing key
//! receives it only when the session router confirms a live session under
//! that key for the event's acting user — and events without an acting
//! user never match a routed handler.

use vstd::prelude::*;

use crate::router::{spec_gateway, EventRouter};

verus! {

/// A typed platform event as the ingress bridge hands it to the bus.
/// Cloned per delivery; never mutated after creation.
pub enum EventData {
    Ready,
    Interaction(Interaction),
    Message,
}

/// The interactive payloads, each carrying the acting user.
pub enum Interaction {
    /// A slash-command invocation: the command name and, where the command
    /// declares subcommands, the chosen one.
    Command { user: u64, name: String, subcommand: Option<String> },
    /// A component interaction: a button press or a selection change (the
    /// control reports the full current selection, not a delta).
    Component { user: u64, custom_id: String, selected_users: Vec<u64> },
    /// A submitted short text form: (field key, entered value) pairs.
    Modal { user: u64, custom_id: String, fields: Vec<(String, String)> },
}

/// The tags handlers subscribe to.
#[derive(Clone, Copy, PartialEq, Eq, Structural, Debug)]
pub enum EventTag {
    Ready,
    InteractionCreate,
    Message,
}

pub open spec fn spec_tag_of(e: EventData) -> EventTag {
    match e {
        EventData::Ready => EventTag::Ready,
        EventData::Interaction(_) => EventTag::InteractionCreate,
        EventData::Message => EventTag::Message,
    }
}

pub fn tag_of(e: &EventData) -> (r: EventTag)
    ensures
        r == spec_tag_of(*e),
{
    match e {
        EventData::Ready => EventTag::Ready,
        EventData::Interaction(_) => EventTag::InteractionCreate,
        EventData::Message => EventTag::Message,
    }
}

/// The acting user an event originates from: interactions carry one,
/// ready and message events carry none.
pub open spec fn spec_event_user(e: EventData) -> Option<u64> {
    match e {
        EventData::Interaction(i) => match i {
            Interaction::Command { user, .. } => Some(user),
            Interaction::Component { user, .. } => Some(user),
            Interaction::Modal { user, .. } => Some(user),
        },
        _ => None,
    }
}

pub fn event_user(e: &EventData) -> (r: Option<u64>)
    ensures
        r == spec_event_user(*e),
{
    match e {
        EventData::Interaction(i) => match i {
            Interaction::Command { user, .. } => Some(*user),
            Interaction::Component { user, .. } => Some(*user),
            Interaction::Modal { user, .. } => Some(*user),
        },
        _ => None,
    }
}

/// A registered event subscriber: the tag it listens to and, optionally,
/// the routing key that scopes its deliveries to one live session.
pub struct HandlerRegistration {
    pub tag: EventTag,
    pub route: Option<String>,
}

pub open spec fn spec_route_of(h: HandlerRegistration) -> Option<Seq<char>> {
    match h.route {
        Some(k) => Some(k@),
        None => None,
    }
}

/// Does this handler receive this event, given the current routing map?
pub open spec fn spec_should_deliver(
    h: HandlerRegistration,
    e: EventData,
    routes: Map<u64, Seq<char>>,
) -> bool {
    spec_tag_of(e) == h.tag && match spec_route_of(h) {
        None => true,
        Some(key) => match spec_event_user(e) {
            Some(user) => spec_gateway(routes, key, user),
            None => false,
        },
    }
}

/// The static list of event subscribers, created once at startup.
pub struct HandlerRegistry {
    handlers: Vec<HandlerRegistration>,
}

impl View for HandlerRegistry {
    type V = Seq<HandlerRegistration>;

    closed spec fn view(&self) -> Seq<HandlerRegistration> {
        self.handlers@
    }
}

impl HandlerRegistry {
    pub fn new() -> (r: Self)
        ensures
            r@ == Seq::<HandlerRegistration>::empty(),
    {
        HandlerRegistry { handlers: Vec::new() }
    }

    pub fn register(&mut self, handler: HandlerRegistration)
        ensures
            final(self)@ == old(self)@.push(handler),
    {
        self.handlers.push(handler);
    }

    pub fn len(&self) -> (r: usize)
        ensures
            r == self@.len(),
    {
        self.handlers.len()
    }

    /// Decide whether one handler receives the event.
    pub fn should_deliver(&self, i: usize, e: &EventData, router: &EventRouter) -> (r: bool)
        requires
            i < self@.len(),
        ensures
            r == spec_should_deliver(self@[i as int], *e, router@),
    {
        let h = &self.handlers[i];
        if tag_of(e) != h.tag {
            return false;
        }
        match &h.route {
            None => true,
            Some(key) => match event_user(e) {
                Some(user) => router.check_gateway(key.as_str(), user),
                None => false,
            },
        }
    }

    /// The indices of the handlers that receive this event, in
    /// registration order.  The caller invokes each independently, so one
    /// slow or failing handler cannot block the others.
    pub fn delivery_plan(&self, e: &EventData, router: &EventRouter) -> (r: Vec<usize>)
        ensures
            forall|k: int|
                0 <= k < r@.len() ==> (#[trigger] r@[k]) < self@.len() && spec_should_deliver(
                    self@[r@[k] as int],
                    *e,
                    router@,
                ),
            forall|i: int|
                0 <= i < self@.len() && spec_should_deliver(#[trigger] self@[i], *e, router@)
                    ==> r@.contains(i as usize),
            forall|k1: int, k2: int| 0 <= k1 < k2 < r@.len() ==> r@[k1] < r@[k2],
    {
        let mut plan: Vec<usize> = Vec::new();
        let mut i: usize = 0;
        while i < self.handlers.len()
            invariant
                i <= self@.len(),
                forall|k: int|
                    0 <= k < plan@.len() ==> (#[trigger] plan@[k]) < i && spec_should_deliver(
                        self@[plan@[k] as int],
                        *e,
                        router@,
                    ),
                forall|j: int|
                    0 <= j < i && spec_should_deliver(#[trigger] self@[j], *e, router@)
                        ==> plan@.contains(j as usize),
                forall|k1: int, k2: int| 0 <= k1 < k2 < plan@.len() ==> plan@[k1] < plan@[k2],
            decreases self@.len() - i,
        {
            let ghost prev_plan = plan@;
            if self.should_deliver(i, e, router) {
                plan.push(i);
            }
            proof {
                assert forall|j: int|
                    0 <= j < i + 1 && spec_should_deliver(
                        #[trigger] self@[j],
                        *e,
                        router@,
                    ) implies plan@.contains(j as usize) by {
                    if j < i {
                        let k = choose|k: int|
                            0 <= k < prev_plan.len() && prev_plan[k] == j as usize;
                        assert(plan@[k] == j as usize);
                    } else {
                        assert(plan@[plan@.len() - 1] == i as usize);
                    }
                }
            }
            i += 1;
        }
        plan
    }
}

/// The bounded, ordered ingress queue in front of the bus: a single
/// producer appends, a single consumer takes events in arrival order.
pub struct EventBus {
    queue: Vec<EventData>,
    capacity: usize,
}

impl View for EventBus {
    type V = Seq<EventData>;

    closed spec fn view(&self) -> Seq<EventData> {
        self.queue@
    }
}

impl EventBus {
    pub closed spec fn spec_capacity(&self) -> usize {
        self.capacity
    }

    pub fn new(capacity: usize) -> (r: Self)
        ensures
            r@ == Seq::<EventData>::empty(),
            r.spec_capacity() == capacity,
    {
        EventBus { queue: Vec::new(), capacity }
    }

    pub fn len(&self) -> (r: usize)
        ensures
            r == self@.len(),
    {
        self.queue.len()
    }

    pub fn capacity(&self) -> (r: usize)
        ensures
            r == self.spec_capacity(),
    {
        self.capacity
    }

    /// The producer appends one event.  It calls this only with spare
    /// capacity: on a full queue it suspends instead of dropping.
    pub fn ingest(&mut self, e: EventData)
        requires
            old(self)@.len() < old(self).spec_capacity(),
        ensures
            final(self).spec_capacity() == old(self).spec_capacity(),
            final(self)@ == old(self)@.push(e),
    {
        self.queue.push(e);
    }

    /// The consumer takes the oldest event; delivery order is arrival
    /// order.
    pub fn next_event(&mut self) -> (r: Option<EventData>)
        ensures
            final(self).spec_capacity() == old(self).spec_capacity(),
            match r {
                None => old(self)@.len() == 0 && final(self)@ == old(self)@,
                Some(e) => old(self)@.len() > 0 && e == old(self)@[0] && final(self)@ == old(
                    self,
                )@.drop_first(),
            },
    {
        if self.queue.len() == 0 {
            return None;
        }
        let e = self.queue.remove(0);
        proof {
            assert(self@ =~= old(self)@.drop_first());
        }
        Some(e)
    }
}

} // verus!
