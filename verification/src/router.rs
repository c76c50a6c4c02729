//! The session router: one mutually-exclusive map from a user to the
//! routing key of that user's single live workflow session.
//!
//! `register` is an unconditional overwrite (last write wins), `unregister`
//! removes the entry only when the stored key matches (a stale unregister
//! from a superseded session must not clobber a newer one), and
//! `check_gateway` is the read-only membership-and-match test the event bus
//! uses before delivering a routed event.

use std::collections::HashMap;
use vstd::prelude::*;

use crate::strutil::str_eq;

verus! {

broadcast use vstd::std_specs::hash::group_hash_axioms;

/// What a registration does to the routing map: unconditional overwrite.
pub open spec fn spec_register(
    m: Map<u64, Seq<char>>,
    key: Seq<char>,
    user: u64,
) -> Map<u64, Seq<char>> {
    m.insert(user, key)
}

/// What an unregistration does: removal only when the stored key matches.
pub open spec fn spec_unregister(
    m: Map<u64, Seq<char>>,
    key: Seq<char>,
    user: u64,
) -> Map<u64, Seq<char>> {
    if spec_gateway(m, key, user) {
        m.remove(user)
    } else {
        m
    }
}

/// The gateway test: the user has a live session under exactly this key.
pub open spec fn spec_gateway(m: Map<u64, Seq<char>>, key: Seq<char>, user: u64) -> bool {
    m.contains_key(user) && m[user] == key
}

pub struct EventRouter {
    routes: HashMap<u64, String>,
}

impl View for EventRouter {
    type V = Map<u64, Seq<char>>;

    closed spec fn view(&self) -> Map<u64, Seq<char>> {
        Map::new(|u: u64| self.routes@.contains_key(u), |u: u64| self.routes@[u]@)
    }
}

impl EventRouter {
    pub fn new() -> (r: Self)
        ensures
            r@ == Map::<u64, Seq<char>>::empty(),
    {
        let r = EventRouter { routes: HashMap::new() };
        proof {
            assert(r@ =~= Map::<u64, Seq<char>>::empty());
        }
        r
    }

    /// Give `user` the route `router_id`, superseding whatever was there.
    pub fn register(&mut self, router_id: &str, user: u64)
        ensures
            final(self)@ == spec_register(old(self)@, router_id@, user),
    {
        self.routes.insert(user, router_id.to_owned());
        proof {
            assert(self@ =~= spec_register(old(self)@, router_id@, user));
        }
    }

    /// Drop `user`'s route, but only if it still carries `router_id`: a
    /// stale unregister from an already-superseded session is a no-op.
    pub fn unregister(&mut self, router_id: &str, user: u64)
        ensures
            final(self)@ == spec_unregister(old(self)@, router_id@, user),
    {
        let matches = match self.routes.get(&user) {
            Some(stored) => str_eq(stored.as_str(), router_id),
            None => false,
        };
        if matches {
            self.routes.remove(&user);
            proof {
                assert(self@ =~= spec_unregister(old(self)@, router_id@, user));
            }
        } else {
            proof {
                assert(self@ =~= spec_unregister(old(self)@, router_id@, user));
            }
        }
    }

    /// Is `user` currently routed under exactly `router_id`?
    pub fn check_gateway(&self, router_id: &str, user: u64) -> (r: bool)
        ensures
            r == spec_gateway(self@, router_id@, user),
    {
        match self.routes.get(&user) {
            Some(stored) => str_eq(stored.as_str(), router_id),
            None => false,
        }
    }
}

/// Registrations applied in order, oldest first.
pub open spec fn apply_registers(
    m: Map<u64, Seq<char>>,
    keys: Seq<Seq<char>>,
    user: u64,
) -> Map<u64, Seq<char>>
    decreases keys.len(),
{
    if keys.len() == 0 {
        m
    } else {
        spec_register(apply_registers(m, keys.drop_last(), user), keys.last(), user)
    }
}

/// For any sequence of registrations by one user, only the latest key is
/// active, and an unregister issued under any older key is a no-op.
pub proof fn lemma_latest_key_wins(
    m: Map<u64, Seq<char>>,
    keys: Seq<Seq<char>>,
    user: u64,
    stale: Seq<char>,
)
    requires
        keys.len() > 0,
        stale != keys.last(),
    ensures
        spec_gateway(apply_registers(m, keys, user), keys.last(), user),
        !spec_gateway(apply_registers(m, keys, user), stale, user),
        spec_unregister(apply_registers(m, keys, user), stale, user) == apply_registers(
            m,
            keys,
            user,
        ),
{
    assert(apply_registers(m, keys, user)[user] == keys.last());
}

} // verus!
