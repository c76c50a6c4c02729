//! The cooldown gate: a per-user rate limiter guarding command execution.
//!
//! One map from user to the timestamp of that user's last admitted
//! invocation, in milliseconds.  The check-then-update sequence is a single
//! call, so two near-simultaneous attempts cannot both be admitted.  A
//! rejected attempt never resets or extends the window.  Entries are
//! removed again by a deferred `expire_entry` call once their window has
//! elapsed, so the map is self-bounding; removal of an already-refreshed or
//! already-absent entry is a no-op.

use std::collections::HashMap;
use vstd::prelude::*;

use crate::errors::CooldownError;

verus! {

broadcast use vstd::std_specs::hash::group_hash_axioms;

/// Milliseconds since the stored timestamp; a clock that appears to have
/// gone backwards counts as no time elapsed.
pub open spec fn spec_elapsed(now: u64, last: u64) -> int {
    if now >= last {
        now - last
    } else {
        0
    }
}

/// The cooldown gate's answer: `None` admits, `Some(remaining)` rejects and names
/// the wait still owed.
pub open spec fn spec_check_outcome(
    m: Map<u64, u64>,
    user: u64,
    now: u64,
    cooldown: u64,
) -> Option<u64> {
    if m.contains_key(user) && spec_elapsed(now, m[user]) < cooldown {
        Some((cooldown - spec_elapsed(now, m[user])) as u64)
    } else {
        None
    }
}

/// The map after a check: refreshed to `now` on admission, untouched on
/// rejection.
pub open spec fn spec_check_next(m: Map<u64, u64>, user: u64, now: u64, cooldown: u64) -> Map<
    u64,
    u64,
> {
    if spec_check_outcome(m, user, now, cooldown) is Some {
        m
    } else {
        m.insert(user, now)
    }
}

/// The map after a deferred removal: the entry goes only if it is still
/// exactly the one whose admission scheduled the removal.
pub open spec fn spec_expire(m: Map<u64, u64>, user: u64, stamp: u64) -> Map<u64, u64> {
    if m.contains_key(user) && m[user] == stamp {
        m.remove(user)
    } else {
        m
    }
}

pub struct CooldownState {
    user_cooldowns: HashMap<u64, u64>,
}

impl View for CooldownState {
    type V = Map<u64, u64>;

    closed spec fn view(&self) -> Map<u64, u64> {
        self.user_cooldowns@
    }
}

impl CooldownState {
    pub fn new() -> (r: Self)
        ensures
            r@ == Map::<u64, u64>::empty(),
    {
        CooldownState { user_cooldowns: HashMap::new() }
    }

    /// Admit the user if no window is open, opening a fresh window at
    /// `now`; otherwise reject with the remaining wait and leave the entry
    /// untouched.
    pub fn check_and_update(&mut self, user_id: u64, now: u64, cooldown: u64) -> (r: Result<
        (),
        CooldownError,
    >)
        ensures
            final(self)@ == spec_check_next(old(self)@, user_id, now, cooldown),
            r == match spec_check_outcome(old(self)@, user_id, now, cooldown) {
                Some(remaining) => Err::<(), CooldownError>(CooldownError { remaining }),
                None => Ok::<(), CooldownError>(()),
            },
            r is Err ==> r->Err_0.remaining > 0,
    {
        let last = match self.user_cooldowns.get(&user_id) {
            Some(last) => Some(*last),
            None => None,
        };
        if let Some(last) = last {
            let elapsed = if now >= last {
                now - last
            } else {
                0
            };
            if elapsed < cooldown {
                return Err(CooldownError { remaining: cooldown - elapsed });
            }
        }
        self.user_cooldowns.insert(user_id, now);
        Ok(())
    }

    /// The deferred cleanup scheduled by an admission: remove the entry,
    /// but only if it is still the exact one that admission wrote.
    pub fn expire_entry(&mut self, user_id: u64, stamp: u64)
        ensures
            final(self)@ == spec_expire(old(self)@, user_id, stamp),
    {
        let matches = match self.user_cooldowns.get(&user_id) {
            Some(last) => *last == stamp,
            None => false,
        };
        if matches {
            self.user_cooldowns.remove(&user_id);
        }
    }
}

/// Two admission attempts within one window yield an admission and then a
/// rejection whose positive remainder shrinks as time advances; once the
/// window has fully elapsed, an attempt is admitted again.
pub proof fn lemma_cooldown_window(
    m: Map<u64, u64>,
    user: u64,
    d: u64,
    t0: u64,
    t1: u64,
    t1b: u64,
    t2: u64,
)
    requires
        spec_check_outcome(m, user, t0, d) is None,
        t0 <= t1,
        t1 < t0 + d,
        t1 <= t1b,
        t1b < t0 + d,
        t0 + d <= t2,
    ensures
        ({
            let m1 = spec_check_next(m, user, t0, d);
            &&& spec_check_outcome(m1, user, t1, d) == Some((d - (t1 - t0)) as u64)
            &&& d - (t1 - t0) > 0
            &&& spec_check_outcome(m1, user, t1b, d) == Some((d - (t1b - t0)) as u64)
            &&& d - (t1b - t0) <= d - (t1 - t0)
            &&& spec_check_next(m1, user, t1, d) == m1
            &&& spec_check_outcome(m1, user, t2, d) is None
        }),
{
}

} // verus!
