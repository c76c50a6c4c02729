//! The per-user ban-workflow session store.
//!
//! At most one live session exists per user: starting a new workflow
//! supersedes the old session, whose background waiter must be cancelled
//! (the caller receives the superseded generation for exactly that).  Each
//! session carries the draft of the ban under construction — the selected
//! targets, replaced wholesale on every selection change, and the three
//! editable details — together with the deadline at which its background
//! waiter fires.

use std::collections::HashMap;
use vstd::prelude::*;

use crate::strutil::{parse_u64, spec_parse_u64};

verus! {

broadcast use vstd::std_specs::hash::group_hash_axioms;

/// The editable details of one ban draft.  A `duration_days` of 0 means a
/// permanent ban.
pub struct BanInfo {
    pub reason: Option<String>,
    pub duration_days: Option<u8>,
    pub attachment: Option<String>,
}

/// One user's in-progress ban workflow.
pub struct BanData {
    /// The currently selected targets; replaced in full on every
    /// selection change.
    pub targets: Vec<u64>,
    /// The edited details.
    pub info: BanInfo,
    /// Identifies this session's cancel signal to the outside waiter.
    pub generation: u64,
    /// When the background waiter times the session out.
    pub deadline: u64,
}

/// The three detail fields a short text form can edit.
#[derive(Clone, Copy, PartialEq, Eq, Structural, Debug)]
pub enum BanField {
    Reason,
    Duration,
    Attachment,
}

/// Everything but the named detail field is unchanged between two drafts.
pub open spec fn spec_same_except(a: BanData, b: BanData, field: BanField) -> bool {
    &&& a.targets == b.targets
    &&& a.generation == b.generation
    &&& a.deadline == b.deadline
    &&& (field != BanField::Reason ==> a.info.reason == b.info.reason)
    &&& (field != BanField::Duration ==> a.info.duration_days == b.info.duration_days)
    &&& (field != BanField::Attachment ==> a.info.attachment == b.info.attachment)
}

/// The session store: one draft per user at most.
pub struct BanSession {
    sessions: HashMap<u64, BanData>,
    next_generation: u64,
}

impl View for BanSession {
    type V = Map<u64, BanData>;

    closed spec fn view(&self) -> Map<u64, BanData> {
        self.sessions@
    }
}

impl BanSession {
    pub fn new() -> (r: Self)
        ensures
            r@ == Map::<u64, BanData>::empty(),
    {
        BanSession { sessions: HashMap::new(), next_generation: 0 }
    }

    /// Start a fresh session for `user` with an empty draft and a waiter
    /// armed for `now + window_ms`.  If the user already had a live
    /// session, the new one supersedes it, and the superseded session's
    /// generation comes back so the caller can send that waiter its
    /// cancel signal.  The second result is the new session's generation.
    pub fn create_user_session(&mut self, user: u64, now: u64, window_ms: u64) -> (r: (
        Option<u64>,
        u64,
    ))
        requires
            now + window_ms <= u64::MAX,
        ensures
            r.0 == if old(self)@.contains_key(user) {
                Some(old(self)@[user].generation)
            } else {
                None::<u64>
            },
            final(self)@.contains_key(user),
            final(self)@[user].targets@ == Seq::<u64>::empty(),
            final(self)@[user].info.reason is None,
            final(self)@[user].info.duration_days is None,
            final(self)@[user].info.attachment is None,
            final(self)@[user].generation == r.1,
            final(self)@[user].deadline == now + window_ms,
            final(self)@ == old(self)@.insert(user, final(self)@[user]),
    {
        let superseded = match self.sessions.get(&user) {
            Some(d) => Some(d.generation),
            None => None,
        };
        let generation = self.next_generation;
        self.next_generation = self.next_generation.wrapping_add(1);
        let draft = BanData {
            targets: Vec::new(),
            info: BanInfo { reason: None, duration_days: None, attachment: None },
            generation,
            deadline: now + window_ms,
        };
        self.sessions.insert(user, draft);
        (superseded, generation)
    }

    /// Look a user's live draft up.
    pub fn get(&self, user: u64) -> (r: Option<&BanData>)
        ensures
            match r {
                Some(d) => self@.contains_key(user) && *d == self@[user],
                None => !self@.contains_key(user),
            },
    {
        self.sessions.get(&user)
    }

    /// A selection change: replace the draft's targets wholesale with the
    /// control's full current selection.  Without a live session the
    /// event is ignored.
    pub fn handle_select(&mut self, user: u64, values: Vec<u64>) -> (r: bool)
        ensures
            r == old(self)@.contains_key(user),
            r ==> {
                &&& final(self)@.contains_key(user)
                &&& final(self)@[user].targets@ == values@
                &&& final(self)@[user].info == old(self)@[user].info
                &&& final(self)@[user].generation == old(self)@[user].generation
                &&& final(self)@[user].deadline == old(self)@[user].deadline
            },
            !r ==> final(self)@ == old(self)@,
            r ==> final(self)@ == old(self)@.insert(user, final(self)@[user]),
    {
        match self.sessions.remove(&user) {
            Some(mut d) => {
                d.targets = values;
                self.sessions.insert(user, d);
                proof {
                    assert(self@ =~= old(self)@.insert(user, self@[user]));
                }
                true
            },
            None => {
                proof {
                    assert(self@ =~= old(self)@);
                }
                false
            },
        }
    }

    /// A submitted detail form: update exactly the one field the form
    /// edits.  A duration that is not a plain number of at most 255
    /// changes nothing and reports failure; without a live session the
    /// submission is ignored.
    pub fn update_detail(&mut self, user: u64, field: BanField, value: &str) -> (r: bool)
        ensures
            !old(self)@.contains_key(user) ==> !r && final(self)@ == old(self)@,
            old(self)@.contains_key(user) ==> match field {
                BanField::Reason => r && (final(self)@[user].info.reason matches Some(s) && s@
                    == value@),
                BanField::Duration => match spec_parse_u64(value@) {
                    Some(n) => if n <= 255 {
                        r && final(self)@[user].info.duration_days == Some(n as u8)
                    } else {
                        !r && final(self)@ == old(self)@
                    },
                    None => !r && final(self)@ == old(self)@,
                },
                BanField::Attachment => r && (final(self)@[user].info.attachment matches Some(s)
                    && s@ == value@),
            },
            r ==> old(self)@.contains_key(user) && final(self)@.contains_key(user)
                && spec_same_except(final(self)@[user], old(self)@[user], field),
            r ==> final(self)@ == old(self)@.insert(user, final(self)@[user]),
    {
        let parsed_duration: Option<u8> = match field {
            BanField::Duration => {
                match parse_u64(value) {
                    Some(n) => {
                        if n <= 255 {
                            Some(n as u8)
                        } else {
                            return false;
                        }
                    },
                    None => {
                        return false;
                    },
                }
            },
            _ => None,
        };
        match self.sessions.remove(&user) {
            Some(mut d) => {
                match field {
                    BanField::Reason => {
                        d.info.reason = Some(value.to_owned());
                    },
                    BanField::Duration => {
                        d.info.duration_days = parsed_duration;
                    },
                    BanField::Attachment => {
                        d.info.attachment = Some(value.to_owned());
                    },
                }
                self.sessions.insert(user, d);
                proof {
                    assert(self@ =~= old(self)@.insert(user, self@[user]));
                }
                true
            },
            None => {
                proof {
                    assert(self@ =~= old(self)@);
                }
                false
            },
        }
    }

    /// Is the confirm control enabled?  Only while a live session has at
    /// least one selected target.
    pub fn confirm_enabled(&self, user: u64) -> (r: bool)
        ensures
            r == (self@.contains_key(user) && self@[user].targets@.len() > 0),
    {
        match self.sessions.get(&user) {
            Some(d) => d.targets.len() > 0,
            None => false,
        }
    }

    /// Remove a user's session, reporting the removed generation.
    /// Removing an already-absent session is a no-op: the confirm,
    /// cancel, and timeout teardown paths may race, and each may find the
    /// work already done.
    pub fn remove(&mut self, user: u64) -> (r: Option<u64>)
        ensures
            r == if old(self)@.contains_key(user) {
                Some(old(self)@[user].generation)
            } else {
                None::<u64>
            },
            final(self)@ == old(self)@.remove(user),
    {
        match self.sessions.remove(&user) {
            Some(d) => Some(d.generation),
            None => None,
        }
    }
}

} // verus!
