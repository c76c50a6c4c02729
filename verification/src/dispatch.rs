//! The command dispatch queue: a bounded, ordered job queue between the
//! event bus and the worker pool.
//!
//! Submitting under an unregistered name never creates a queue entry and
//! always yields a routing error.  Jobs leave the queue in the order they
//! entered it; before a worker runs a job it asks the cooldown gate for
//! admission under the command's declared cooldown.

use vstd::prelude::*;

use crate::commands::{spec_find, CommandManager};
use crate::cooldown::{spec_check_next, spec_check_outcome, CooldownState};
use crate::errors::{CooldownError, RoutingError};

verus! {

/// One queued unit of command work: which command, for which user.
pub struct CommandJob {
    pub name: String,
    pub cooldown_ms: u64,
    pub user: u64,
}

/// The mathematical shadow of a job: (command name, cooldown, user).
pub open spec fn job_model(j: CommandJob) -> (Seq<char>, u64, u64) {
    (j.name@, j.cooldown_ms, j.user)
}

pub struct DispatchQueue {
    jobs: Vec<CommandJob>,
    capacity: usize,
}

impl View for DispatchQueue {
    type V = Seq<(Seq<char>, u64, u64)>;

    closed spec fn view(&self) -> Seq<(Seq<char>, u64, u64)> {
        self.jobs@.map_values(|j: CommandJob| job_model(j))
    }
}

impl DispatchQueue {
    pub closed spec fn spec_capacity(&self) -> usize {
        self.capacity
    }

    pub fn new(capacity: usize) -> (r: Self)
        ensures
            r@ == Seq::<(Seq<char>, u64, u64)>::empty(),
            r.spec_capacity() == capacity,
    {
        let r = DispatchQueue { jobs: Vec::new(), capacity };
        proof {
            assert(r@ =~= Seq::<(Seq<char>, u64, u64)>::empty());
        }
        r
    }

    pub fn len(&self) -> (r: usize)
        ensures
            r == self@.len(),
    {
        self.jobs.len()
    }

    pub fn capacity(&self) -> (r: usize)
        ensures
            r == self.spec_capacity(),
    {
        self.capacity
    }

    /// Look the command up and enqueue a job for it.  An unknown name
    /// enqueues nothing and reports the routing error; a known one appends
    /// a job carrying the command's declared cooldown.  The caller waits
    /// for spare capacity before submitting: the producer suspends rather
    /// than drop work.
    pub fn submit(&mut self, registry: &CommandManager, name: &str, user: u64) -> (r: Result<
        (),
        RoutingError,
    >)
        requires
            old(self)@.len() < old(self).spec_capacity(),
        ensures
            final(self).spec_capacity() == old(self).spec_capacity(),
            match spec_find(registry@, name@) {
                None => r matches Err(e) && e.name@ == name@ && final(self)@ == old(self)@,
                Some(c) => r is Ok && final(self)@ == old(self)@.push(
                    (name@, c.cooldown_ms, user),
                ),
            },
    {
        match registry.get_handler(name) {
            None => Err(RoutingError { name: name.to_owned() }),
            Some(c) => {
                self.jobs.push(CommandJob { name: name.to_owned(), cooldown_ms: c.cooldown_ms, user });
                proof {
                    assert(self@ =~= old(self)@.push((name@, c.cooldown_ms, user)));
                }
                Ok(())
            },
        }
    }

    /// A worker pulls the oldest job; the queue is first-in, first-out.
    pub fn take_next(&mut self) -> (r: Option<CommandJob>)
        ensures
            final(self).spec_capacity() == old(self).spec_capacity(),
            match r {
                None => old(self)@.len() == 0 && final(self)@ == old(self)@,
                Some(j) => old(self)@.len() > 0 && job_model(j) == old(self)@[0] && final(self)@
                    == old(self)@.drop_first(),
            },
    {
        if self.jobs.len() == 0 {
            return None;
        }
        let j = self.jobs.remove(0);
        proof {
            assert(self@ =~= old(self)@.drop_first());
        }
        Some(j)
    }
}

/// The worker's admission step: ask the cooldown gate whether this job's
/// user may run this command now.  On rejection the handler is not
/// invoked and the user is told the remaining wait.
pub fn admit_job(gate: &mut CooldownState, job: &CommandJob, now: u64) -> (r: Result<
    (),
    CooldownError,
>)
    ensures
        final(gate)@ == spec_check_next(old(gate)@, job.user, now, job.cooldown_ms),
        r == match spec_check_outcome(old(gate)@, job.user, now, job.cooldown_ms) {
            Some(remaining) => Err::<(), CooldownError>(CooldownError { remaining }),
            None => Ok::<(), CooldownError>(()),
        },
{
    gate.check_and_update(job.user, now, job.cooldown_ms)
}

} // verus!
