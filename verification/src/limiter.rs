//! Bounded concurrency gate for in-flight probes.
//!
//! `ThreadLimiter` models the permit accounting of the scanner's worker
//! limit: at most `limit` probes may hold a permit at once.  The surrounding
//! process blocks a worker until `can_acquire` holds and only then calls
//! `acquire`; `release` returns the permit when the probe's scope ends.

use vstd::prelude::*;

verus! {

/// Permit accounting for a bounded worker pool.
///
/// `running` counts the permits currently outstanding; it never exceeds
/// `limit`.  Waking order of blocked callers is not modelled: any waiting
/// caller may be the next to acquire.
pub struct ThreadLimiter {
    pub limit: usize,
    pub running: usize,
}

impl ThreadLimiter {
    /// The limiter never hands out more permits than its limit.
    pub open spec fn wf(&self) -> bool {
        self.running <= self.limit
    }

    pub fn new(limit: usize) -> (r: ThreadLimiter)
        ensures
            r.wf(),
            r.limit == limit,
            r.running == 0,
    {
        ThreadLimiter { limit, running: 0 }
    }

    /// Whether a permit is available without waiting.
    pub fn can_acquire(&self) -> (r: bool)
        ensures
            r == (self.running < self.limit),
    {
        self.running < self.limit
    }

    /// Grant one permit.  A caller for which no permit is available must
    /// wait until one is released; it may call this only once
    /// `can_acquire` holds.
    pub fn acquire(&mut self)
        requires
            old(self).wf(),
            old(self).running < old(self).limit,
        ensures
            final(self).wf(),
            final(self).limit == old(self).limit,
            final(self).running == old(self).running + 1,
    {
        self.running = self.running + 1;
    }

    /// Return one outstanding permit, waking at most one waiting caller.
    pub fn release(&mut self)
        requires
            old(self).wf(),
            old(self).running > 0,
        ensures
            final(self).wf(),
            final(self).limit == old(self).limit,
            final(self).running == old(self).running - 1,
    {
        self.running = self.running - 1;
    }
}

} // verus!
