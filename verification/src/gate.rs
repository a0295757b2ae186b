//! The session provider's concurrency gate: the engine process is one
//! shared resource, so session acquisition is bounded rather than
//! letting unbounded concurrent requests overwhelm it. It counts the
//! sessions in use against a fixed ceiling; the driver asks it before
//! acquiring a session and tells it when one is released.

use vstd::prelude::*;

verus! {

/// A bounded-concurrency gate over page sessions.
pub struct SessionGate {
    /// The most sessions that may be in use at once.
    pub limit: u64,
    /// How many sessions are in use now.
    pub in_use: u64,
}

impl SessionGate {
    /// Never more sessions in use than the ceiling allows.
    pub open spec fn inv(&self) -> bool {
        self.in_use <= self.limit
    }

    /// A fresh gate with the given ceiling and no session in use.
    pub fn new(limit: u64) -> (g: SessionGate)
        ensures
            g.limit == limit,
            g.in_use == 0,
            g.inv(),
    {
        SessionGate { limit, in_use: 0 }
    }

    /// Try to reserve one session: succeeds exactly when the ceiling is
    /// not yet reached, and then counts it; a refused request changes
    /// nothing.
    pub fn try_acquire(&mut self) -> (granted: bool)
        requires
            old(self).inv(),
        ensures
            final(self).inv(),
            final(self).limit == old(self).limit,
            granted == (old(self).in_use < old(self).limit),
            granted ==> final(self).in_use == old(self).in_use + 1,
            !granted ==> final(self).in_use == old(self).in_use,
    {
        if self.in_use < self.limit {
            self.in_use = self.in_use + 1;
            true
        } else {
            false
        }
    }

    /// Release one reserved session.
    pub fn release(&mut self)
        requires
            old(self).inv(),
            old(self).in_use > 0,
        ensures
            final(self).inv(),
            final(self).limit == old(self).limit,
            final(self).in_use == old(self).in_use - 1,
    {
        self.in_use = self.in_use - 1;
    }

    /// How many sessions are in use.
    pub fn sessions_in_use(&self) -> (r: u64)
        ensures
            r == self.in_use,
    {
        self.in_use
    }
}

} // verus!
