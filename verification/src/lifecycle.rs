//! Process-wide service lifecycle: a single liveness flag.
//!
//! The host starts the serving loop at most once at a time and polls
//! liveness. The decisions — reject a start while already live, clear the
//! flag on shutdown — are made here; the host shell owns one `Lifecycle`
//! value and performs the serving itself.

use vstd::prelude::*;

verus! {

/// Whether a serving instance is currently active.
#[derive(Clone, Copy, Debug, PartialEq, Eq, Structural)]
pub struct Lifecycle {
    pub alive: bool,
}

impl Lifecycle {
    /// Before any start: not alive.
    pub fn new() -> (l: Lifecycle)
        ensures
            !l.alive,
    {
        Lifecycle { alive: false }
    }

    /// Check-and-set in one step: returns whether serving may begin. A start
    /// against an already-live instance is rejected, and the flag is set
    /// exactly when it was clear.
    pub fn try_start(&mut self) -> (started: bool)
        ensures
            final(self).alive,
            started == !old(self).alive,
    {
        let started = !self.alive;
        self.alive = true;
        started
    }

    /// Shutdown: the flag is clear afterward, whatever it was.
    pub fn stop(&mut self)
        ensures
            !final(self).alive,
    {
        self.alive = false;
    }

    /// Liveness, safe to ask at any time.
    pub fn is_alive(&self) -> (r: bool)
        ensures
            r == self.alive,
    {
        self.alive
    }
}

} // verus!
