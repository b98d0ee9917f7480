//! Bookkeeping for the terminal-restoration guard.
//!
//! Restoring the terminal must happen on every exit path, normal or not.
//! The guard that actually talks to the terminal lives with the process
//! wiring; this record is its verified core: armed on creation, and it
//! hands out permission to run the restore action exactly once, so a
//! scoped release and a process-level fallback hook cannot both run it.

use vstd::prelude::*;

verus! {

/// The state of the restoration guard: whether the restore action is
/// still owed.
#[derive(Debug)]
pub struct OnShutdown {
    armed: bool,
}

impl OnShutdown {
    /// Whether the restore action is still owed.
    pub closed spec fn is_armed(&self) -> bool {
        self.armed
    }

    /// A fresh guard, owing one run of the restore action.
    pub fn new() -> (r: OnShutdown)
        ensures
            r.is_armed(),
    {
        OnShutdown { armed: true }
    }

    /// Claim the single run of the restore action: true the first time,
    /// false on every later claim.
    pub fn claim(&mut self) -> (first: bool)
        ensures
            first == old(self).is_armed(),
            !final(self).is_armed(),
    {
        let was = self.armed;
        self.armed = false;
        was
    }
}

} // verus!
