//! Bookkeeping for cooperative shutdown.
//!
//! The process shares one coordinator among its tasks.  This module is the
//! coordinator's verified state: a trigger-once reason and a count of
//! outstanding handles.  The waiting itself — suspending until triggered,
//! until every handle is released, or until a grace timer expires — is
//! scheduling and lives with the process wiring, which guards every
//! operation here behind its own synchronization.

use vstd::prelude::*;

verus! {

/// The state of one logical shutdown coordinator: whether (and why) it was
/// triggered, and how many handles are still alive.  Completion means
/// every handle has been released.
#[derive(Debug)]
pub struct ShutdownCore {
    pub reason: Option<String>,
    pub handles: u64,
}

impl ShutdownCore {
    /// A fresh coordinator: not triggered, one handle (the creator's).
    pub fn new() -> (r: ShutdownCore)
        ensures
            r.reason is None,
            r.handles == 1,
    {
        ShutdownCore { reason: None, handles: 1 }
    }

    /// Trigger the shutdown.  Idempotent: the first caller's reason wins
    /// and is kept; later calls change nothing.  Returns whether this call
    /// was the first.
    pub fn trigger(&mut self, reason: String) -> (first: bool)
        ensures
            first == (old(self).reason is None),
            old(self).reason is None ==> final(self).reason == Some(reason),
            old(self).reason is Some ==> final(self).reason == old(self).reason,
            final(self).handles == old(self).handles,
    {
        match &self.reason {
            Some(_) => false,
            None => {
                self.reason = Some(reason);
                true
            },
        }
    }

    /// What every task that ends must do: if the shutdown was not yet
    /// triggered, trigger it with the task's default reason, so a silently
    /// dead task cannot leave the rest of the system waiting.
    pub fn on_task_exit(&mut self, default_reason: String)
        ensures
            final(self).reason is Some,
            old(self).reason is None ==> final(self).reason == Some(default_reason),
            old(self).reason is Some ==> final(self).reason == old(self).reason,
            final(self).handles == old(self).handles,
    {
        self.trigger(default_reason);
    }

    /// Whether the shutdown has been triggered.
    pub fn is_triggered(&self) -> (r: bool)
        ensures
            r == (self.reason is Some),
    {
        matches!(&self.reason, Some(_))
    }

    /// The reason the shutdown was triggered with, if it was.  Every
    /// caller sees the same first reason.
    pub fn current_reason(&self) -> (r: &Option<String>)
        ensures
            r == &self.reason,
    {
        &self.reason
    }

    /// Account for one more handle (a clone of the coordinator).
    pub fn add_handle(&mut self)
        requires
            old(self).handles < u64::MAX,
        ensures
            final(self).handles == old(self).handles + 1,
            final(self).reason == old(self).reason,
    {
        self.handles = self.handles + 1;
    }

    /// Account for a released handle.
    pub fn release_handle(&mut self)
        requires
            old(self).handles > 0,
        ensures
            final(self).handles == old(self).handles - 1,
            final(self).reason == old(self).reason,
    {
        self.handles = self.handles - 1;
    }

    /// Whether every handle has been released: the condition the final
    /// grace-period wait is about.
    pub fn is_completed(&self) -> (r: bool)
        ensures
            r == (self.handles == 0),
    {
        self.handles == 0
    }
}

} // verus!
