//! The process-wide pending-delete registration.
//!
//! The deferred strategy hinges on one process-exit callback and one
//! delete-on-close handle, so at most one deferred deletion may ever be
//! scheduled in a process.  This module is that single slot: the front end
//! keeps one `PendingDeleteRegistration` per process and every scheduling
//! attempt goes through [`PendingDeleteRegistration::register`], which fails
//! rather than overwrite.  A registration is never undone, not even when a
//! later step of the schedule fails.

use vstd::prelude::*;
use crate::errors::OpError;

verus! {

/// What was scheduled: the shadow copy whose delete-on-close handle the
/// process holds, and the file the spawned watcher is to delete.
pub struct ScheduledDelete {
    /// The path of the shadow copy.
    pub shadow: String,
    /// The path the watcher deletes once the parent has exited.
    pub target: String,
}

/// The single slot recording whether a deferred deletion has been scheduled
/// in this process.
pub struct PendingDeleteRegistration {
    /// The registration, when one was made.
    pub slot: Option<ScheduledDelete>,
}

impl PendingDeleteRegistration {
    /// A registration exists.
    pub open spec fn is_armed(self) -> bool {
        self.slot is Some
    }

    /// The state and result of a registration attempt: an empty slot is
    /// filled and the attempt succeeds; a filled slot is left exactly as it
    /// was and the attempt fails, whatever paths it named.
    pub open spec fn register_spec(self, shadow: String, target: String) -> (
        PendingDeleteRegistration,
        Result<(), OpError>,
    ) {
        if self.is_armed() {
            (self, Err(OpError::AlreadyScheduled))
        } else {
            (
                PendingDeleteRegistration { slot: Some(ScheduledDelete { shadow, target }) },
                Ok(()),
            )
        }
    }

    /// An empty slot.
    pub fn new() -> (r: Self)
        ensures
            !r.is_armed(),
    {
        PendingDeleteRegistration { slot: None }
    }

    /// Whether a deferred deletion is already scheduled.
    pub fn armed(&self) -> (b: bool)
        ensures
            b == self.is_armed(),
    {
        match &self.slot {
            Some(_) => true,
            None => false,
        }
    }

    /// Fills the slot, or reports `AlreadyScheduled` without touching it.
    pub fn register(&mut self, shadow: String, target: String) -> (r: Result<(), OpError>)
        ensures
            (*final(self), r) == old(self).register_spec(shadow, target),
    {
        match &self.slot {
            Some(_) => Err(OpError::AlreadyScheduled),
            None => {
                self.slot = Some(ScheduledDelete { shadow, target });
                Ok(())
            },
        }
    }
}

/// Single registration: starting from an unarmed slot, the first scheduling
/// attempt succeeds, and a second attempt in the same process returns the
/// already-scheduled error and leaves the first registration in place,
/// regardless of the paths either attempt names.
pub proof fn lemma_single_registration(
    reg: PendingDeleteRegistration,
    shadow1: String,
    target1: String,
    shadow2: String,
    target2: String,
)
    requires
        !reg.is_armed(),
    ensures
        ({
            let (reg1, r1) = reg.register_spec(shadow1, target1);
            let (reg2, r2) = reg1.register_spec(shadow2, target2);
            &&& r1 == Ok::<(), OpError>(())
            &&& r2 == Err::<(), OpError>(OpError::AlreadyScheduled)
            &&& reg2 == reg1
            &&& reg1.slot == Some(ScheduledDelete { shadow: shadow1, target: target1 })
        }),
{
}

} // verus!
