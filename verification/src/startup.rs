//! Starts that happen once: the session clock and the portal loader are each
//! set going by the first frame that asks, and never again.
use vstd::prelude::*;

verus! {

/// Whether something has been started. Only `start` changes it, and only
/// from not started to started.
pub struct StartOnce {
    started: bool,
}

/// One request to start: granted (`grant`) exactly when nothing was started
/// before, and afterwards the thing counts as started.
pub open spec fn start_step(before: StartOnce, grant: bool, after: StartOnce) -> bool {
    &&& grant == !before.has_started()
    &&& after.has_started()
}

impl StartOnce {
    /// Whether the start has happened.
    pub closed spec fn has_started(self) -> bool {
        self.started
    }

    /// Nothing started yet.
    pub fn new() -> (r: Self)
        ensures
            !r.has_started(),
    {
        StartOnce { started: false }
    }

    /// Asks to start: returns whether this request is the one that starts.
    pub fn start(&mut self) -> (grant: bool)
        ensures
            start_step(*old(self), grant, *final(self)),
    {
        let grant = !self.started;
        self.started = true;
        grant
    }
}

} // verus!
