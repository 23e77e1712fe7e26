//! The process-wide one-time initialization guard.
//!
//! The automation environment must be set up once per process before any
//! tree access, and is never torn down. The guard is modeled as the state it
//! protects: whether the setup has run. The platform glue performs the
//! actual setup the one time this guard says to.

use vstd::prelude::*;

verus! {

/// Whether the one-time environment setup has run in this process.
#[derive(Debug, Clone, Copy, PartialEq, Eq, Structural)]
pub struct InitOnce {
    pub initialized: bool,
}

/// The guard's state after one run of the initialization, whatever it was
/// before.
pub open spec fn after_init(s: InitOnce) -> InitOnce {
    InitOnce { initialized: true }
}

impl InitOnce {
    /// A fresh process: the setup has not run.
    pub fn new() -> (s: Self)
        ensures
            !s.initialized,
    {
        InitOnce { initialized: false }
    }

    /// Run the one-time setup unless it already ran; returns whether this
    /// call was the one that ran it.
    pub fn ensure_initialized(&mut self) -> (ran: bool)
        ensures
            *final(self) == after_init(*old(self)),
            ran == !old(self).initialized,
    {
        let ran = !self.initialized;
        self.initialized = true;
        ran
    }
}

/// Law: the one-time initialization is idempotent. Running it on an already
/// initialized process changes nothing, so repeated calls have no effect
/// beyond the first.
pub proof fn lemma_init_idempotent(s: InitOnce)
    ensures
        after_init(after_init(s)) == after_init(s),
        s.initialized ==> after_init(s) == s,
{
}

} // verus!
