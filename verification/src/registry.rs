//! Callback registry: owns the single outstanding callback handle that the
//! venue runtime invokes asynchronously. At most one handle is ever live;
//! installing a new handle hands the previous one back to the caller, so
//! its registration is revoked before the replacement is live, and the
//! venue runtime is never left invoking a handle the session no longer
//! tracks.

use vstd::prelude::*;

verus! {

/// Holds the at-most-one live callback handle of a session.
pub struct CallbackRegistry<H> {
    slot: Option<H>,
}

impl<H> View for CallbackRegistry<H> {
    type V = Option<H>;

    closed spec fn view(&self) -> Option<H> {
        self.slot
    }
}

impl<H> CallbackRegistry<H> {
    /// An empty registry: no handle is registered.
    pub fn new() -> (r: CallbackRegistry<H>)
        ensures
            r@ is None,
    {
        CallbackRegistry { slot: None }
    }

    /// The number of live handles the registry tracks.
    pub open spec fn live_handles(&self) -> nat {
        match self@ {
            Some(_) => 1nat,
            None => 0nat,
        }
    }

    /// Law: the registry never holds two live handles, whatever sequence of
    /// registrations and unregistrations produced it.
    pub proof fn lemma_at_most_one_live(&self)
        ensures
            self.live_handles() <= 1,
    {
    }

    /// Installs `handle` and returns the handle that was registered before,
    /// if any, so that the caller revokes it: after the call exactly
    /// `handle` is live, and never two at once.
    pub fn register(&mut self, handle: H) -> (prev: Option<H>)
        ensures
            final(self)@ == Some(handle),
            prev == old(self)@,
    {
        let prev = self.slot.take();
        self.slot = Some(handle);
        prev
    }

    /// Detaches and returns the current handle, leaving the registry empty;
    /// used during teardown.
    pub fn unregister(&mut self) -> (h: Option<H>)
        ensures
            final(self)@ is None,
            h == old(self)@,
    {
        self.slot.take()
    }

    /// Whether a handle is currently registered.
    pub fn is_registered(&self) -> (b: bool)
        ensures
            b == (self@ is Some),
    {
        self.slot.is_some()
    }
}

} // verus!
