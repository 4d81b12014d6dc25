//! The exclusive access gate that serializes use of the inference engine.
//!
//! The engine is the one shared mutable resource of the process and is not
//! safe for concurrent invocation, so at most one request may be inside its
//! run call at any instant. [`Gate`] is the verified model of that protocol:
//! an attempt to enter succeeds exactly when the access gate is free, the winner is
//! recorded as the holder, and only the holder releases it. The process's
//! suspension-capable lock realizes the same contract around the engine.

use vstd::prelude::*;

verus! {

/// The access gate: held by at most one request at a time, identified by a request
/// id chosen by the caller.
pub struct Gate {
    holder: Option<u64>,
}

impl Gate {
    /// Nobody is inside the access gate.
    pub closed spec fn is_free(&self) -> bool {
        self.holder is None
    }

    /// Request `id` is the one inside the access gate.
    pub closed spec fn holds(&self, id: u64) -> bool {
        self.holder == Some(id)
    }

    /// The access gate as it stands once its holder has released it.
    pub closed spec fn after_release(&self) -> Gate {
        Gate { holder: None }
    }

    /// The access gate as it stands once request `id` has entered it.
    pub closed spec fn after_acquire(&self, id: u64) -> Gate {
        Gate { holder: Some(id) }
    }

    /// A new access gate is free.
    pub fn new() -> (g: Gate)
        ensures
            g.is_free(),
    {
        Gate { holder: None }
    }

    /// One attempt by request `id` to enter the access gate. It succeeds exactly
    /// when the access gate is free; the winner becomes the holder, and a losing
    /// attempt changes nothing.
    pub fn try_acquire(&mut self, id: u64) -> (entered: bool)
        ensures
            entered == old(self).is_free(),
            entered ==> *final(self) == old(self).after_acquire(id),
            !entered ==> *final(self) == *old(self),
    {
        match self.holder {
            None => {
                self.holder = Some(id);
                true
            },
            Some(_) => false,
        }
    }

    /// The holder leaves the access gate; it is free afterward, whatever happened
    /// inside.
    pub fn release(&mut self, id: u64)
        requires
            old(self).holds(id),
        ensures
            *final(self) == old(self).after_release(),
            final(self).is_free(),
    {
        self.holder = None;
    }
}

/// Mutual exclusion: at most one request is inside the access gate at any instant.
/// Two holders of the same access gate are the same request.
pub proof fn lemma_mutual_exclusion(g: Gate, a: u64, b: u64)
    requires
        g.holds(a),
        g.holds(b),
    ensures
        a == b,
{
}

/// A released access gate is free and holds nobody, so a later attempt by any
/// request succeeds.
pub proof fn lemma_release_frees(g: Gate)
    ensures
        g.after_release().is_free(),
        forall|id: u64| !g.after_release().holds(id),
        forall|id: u64| g.after_release().after_acquire(id).holds(id),
{
}

} // verus!
