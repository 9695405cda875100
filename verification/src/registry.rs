//! Process-wide single-instance registry for the top-level handle.
//!
//! At most one top-level handle may be live at a time: concurrent handles
//! would race on the shared registers. The registry is an explicit object
//! with a synchronized claim/release pair — the embedding program holds
//! exactly one of it for the whole process and serializes access to it.

use vstd::prelude::*;

use crate::Error;

verus! {

/// The claim transition over the registry's state: afterwards a handle is
/// live either way, and the claim succeeds exactly when none was before.
pub open spec fn spec_claim(live: bool) -> (bool, Result<(), Error>) {
    if live {
        (true, Err(Error::InstanceExists))
    } else {
        (true, Ok(()))
    }
}

/// The release transition: no handle is live afterwards.
pub open spec fn spec_release(live: bool) -> bool {
    false
}

/// Law: at most one handle at a time. While one is live a further claim
/// fails with `InstanceExists` and the registry stays claimed; once
/// released, the next claim succeeds, whatever held before.
pub proof fn lemma_single_instance(live: bool)
    ensures
        spec_claim(true).1 == Err::<(), Error>(Error::InstanceExists),
        spec_claim(true).0,
        spec_claim(spec_release(live)).1 == Ok::<(), Error>(()),
{
}

/// Process-wide flag recording whether a top-level handle is live.
pub struct InstanceRegistry {
    live: bool,
}

impl InstanceRegistry {
    /// Whether a top-level handle is currently live.
    pub closed spec fn is_live(self) -> bool {
        self.live
    }

    /// A fresh registry with no live handle.
    pub fn new() -> (r: InstanceRegistry)
        ensures
            !r.is_live(),
    {
        InstanceRegistry { live: false }
    }

    /// Atomically checks and claims the registry: fails while a handle is
    /// live, and otherwise marks one live.
    pub fn claim(&mut self) -> (r: Result<(), Error>)
        ensures
            final(self).is_live() == spec_claim(old(self).is_live()).0,
            r == spec_claim(old(self).is_live()).1,
    {
        if self.live {
            Err(Error::InstanceExists)
        } else {
            self.live = true;
            Ok(())
        }
    }

    /// Releases the claim: after this, constructing a handle may succeed
    /// again. Releasing an unclaimed registry is a safe no-op.
    pub fn release(&mut self)
        ensures
            final(self).is_live() == spec_release(old(self).is_live()),
            !final(self).is_live(),
    {
        self.live = false;
    }

    /// Whether a top-level handle is currently live.
    pub fn live(&self) -> (r: bool)
        ensures
            r == self.is_live(),
    {
        self.live
    }
}

} // verus!
