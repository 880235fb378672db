//! Capability traits implemented by each sandbox backend.
//!
//! A [`Spec`] describes how to realize one backend kind (process, container,
//! micro-VM); an [`Instance`] is the live handle its `spawn` produces.  The
//! pool drives both through these traits only.  Backends whose operations
//! touch the outside world implement them outside the verified library; the
//! contracts here are what every implementation must uphold, stated over
//! implementation-chosen specification hooks.

use vstd::prelude::*;

verus! {

/// A live sandbox handle: one backend process/container/VM plus its health
/// bookkeeping.  Exclusively owned by whichever task or checkout guard holds
/// it.
pub trait Instance: Sized {
    /// Error type surfaced by this backend kind.
    type Error;

    /// The slot id this instance occupies.
    spec fn spec_id(&self) -> u32;

    /// Whether the instance would currently pass its health check.
    spec fn is_healthy(&self) -> bool;

    /// Whether `terminate` is guaranteed to succeed on this instance.
    spec fn is_reliable(&self) -> bool;

    /// Returns the slot id of this instance.
    fn id(&self) -> (r: u32)
        ensures
            r == self.spec_id(),
    ;

    /// Checks liveness: fails when the watch loop has died or the request
    /// budget is exhausted.  Observing health does not change the instance.
    fn ensure_healthy(&mut self) -> (r: Result<(), Self::Error>)
        ensures
            *final(self) == *old(self),
            r is Ok <==> old(self).is_healthy(),
    ;

    /// Tears the live resource down.
    fn terminate(&mut self) -> (r: Result<(), Self::Error>)
        ensures
            old(self).is_reliable() ==> r is Ok,
    ;
}

/// Configuration describing how to realize one backend kind, and the four
/// lifecycle operations of that backend.
pub trait Spec: Sized {
    /// The live handle `spawn` produces.
    type Instance: Instance;

    /// Error type surfaced by this backend kind.
    type Error;

    /// Whether every lifecycle operation of this backend succeeds.
    spec fn is_reliable(&self) -> bool;

    /// Whether every instance this backend spawns starts healthy and
    /// terminates cleanly.
    spec fn spawns_healthy(&self) -> bool;

    /// Which instances `spawn` can hand out for a given slot id.
    spec fn can_spawn(&self, instance: Self::Instance, id: u32) -> bool;

    /// Idempotent teardown of stale resources for the slot `id`.
    fn clean(&self, id: u32) -> (r: Result<(), Self::Error>)
        ensures
            self.is_reliable() ==> r is Ok,
    ;

    /// Pre-provisions the slot `id` (namespace, filesystem, ...).
    fn prepare(&self, id: u32) -> (r: Result<(), Self::Error>)
        ensures
            self.is_reliable() ==> r is Ok,
    ;

    /// One-time, mutating, privileged host setup.
    fn setup(&mut self) -> (r: Result<(), Self::Error>)
        ensures
            old(self).is_reliable() ==> r is Ok,
    ;

    /// Produces a live instance bound to the slot `id`.
    fn spawn(&self, id: u32) -> (r: Result<Self::Instance, Self::Error>)
        ensures
            self.is_reliable() ==> r is Ok,
            r matches Ok(i) ==> i.spec_id() == id && self.can_spawn(i, id),
            r matches Ok(i) ==> (self.spawns_healthy() ==> i.is_healthy() && i.is_reliable()),
    ;
}

/// Builds a [`Spec`], validating the configuration.
pub trait SpecBuilder: Sized {
    /// The spec this builder produces.
    type Spec;

    /// Error reported for an invalid configuration.
    type Error;

    /// Builds the spec described by this builder.
    fn build(&self) -> Result<Self::Spec, Self::Error>;
}

} // verus!
