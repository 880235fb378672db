//! The exclusive checkout guard over one checked-out instance.

use vstd::prelude::*;

use crate::instance::Instance;

verus! {

/// Exclusive, single-use ownership of one checked-out instance.  Handing the
/// guard back to the pool routes the instance into a `Drop` task; an instance
/// is never recycled directly into the ready queue.
pub struct LifeGuard<I> {
    instance: I,
}

impl<I: Instance> LifeGuard<I> {
    /// The instance this guard owns.
    pub closed spec fn inst(&self) -> I {
        self.instance
    }

    /// Wraps a freshly checked-out instance.
    pub(crate) fn wrap(instance: I) -> (g: Self)
        ensures
            g.inst() == instance,
    {
        LifeGuard { instance }
    }

    /// Unwraps the owned instance for disposal.
    pub(crate) fn into_instance(self) -> (r: I)
        ensures
            r == self.inst(),
    {
        self.instance
    }

    /// The slot id of the owned instance.
    pub fn id(&self) -> (r: u32)
        ensures
            r == self.inst().spec_id(),
    {
        self.instance.id()
    }

    /// Checks the owned instance's liveness.
    pub fn ensure_healthy(&mut self) -> (r: Result<(), I::Error>)
        ensures
            *final(self) == *old(self),
            r is Ok <==> old(self).inst().is_healthy(),
    {
        self.instance.ensure_healthy()
    }
}

} // verus!
