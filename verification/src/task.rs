//! The tagged unit of pending work driving one slot around its lifecycle.

use vstd::prelude::*;

use crate::instance::Instance;
use crate::model::TaskModel;

verus! {

/// One unit of pending work.  `Clean` and `Prepare` carry only a slot id;
/// `Drop` carries the owned instance being decommissioned.
pub enum PoolNoodleTask<I> {
    /// Tear down stale resources for the slot.
    Clean(u32),
    /// Pre-provision the slot, then spawn into it.
    Prepare(u32),
    /// Terminate the carried instance and recycle its slot.
    Drop(I),
}

impl<I: Instance> PoolNoodleTask<I> {
    /// The mathematical abstraction of one unit of pending work.
    pub open spec fn model(self) -> TaskModel {
        match self {
            PoolNoodleTask::Clean(id) => TaskModel::Clean { id },
            PoolNoodleTask::Prepare(id) => TaskModel::Prepare { id },
            PoolNoodleTask::Drop(i) => (TaskModel::Drop {
                id: i.spec_id(),
                reliable: i.is_reliable(),
            }),
        }
    }

    /// The slot id the unit of work concerns.
    pub fn id(&self) -> (r: u32)
        ensures
            r == self.model().id(),
    {
        match self {
            PoolNoodleTask::Clean(id) => *id,
            PoolNoodleTask::Prepare(id) => *id,
            PoolNoodleTask::Drop(i) => i.id(),
        }
    }
}

} // verus!
