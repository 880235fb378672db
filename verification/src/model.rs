//! The mathematical model of the pool.
//!
//! A [`PoolModel`] abstracts the pool's observable state: the pending-work
//! queue, the ready queue, and the set of checked-out slot ids.  Each pool
//! operation is mirrored here by a transition function, and the executable
//! pool's contracts state that it follows these transitions exactly.  The
//! pool-wide invariant says that every slot id lives in at most one place.

use vstd::prelude::*;

verus! {

/// Abstraction of one unit of pending work.
#[verifier::ext_equal]
pub enum TaskModel {
    /// Tear down stale resources for slot `id`.
    Clean { id: u32 },
    /// Pre-provision slot `id`, then spawn into it.
    Prepare { id: u32 },
    /// Terminate the instance occupying slot `id`; `reliable` records whether
    /// its termination is guaranteed to succeed.
    Drop { id: u32, reliable: bool },
}

impl TaskModel {
    /// The slot id a task concerns.
    pub open spec fn id(self) -> u32 {
        match self {
            TaskModel::Clean { id } => id,
            TaskModel::Prepare { id } => id,
            TaskModel::Drop { id, .. } => id,
        }
    }
}

/// Abstraction of one ready instance.
#[verifier::ext_equal]
pub struct InstModel {
    /// The slot id the instance occupies.
    pub id: u32,
    /// Whether the instance would pass its health check.
    pub healthy: bool,
    /// Whether terminating the instance is guaranteed to succeed.
    pub reliable: bool,
}

/// The pool's observable state: capacity, pending work in queue order, ready
/// instances in queue order, and the checked-out slot ids.
#[verifier::ext_equal]
pub struct PoolModel {
    /// Pool capacity: slot ids run over `1..=size`, and both queues hold at
    /// most `size` elements.
    pub size: u32,
    /// Pending work, front first.
    pub work: Seq<TaskModel>,
    /// Ready instances, front first.
    pub ready: Seq<InstModel>,
    /// Slot ids currently held by checkout guards.
    pub out: Set<u32>,
}

impl PoolModel {
    /// The state right after construction: one `Clean` task per slot id, in
    /// ascending order, nothing ready, nothing checked out.
    pub open spec fn init(size: u32) -> PoolModel {
        PoolModel {
            size,
            work: Seq::new(size as nat, |i: int| TaskModel::Clean { id: (i + 1) as u32 }),
            ready: Seq::empty(),
            out: Set::empty(),
        }
    }

    /// Whether `id` is a valid slot id of this pool.
    pub open spec fn id_in_range(self, id: u32) -> bool {
        1 <= id <= self.size
    }

    /// Whether `id` occurs nowhere in the pool: not in a queued task, not on
    /// a ready instance, not checked out.
    pub open spec fn id_free(self, id: u32) -> bool {
        &&& forall|i: int| 0 <= i < self.work.len() ==> (#[trigger] self.work[i].id()) != id
        &&& forall|i: int| 0 <= i < self.ready.len() ==> (#[trigger] self.ready[i].id) != id
        &&& !self.out.contains(id)
    }

    /// How many places currently hold a slot id.
    pub open spec fn occupancy(self) -> int {
        self.work.len() + self.ready.len() + self.out.len() as int
    }

    /// The pool-wide invariant: all ids are in range, every id lives in at
    /// most one place, and the three places together never hold more than
    /// `size` ids.
    pub open spec fn inv(self) -> bool {
        &&& forall|i: int|
            0 <= i < self.work.len() ==> self.id_in_range(#[trigger] self.work[i].id())
        &&& forall|i: int| 0 <= i < self.ready.len() ==> self.id_in_range(#[trigger] self.ready[i].id)
        &&& forall|id: u32| #[trigger] self.out.contains(id) ==> self.id_in_range(id)
        &&& forall|i: int, j: int|
            0 <= i < j < self.work.len() ==> (#[trigger] self.work[i].id()) != (
            #[trigger] self.work[j].id())
        &&& forall|i: int, j: int|
            0 <= i < j < self.ready.len() ==> (#[trigger] self.ready[i].id) != (
            #[trigger] self.ready[j].id)
        &&& forall|i: int, j: int|
            0 <= i < self.work.len() && 0 <= j < self.ready.len() ==> (
            #[trigger] self.work[i].id()) != (#[trigger] self.ready[j].id)
        &&& forall|i: int| 0 <= i < self.work.len() ==> !self.out.contains(#[trigger] self.work[i].id())
        &&& forall|i: int| 0 <= i < self.ready.len() ==> !self.out.contains(#[trigger] self.ready[i].id)
        &&& self.out.finite()
        &&& self.occupancy() <= self.size
    }

    /// Appends a task at the back of the work queue; a full queue drops it.
    pub open spec fn push_work(self, t: TaskModel) -> PoolModel {
        if self.work.len() < self.size {
            PoolModel { work: self.work.push(t), ..self }
        } else {
            self
        }
    }

    /// Appends an instance at the back of the ready queue; a full queue drops
    /// it.
    pub open spec fn push_ready(self, i: InstModel) -> PoolModel {
        if self.ready.len() < self.size {
            PoolModel { ready: self.ready.push(i), ..self }
        } else {
            self
        }
    }

    /// Removes the front task from the work queue.
    pub open spec fn after_pop(self) -> PoolModel {
        PoolModel { work: self.work.drop_first(), ..self }
    }

    /// Outcome of handling `Clean(id)` whose backend call succeeded (`ok`) or
    /// failed: success advances the slot to `Prepare`, failure re-queues
    /// `Clean` for an unbounded retry.
    pub open spec fn clean_step(self, id: u32, ok: bool) -> PoolModel {
        if ok {
            self.push_work(TaskModel::Prepare { id })
        } else {
            self.push_work(TaskModel::Clean { id })
        }
    }

    /// Outcome of handling `Prepare(id)`: a successful prepare is followed
    /// directly by a spawn; a spawned instance joins the ready queue, and any
    /// failure sends the slot back to `Clean`.
    pub open spec fn prepare_step(self, id: u32, prepared: bool, spawned: Option<InstModel>) -> PoolModel {
        if prepared {
            match spawned {
                Some(i) => self.push_ready(i),
                None => self.push_work(TaskModel::Clean { id }),
            }
        } else {
            self.push_work(TaskModel::Clean { id })
        }
    }

    /// Outcome of handling `Drop(id)`: successful termination recycles the
    /// slot into `Clean`; a failed termination abandons the id, so the slot
    /// silently leaves the pool and effective capacity shrinks over time —
    /// callers should alert on it.
    pub open spec fn drop_step(self, id: u32, terminated: bool) -> PoolModel {
        if terminated {
            self.push_work(TaskModel::Clean { id })
        } else {
            self
        }
    }

    /// Releasing a checked-out instance: the id leaves the checked-out set
    /// and a `Drop` task for it joins the work queue.  Instances are never
    /// recycled directly into the ready queue.
    pub open spec fn release_step(self, id: u32, reliable: bool) -> PoolModel {
        (PoolModel { out: self.out.remove(id), ..self }).push_work(
            TaskModel::Drop { id, reliable },
        )
    }

    /// One checkout attempt over the ready queue: pop instances from the
    /// front, routing unhealthy ones to disposal, until a healthy one is
    /// found (its id becomes checked out) or the queue is exhausted.
    pub open spec fn checkout(self) -> (PoolModel, Option<u32>)
        decreases self.ready.len(),
    {
        if self.ready.len() == 0 {
            (self, None::<u32>)
        } else {
            let inst = self.ready[0];
            let rest = PoolModel { ready: self.ready.drop_first(), ..self };
            if inst.healthy {
                ((PoolModel { out: rest.out.insert(inst.id), ..rest }), Some(inst.id))
            } else {
                rest.push_work(TaskModel::Drop { id: inst.id, reliable: inst.reliable }).checkout()
            }
        }
    }

    /// Whether the front task, if it is a `Drop`, carries an instance whose
    /// termination is guaranteed to succeed.
    pub open spec fn front_drop_reliable(self) -> bool {
        self.work.len() > 0 ==> (match self.work[0] {
            TaskModel::Drop { reliable, .. } => reliable,
            _ => true,
        })
    }

    /// The ready entry a checkout attempt hands out: the first healthy
    /// instance of the ready queue, in full, where [`Self::checkout`] gives
    /// only its id.
    pub open spec fn checkout_inst(self) -> Option<InstModel>
        decreases self.ready.len(),
    {
        if self.ready.len() == 0 {
            None
        } else {
            let inst = self.ready[0];
            let rest = PoolModel { ready: self.ready.drop_first(), ..self };
            if inst.healthy {
                Some(inst)
            } else {
                rest.push_work(
                    TaskModel::Drop { id: inst.id, reliable: inst.reliable },
                ).checkout_inst()
            }
        }
    }

    /// One worker step in which every backend call succeeds and the spawned
    /// instance is healthy: the deterministic transition of a pool over a
    /// fully reliable backend.
    pub open spec fn step_ok(self) -> PoolModel {
        if self.work.len() == 0 {
            self
        } else {
            let m = self.after_pop();
            match self.work[0] {
                TaskModel::Clean { id } => m.push_work(TaskModel::Prepare { id }),
                TaskModel::Prepare { id } => (m.push_ready(
                    InstModel { id, healthy: true, reliable: true },
                )),
                TaskModel::Drop { id, .. } => m.push_work(TaskModel::Clean { id }),
            }
        }
    }

    /// `k` successive [`Self::step_ok`] worker steps.
    pub open spec fn steps_ok(self, k: nat) -> PoolModel
        decreases k,
    {
        if k == 0 {
            self
        } else {
            self.step_ok().steps_ok((k - 1) as nat)
        }
    }

    /// The freshly seeded pool satisfies the invariant.
    pub proof fn lemma_init_inv(size: u32)
        ensures
            PoolModel::init(size).inv(),
    {
        broadcast use vstd::set::group_set_axioms;

        let m = PoolModel::init(size);
        assert(forall|i: int| 0 <= i < m.work.len() ==> (#[trigger] m.work[i].id()) == i + 1);
        assert(m.occupancy() <= m.size);
    }

    /// Appending a task for a free, in-range id keeps the invariant, and the
    /// queue has room for it.
    pub proof fn lemma_push_work_inv(self, t: TaskModel)
        requires
            self.inv(),
            self.id_in_range(t.id()),
            self.id_free(t.id()),
            self.occupancy() < self.size,
        ensures
            self.push_work(t).inv(),
            self.push_work(t).work == self.work.push(t),
            self.push_work(t).occupancy() == self.occupancy() + 1,
    {
        let m = self.push_work(t);
        assert(m.out == self.out && m.ready == self.ready && m.size == self.size);
        assert(m.work == self.work.push(t));
        assert(forall|i: int| 0 <= i < self.work.len() ==> m.work[i] == self.work[i]);
        assert(m.work[self.work.len() as int] == t);
        assert forall|id: u32| m.out.contains(id) implies m.id_in_range(id) by {
            assert(self.out.contains(id));
            assert(self.id_in_range(id));
        };
    }

    /// Appending a ready instance with a free, in-range id keeps the
    /// invariant, and the queue has room for it.
    pub proof fn lemma_push_ready_inv(self, inst: InstModel)
        requires
            self.inv(),
            self.id_in_range(inst.id),
            self.id_free(inst.id),
            self.occupancy() < self.size,
        ensures
            self.push_ready(inst).inv(),
            self.push_ready(inst).ready == self.ready.push(inst),
            self.push_ready(inst).occupancy() == self.occupancy() + 1,
    {
        let m = self.push_ready(inst);
        assert(m.out == self.out && m.work == self.work && m.size == self.size);
        assert(m.ready == self.ready.push(inst));
        assert(forall|i: int| 0 <= i < self.ready.len() ==> m.ready[i] == self.ready[i]);
        assert(m.ready[self.ready.len() as int] == inst);
        assert forall|id: u32| m.out.contains(id) implies m.id_in_range(id) by {
            assert(self.out.contains(id));
            assert(self.id_in_range(id));
        };
    }

    /// Popping the front ready instance keeps the invariant and frees its id.
    pub proof fn lemma_pop_ready_inv(self)
        requires
            self.inv(),
            self.ready.len() > 0,
        ensures
            ({
                let m = (PoolModel { ready: self.ready.drop_first(), ..self });
                &&& m.inv()
                &&& m.id_free(self.ready[0].id)
                &&& m.id_in_range(self.ready[0].id)
                &&& m.occupancy() == self.occupancy() - 1
            }),
    {
        let m = PoolModel { ready: self.ready.drop_first(), ..self };
        assert(m.out == self.out && m.work == self.work && m.size == self.size);
        assert(m.ready.len() == self.ready.len() - 1);
        assert(forall|i: int| 0 <= i < m.ready.len() ==> m.ready[i] == self.ready[i + 1]);
        assert forall|id: u32| m.out.contains(id) implies m.id_in_range(id) by {
            assert(self.out.contains(id));
            assert(self.id_in_range(id));
        };
    }

    /// Checking an id with a free, in-range id out keeps the invariant.
    pub proof fn lemma_insert_out_inv(self, id: u32)
        requires
            self.inv(),
            self.id_in_range(id),
            self.id_free(id),
            self.occupancy() < self.size,
        ensures
            ({
                let m = (PoolModel { out: self.out.insert(id), ..self });
                &&& m.inv()
                &&& m.occupancy() == self.occupancy() + 1
            }),
    {
        broadcast use vstd::set::group_set_axioms;

        let m = PoolModel { out: self.out.insert(id), ..self };
        assert(m.out.len() == self.out.len() + 1);
        assert forall|x: u32| m.out.contains(x) implies m.id_in_range(x) by {
            if x != id {
                assert(self.out.contains(x));
                assert(self.id_in_range(x));
            }
        };
    }

    /// Releasing a checked-out id keeps the invariant, and the `Drop` task
    /// for it always finds room in the work queue.
    pub proof fn lemma_release_inv(self, id: u32, reliable: bool)
        requires
            self.inv(),
            self.out.contains(id),
        ensures
            self.release_step(id, reliable).inv(),
            self.release_step(id, reliable).work == self.work.push(
                TaskModel::Drop { id, reliable },
            ),
            self.release_step(id, reliable).out == self.out.remove(id),
            self.release_step(id, reliable).occupancy() == self.occupancy(),
    {
        broadcast use vstd::set::group_set_axioms;

        let mid = PoolModel { out: self.out.remove(id), ..self };
        assert(mid.out.len() == self.out.len() - 1);
        assert forall|x: u32| mid.out.contains(x) implies mid.id_in_range(x) by {
            assert(self.out.contains(x));
            assert(self.id_in_range(x));
        };
        assert(mid.inv());
        assert(mid.id_free(id));
        assert(self.id_in_range(id));
        mid.lemma_push_work_inv(TaskModel::Drop { id, reliable });
    }

    /// A checkout attempt keeps the invariant; a returned id was free to
    /// check out and is checked out afterwards, and `None` comes exactly when
    /// no ready instance is healthy.
    pub proof fn lemma_checkout_inv(self)
        requires
            self.inv(),
        ensures
            ({
                let (m, got) = self.checkout();
                &&& m.inv()
                &&& (got matches Some(id) ==> self.id_in_range(id) && !self.out.contains(id)
                    && m.out == self.out.insert(id))
                &&& (got is None <==> forall|i: int|
                    0 <= i < self.ready.len() ==> !(#[trigger] self.ready[i]).healthy)
                &&& (got is None ==> m.out == self.out)
            }),
        decreases self.ready.len(),
    {
        if self.ready.len() == 0 {
        } else {
            let inst = self.ready[0];
            let rest = PoolModel { ready: self.ready.drop_first(), ..self };
            self.lemma_pop_ready_inv();
            if inst.healthy {
            } else {
                rest.lemma_push_work_inv(TaskModel::Drop { id: inst.id, reliable: inst.reliable });
                let next = rest.push_work(TaskModel::Drop { id: inst.id, reliable: inst.reliable });
                next.lemma_checkout_inv();
                assert(forall|i: int| 0 <= i < next.ready.len() ==> next.ready[i] == self.ready[i + 1]);
                let got = self.checkout().1;
                if got is None {
                    assert forall|i: int| 0 <= i < self.ready.len() implies !(#[trigger] self.ready[i]).healthy by {
                        if i > 0 {
                            assert(next.ready[i - 1] == self.ready[i]);
                            assert(!next.ready[i - 1].healthy);
                        }
                    };
                }
            }
        }
    }

    /// Popping the front task keeps the invariant and frees its id.
    pub proof fn lemma_after_pop_inv(self)
        requires
            self.inv(),
            self.work.len() > 0,
        ensures
            self.after_pop().inv(),
            self.after_pop().id_free(self.work[0].id()),
            self.after_pop().id_in_range(self.work[0].id()),
            self.after_pop().occupancy() == self.occupancy() - 1,
    {
        let m = self.after_pop();
        assert(m.out == self.out && m.ready == self.ready && m.size == self.size);
        assert(m.work.len() == self.work.len() - 1);
        assert(forall|i: int| 0 <= i < m.work.len() ==> m.work[i] == self.work[i + 1]);
        assert forall|id: u32| m.out.contains(id) implies m.id_in_range(id) by {
            assert(self.out.contains(id));
            assert(self.id_in_range(id));
        };
    }
}

} // verus!
