//! The pool controller.
//!
//! A fixed-capacity pool of numbered slots cycled through
//! clean -> prepare -> spawn -> checkout -> drop.  Construction seeds one
//! `Clean` task per slot id; worker steps drain the work queue and fill the
//! ready queue; `get` checks a healthy instance out under a retry budget, and
//! releasing its guard routes the instance back into disposal.
//!
//! Every method's contract states the transition it performs on the
//! mathematical [`PoolModel`]; the worker loops and the sleeps between
//! checkout retries live outside the verified library and only call these
//! methods.
//!
//! Both queues are bounded at the pool size and never block: a push against
//! a full queue drops the unit of work.  That behaviour is kept — and the
//! pool invariant proves the case unreachable, since every slot id lives in
//! at most one place and ids never exceed the capacity.

use vstd::prelude::*;

use crate::errors::PoolNoodleError;
use crate::instance::{Instance, Spec};
use crate::lifeguard::LifeGuard;
use crate::model::{InstModel, PoolModel, TaskModel};
use crate::queue::BoundedQueue;
use crate::task::PoolNoodleTask;

verus! {

/// Configuration for setting up a pool.
pub struct PoolNoodleConfig<S> {
    /// Verify one full instance lifecycle before serving checkouts.
    pub check_health: bool,
    /// Number of worker loops the surrounding runtime should drive.
    pub max_concurrency: u32,
    /// Number of slots to manage; slot ids run over `1..=pool_size`.
    pub pool_size: u32,
    /// Number of empty-queue checkout attempts before `get` gives up, with a
    /// short sleep between attempts.
    pub retry_limit: u32,
    /// The spec for the kind of instance to manage.
    pub spec: S,
}

impl<S> PoolNoodleConfig<S> {
    /// The stock configuration: health check off, 100 slots, a 6000-attempt
    /// checkout budget, and the given worker concurrency.
    pub fn with_defaults(spec: S, max_concurrency: u32) -> (c: Self)
        ensures
            c.check_health == false,
            c.max_concurrency == max_concurrency,
            c.pool_size == 100,
            c.retry_limit == 6000,
            c.spec == spec,
    {
        PoolNoodleConfig {
            check_health: false,
            max_concurrency,
            pool_size: 100,
            retry_limit: 6000,
            spec,
        }
    }
}

/// Outcome of one checkout attempt.
pub enum CheckoutAttempt<I> {
    /// A healthy instance, checked out under an exclusive guard.
    Ready(LifeGuard<I>),
    /// The front instance was unhealthy and went to disposal; try again
    /// without spending a retry credit.
    Retry,
    /// The ready queue is empty; trying again costs a retry credit.
    Empty,
}

/// The pool: two bounded queues, the backend spec that realizes instances,
/// and a shutdown flag honoured between task pickups.
pub struct PoolNoodle<I, S> {
    check_health: bool,
    max_concurrency: u32,
    pool_size: u32,
    retry_limit: u32,
    shutdown: bool,
    spec: S,
    work_queue: BoundedQueue<PoolNoodleTask<I>>,
    ready_queue: BoundedQueue<I>,
    out_ids: Ghost<Set<u32>>,
}

impl<I, E, S> PoolNoodle<I, S> where
    I: Instance<Error = E>,
    S: Spec<Instance = I, Error = E>,
 {
    /// The mathematical abstraction of the pool's observable state.
    pub closed spec fn model(&self) -> PoolModel {
        PoolModel {
            size: self.pool_size,
            work: self.work_queue@.map_values(|t: PoolNoodleTask<I>| t.model()),
            ready: self.ready_queue@.map_values(
                |i: I| (InstModel { id: i.spec_id(), healthy: i.is_healthy(), reliable: i.is_reliable() }),
            ),
            out: self.out_ids@,
        }
    }

    /// The backend spec the pool drives.
    pub closed spec fn backend(&self) -> S {
        self.spec
    }

    /// Whether the pool has been told to shut down.
    pub closed spec fn is_shutdown(&self) -> bool {
        self.shutdown
    }

    /// The checkout retry budget.
    pub closed spec fn spec_retry_limit(&self) -> u32 {
        self.retry_limit
    }

    /// Whether startup health verification is enabled.
    pub closed spec fn spec_check_health(&self) -> bool {
        self.check_health
    }

    /// Well-formedness: both queues have capacity `pool_size`, there is at
    /// least one slot, and the model invariant holds.
    pub closed spec fn wf(&self) -> bool {
        &&& self.pool_size >= 1
        &&& self.work_queue.cap() == self.pool_size
        &&& self.ready_queue.cap() == self.pool_size
        &&& self.model().inv()
    }

    /// Well-formedness gives the model invariant: the bridge from a pool in
    /// hand to the laws, which are stated over [`PoolModel::inv`].
    pub proof fn lemma_wf_implies_inv(&self)
        requires
            self.wf(),
        ensures
            self.model().inv(),
    {
    }

    /// Whether `other` keeps this pool's configuration and backend.
    pub open spec fn same_config(&self, other: &Self) -> bool {
        &&& self.spec_check_health() == other.spec_check_health()
        &&& self.spec_retry_limit() == other.spec_retry_limit()
        &&& self.backend() == other.backend()
        &&& self.model().size == other.model().size
    }

    /// Creates a pool and seeds the work queue with one `Clean` task per
    /// slot id, in ascending order.
    #[verifier::loop_isolation(false)]
    pub fn new(config: PoolNoodleConfig<S>) -> (pool: Self)
        requires
            1 <= config.pool_size < u32::MAX,
        ensures
            pool.wf(),
            pool.model() == PoolModel::init(config.pool_size),
            pool.backend() == config.spec,
            !pool.is_shutdown(),
            pool.spec_retry_limit() == config.retry_limit,
            pool.spec_check_health() == config.check_health,
    {
        let pool_size = config.pool_size;
        let mut pool = PoolNoodle {
            check_health: config.check_health,
            max_concurrency: config.max_concurrency,
            pool_size,
            retry_limit: config.retry_limit,
            shutdown: false,
            spec: config.spec,
            work_queue: BoundedQueue::new(pool_size as usize),
            ready_queue: BoundedQueue::new(pool_size as usize),
            out_ids: Ghost(Set::empty()),
        };
        let mut id: u32 = 1;
        while id <= pool_size
            invariant
                1 <= id <= pool_size + 1,
                pool.pool_size == pool_size,
                pool.check_health == config.check_health,
                pool.max_concurrency == config.max_concurrency,
                pool.retry_limit == config.retry_limit,
                pool.shutdown == false,
                pool.spec == config.spec,
                pool.work_queue.cap() == pool_size,
                pool.ready_queue.cap() == pool_size,
                pool.ready_queue@.len() == 0,
                pool.out_ids@ == Set::<u32>::empty(),
                pool.work_queue@.len() == id - 1,
                pool.work_queue@.map_values(|t: PoolNoodleTask<I>| t.model()) =~= Seq::new(
                    (id - 1) as nat,
                    |i: int| TaskModel::Clean { id: (i + 1) as u32 },
                ),
            decreases pool_size + 1 - id,
        {
            let ghost prev = pool.work_queue@;
            let _ = pool.work_queue.push(PoolNoodleTask::Clean(id));
            proof {
                broadcast use vstd::seq::Seq::lemma_push_map_commute;

                assert(pool.work_queue@ == prev.push(PoolNoodleTask::Clean(id)));
                assert(pool.work_queue@.map_values(|t: PoolNoodleTask<I>| t.model()) =~= Seq::new(
                    id as nat,
                    |i: int| TaskModel::Clean { id: (i + 1) as u32 },
                ));
            }
            id = id + 1;
        }
        proof {
            assert(pool.model().work =~= PoolModel::init(pool_size).work);
            assert(pool.model().ready =~= PoolModel::init(pool_size).ready);
            assert(pool.model() =~= PoolModel::init(pool_size));
            PoolModel::lemma_init_inv(pool_size);
        }
        pool
    }

    /// Handles `Clean(id)`: a successful backend clean advances the slot to
    /// `Prepare`; a failure re-queues `Clean` for an unbounded retry.
    fn handle_clean(&mut self, id: u32) -> (ok: Ghost<bool>)
        requires
            old(self).wf(),
            old(self).model().id_in_range(id),
            old(self).model().id_free(id),
            old(self).model().occupancy() < old(self).model().size,
        ensures
            final(self).wf(),
            final(self).same_config(old(self)),
            final(self).is_shutdown() == old(self).is_shutdown(),
            final(self).model() == old(self).model().clean_step(id, ok@),
            old(self).backend().is_reliable() ==> ok@,
    {
        let ghost m0 = self.model();
        match self.spec.clean(id) {
            Ok(_) => {
                proof {
                    m0.lemma_push_work_inv(TaskModel::Prepare { id });
                }
                let _ = self.work_queue.push(PoolNoodleTask::Prepare(id));
                proof {
                    broadcast use vstd::seq::Seq::lemma_push_map_commute;

                    assert(self.model() =~= m0.clean_step(id, true));
                }
                Ghost(true)
            },
            Err(_) => {
                proof {
                    m0.lemma_push_work_inv(TaskModel::Clean { id });
                }
                let _ = self.work_queue.push(PoolNoodleTask::Clean(id));
                proof {
                    broadcast use vstd::seq::Seq::lemma_push_map_commute;

                    assert(self.model() =~= m0.clean_step(id, false));
                }
                Ghost(false)
            },
        }
    }

    /// Handles `Prepare(id)`: a successful prepare is followed synchronously
    /// by a spawn; the spawned instance joins the ready queue, and any
    /// failure sends the slot back to `Clean`.
    fn handle_prepare(&mut self, id: u32) -> (outcome: Ghost<(bool, Option<InstModel>)>)
        requires
            old(self).wf(),
            old(self).model().id_in_range(id),
            old(self).model().id_free(id),
            old(self).model().occupancy() < old(self).model().size,
        ensures
            final(self).wf(),
            final(self).same_config(old(self)),
            final(self).is_shutdown() == old(self).is_shutdown(),
            final(self).model() == old(self).model().prepare_step(id, outcome@.0, outcome@.1),
            old(self).backend().is_reliable() ==> outcome@.0 && outcome@.1 is Some,
            outcome@.1 matches Some(si) ==> si.id == id && (old(self).backend().spawns_healthy()
                ==> si.healthy && si.reliable),
    {
        let ghost m0 = self.model();
        match self.spec.prepare(id) {
            Ok(_) => {
                match self.spec.spawn(id) {
                    Ok(instance) => {
                        let ghost si = InstModel {
                            id: instance.spec_id(),
                            healthy: instance.is_healthy(),
                            reliable: instance.is_reliable(),
                        };
                        proof {
                            m0.lemma_push_ready_inv(si);
                        }
                        let _ = self.ready_queue.push(instance);
                        proof {
                            broadcast use vstd::seq::Seq::lemma_push_map_commute;

                            assert(self.model() =~= m0.prepare_step(id, true, Some(si)));
                        }
                        Ghost((true, Some(si)))
                    },
                    Err(_) => {
                        proof {
                            m0.lemma_push_work_inv(TaskModel::Clean { id });
                        }
                        let _ = self.work_queue.push(PoolNoodleTask::Clean(id));
                        proof {
                            broadcast use vstd::seq::Seq::lemma_push_map_commute;

                            assert(self.model() =~= m0.prepare_step(id, true, None));
                        }
                        Ghost((true, None))
                    },
                }
            },
            Err(_) => {
                proof {
                    m0.lemma_push_work_inv(TaskModel::Clean { id });
                }
                let _ = self.work_queue.push(PoolNoodleTask::Clean(id));
                proof {
                    broadcast use vstd::seq::Seq::lemma_push_map_commute;

                    assert(self.model() =~= m0.prepare_step(id, false, None));
                }
                Ghost((false, None))
            },
        }
    }

    /// Handles `Drop(instance)`: a successful termination recycles the slot
    /// into `Clean`; a failed one is only logged by the surrounding runtime
    /// and the id is abandoned, silently shrinking effective capacity.
    fn handle_drop(&mut self, instance: I) -> (ok: Ghost<bool>)
        requires
            old(self).wf(),
            old(self).model().id_in_range(instance.spec_id()),
            old(self).model().id_free(instance.spec_id()),
            old(self).model().occupancy() < old(self).model().size,
        ensures
            final(self).wf(),
            final(self).same_config(old(self)),
            final(self).is_shutdown() == old(self).is_shutdown(),
            final(self).model() == old(self).model().drop_step(instance.spec_id(), ok@),
            instance.is_reliable() ==> ok@,
    {
        let ghost m0 = self.model();
        let mut instance = instance;
        let id = instance.id();
        match instance.terminate() {
            Ok(_) => {
                proof {
                    m0.lemma_push_work_inv(TaskModel::Clean { id });
                }
                let _ = self.work_queue.push(PoolNoodleTask::Clean(id));
                proof {
                    broadcast use vstd::seq::Seq::lemma_push_map_commute;

                    assert(self.model() =~= m0.drop_step(id, true));
                }
                Ghost(true)
            },
            Err(_) => Ghost(false),
        }
    }

    /// One worker step: unless shut down, pop the front task and handle it.
    /// Returns whether a task was handled.  A pool over a fully reliable,
    /// healthy-spawning backend takes exactly the deterministic
    /// [`PoolModel::step_ok`] transition.
    pub fn worker_step(&mut self) -> (worked: bool)
        requires
            old(self).wf(),
        ensures
            final(self).wf(),
            final(self).same_config(old(self)),
            final(self).is_shutdown() == old(self).is_shutdown(),
            (old(self).is_shutdown() || old(self).model().work.len() == 0) ==> !worked
                && final(self).model() == old(self).model(),
            !old(self).is_shutdown() && old(self).model().work.len() > 0 ==> worked && (match old(self).model().work[0] {
                TaskModel::Clean { id } => exists|ok: bool|
                    final(self).model() == #[trigger] old(self).model().after_pop().clean_step(
                        id,
                        ok,
                    ) && (old(self).backend().is_reliable() ==> ok),
                TaskModel::Prepare { id } => exists|prepared: bool, spawned: Option<InstModel>|
                    final(self).model() == #[trigger] old(self).model().after_pop().prepare_step(
                        id,
                        prepared,
                        spawned,
                    ) && (old(self).backend().is_reliable() ==> prepared && spawned is Some) && (
                    spawned matches Some(si) ==> si.id == id && (old(self).backend().spawns_healthy()
                        ==> si.healthy && si.reliable)),
                TaskModel::Drop { id, reliable } => exists|ok: bool|
                    final(self).model() == #[trigger] old(self).model().after_pop().drop_step(
                        id,
                        ok,
                    ) && (reliable ==> ok),
            }),
            (!old(self).is_shutdown() && old(self).backend().is_reliable()
                && old(self).backend().spawns_healthy()
                && old(self).model().front_drop_reliable())
                ==> final(self).model() == old(self).model().step_ok(),
    {
        if self.shutdown {
            return false;
        }
        let ghost m0 = self.model();
        let popped = self.work_queue.pop();
        match popped {
            None => {
                proof {
                    assert(self.model() =~= m0);
                    assert(m0.work.len() == 0);
                    assert(m0.step_ok() == m0);
                    assert(m0 == old(self).model());
                    assert(self.model() == old(self).model().step_ok());
                }
                false
            },
            Some(task) => {
                proof {
                    m0.lemma_after_pop_inv();
                    lemma_map_drop_first(
                        old(self).work_queue@,
                        |t: PoolNoodleTask<I>| t.model(),
                    );
                    assert(self.model() =~= m0.after_pop());
                }
                let ghost tm = task.model();
                proof {
                    assert(m0.work[0] == tm);
                }
                match task {
                    PoolNoodleTask::Clean(id) => {
                        let g = self.handle_clean(id);
                        proof {
                            assert(self.model() == m0.after_pop().clean_step(id, g@));
                            if old(self).backend().is_reliable() {
                                assert(g@);
                                assert(self.model() == old(self).model().step_ok());
                            }
                        }
                    },
                    PoolNoodleTask::Prepare(id) => {
                        let g = self.handle_prepare(id);
                        proof {
                            assert(self.model() == m0.after_pop().prepare_step(id, g@.0, g@.1));
                            if old(self).backend().is_reliable() && old(self).backend().spawns_healthy() {
                                assert(g@.0 && g@.1 == Some(InstModel { id, healthy: true, reliable: true }));
                                assert(self.model() == old(self).model().step_ok());
                            }
                        }
                    },
                    PoolNoodleTask::Drop(instance) => {
                        let ghost iid = instance.spec_id();
                        let g = self.handle_drop(instance);
                        proof {
                            assert(self.model() == m0.after_pop().drop_step(iid, g@));
                            if m0.front_drop_reliable() {
                                assert(g@);
                                assert(self.model() == old(self).model().step_ok());
                            }
                        }
                    },
                }
                true
            },
        }
    }

    /// One checkout attempt: pop the front ready instance.  A healthy one
    /// comes back as an exclusive guard; an unhealthy one is routed to
    /// disposal and reports `Retry`; an empty queue reports `Empty`.  Retry
    /// policy lives with the caller: only `Empty` costs a retry credit.
    pub fn try_checkout(&mut self) -> (r: CheckoutAttempt<I>)
        requires
            old(self).wf(),
        ensures
            final(self).wf(),
            final(self).same_config(old(self)),
            final(self).is_shutdown() == old(self).is_shutdown(),
            match r {
                CheckoutAttempt::Empty => old(self).model().ready.len() == 0 && final(self).model()
                    == old(self).model(),
                CheckoutAttempt::Retry => old(self).model().ready.len() > 0 && !old(self).model().ready[0].healthy && final(self).model() == ((PoolModel {
                    ready: old(self).model().ready.drop_first(),
                    ..old(self).model()
                }).push_work(
                    TaskModel::Drop {
                        id: old(self).model().ready[0].id,
                        reliable: old(self).model().ready[0].reliable,
                    },
                )),
                CheckoutAttempt::Ready(guard) => old(self).model().ready.len() > 0 && old(self).model().ready[0].healthy && guard.inst().is_healthy() && guard.inst().spec_id()
                    == old(self).model().ready[0].id && guard.inst().is_reliable() == old(self).model().ready[0].reliable && final(self).model() == (PoolModel {
                    ready: old(self).model().ready.drop_first(),
                    out: old(self).model().out.insert(old(self).model().ready[0].id),
                    ..old(self).model()
                }),
            },
    {
        let ghost m0 = self.model();
        match self.ready_queue.pop() {
            None => {
                proof {
                    assert(self.model() =~= m0);
                }
                CheckoutAttempt::Empty
            },
            Some(instance) => {
                let mut instance = instance;
                let ghost popped = PoolModel { ready: m0.ready.drop_first(), ..m0 };
                proof {
                    m0.lemma_pop_ready_inv();
                    assert(self.model() =~= popped);
                    assert(m0.ready[0] == (InstModel {
                        id: instance.spec_id(),
                        healthy: instance.is_healthy(),
                        reliable: instance.is_reliable(),
                    }));
                }
                match instance.ensure_healthy() {
                    Ok(_) => {
                        let ghost gid = instance.spec_id();
                        proof {
                            popped.lemma_insert_out_inv(gid);
                        }
                        self.out_ids = Ghost(self.out_ids@.insert(gid));
                        proof {
                            assert(self.model() =~= (PoolModel {
                                ready: m0.ready.drop_first(),
                                out: m0.out.insert(m0.ready[0].id),
                                ..m0
                            }));
                        }
                        CheckoutAttempt::Ready(LifeGuard::wrap(instance))
                    },
                    Err(_) => {
                        let ghost t = TaskModel::Drop {
                            id: instance.spec_id(),
                            reliable: instance.is_reliable(),
                        };
                        proof {
                            popped.lemma_push_work_inv(t);
                        }
                        let _ = self.work_queue.push(PoolNoodleTask::Drop(instance));
                        proof {
                            broadcast use vstd::seq::Seq::lemma_push_map_commute;

                            assert(self.model() =~= popped.push_work(t));
                        }
                        CheckoutAttempt::Retry
                    },
                }
            },
        }
    }

    /// Attempts to check a ready, healthy instance out of the pool, retrying
    /// while the ready queue is empty until the retry budget is spent.  A
    /// popped-but-unhealthy instance is routed to disposal and retried
    /// without spending a credit; credits are spent only on an empty queue.
    /// The only error is `ExecutionPoolStarved`, and it comes exactly when
    /// the budget is zero or no ready instance is healthy.
    #[verifier::loop_isolation(false)]
    pub fn get(&mut self) -> (r: Result<LifeGuard<I>, PoolNoodleError<E>>)
        requires
            old(self).wf(),
        ensures
            final(self).wf(),
            final(self).same_config(old(self)),
            final(self).is_shutdown() == old(self).is_shutdown(),
            match r {
                Ok(guard) => ({
                    let (m, got) = old(self).model().checkout();
                    &&& old(self).spec_retry_limit() > 0
                    &&& got == Some(guard.inst().spec_id())
                    &&& guard.inst().is_healthy()
                    &&& final(self).model() == m
                    &&& (old(self).model().checkout_inst() matches Some(im) && guard.inst().spec_id()
                        == im.id && guard.inst().is_healthy() == im.healthy
                        && guard.inst().is_reliable() == im.reliable)
                }),
                Err(e) => ({
                    let (m, got) = old(self).model().checkout();
                    &&& e is ExecutionPoolStarved
                    &&& (old(self).spec_retry_limit() == 0 || got is None)
                    &&& final(self).model() == (if old(self).spec_retry_limit() == 0 {
                        old(self).model()
                    } else {
                        m
                    })
                }),
            },
    {
        let max_retries = self.retry_limit;
        let mut retries: u32 = 0;
        loop
            invariant
                self.wf(),
                self.same_config(old(self)),
                self.is_shutdown() == old(self).is_shutdown(),
                retries <= max_retries,
                self.model().checkout() == old(self).model().checkout(),
                self.model().checkout_inst() == old(self).model().checkout_inst(),
                retries > 0 ==> self.model().ready.len() == 0,
                retries == 0 ==> self.model() == old(self).model() || max_retries > 0,
                max_retries == 0 ==> self.model() == old(self).model(),
            decreases max_retries - retries, self.model().ready.len(),
        {
            if retries >= max_retries {
                proof {
                    if max_retries > 0 {
                        assert(self.model().ready.len() == 0);
                        assert(self.model().checkout() == (self.model(), None::<u32>));
                    }
                }
                return Err(PoolNoodleError::ExecutionPoolStarved);
            }
            let ghost before = self.model();
            match self.try_checkout() {
                CheckoutAttempt::Ready(guard) => {
                    proof {
                        assert(before.checkout() == (self.model(), Some(guard.inst().spec_id())));
                        assert(before.checkout_inst() == Some(before.ready[0]));
                    }
                    return Ok(guard);
                },
                CheckoutAttempt::Retry => {
                    proof {
                        assert(before.checkout() == self.model().checkout());
                        assert(before.checkout_inst() == self.model().checkout_inst());
                    }
                },
                CheckoutAttempt::Empty => {
                    retries = retries + 1;
                },
            }
        }
    }

    /// Hands a checked-out instance back: its slot id leaves the checked-out
    /// set and a `Drop` task for the instance joins the work queue.  Release
    /// never fails; the instance is never recycled directly into the ready
    /// queue.
    pub fn release(&mut self, guard: LifeGuard<I>)
        requires
            old(self).wf(),
            old(self).model().out.contains(guard.inst().spec_id()),
        ensures
            final(self).wf(),
            final(self).same_config(old(self)),
            final(self).is_shutdown() == old(self).is_shutdown(),
            final(self).model() == old(self).model().release_step(
                guard.inst().spec_id(),
                guard.inst().is_reliable(),
            ),
    {
        let ghost m0 = self.model();
        let instance = guard.into_instance();
        let ghost gid = instance.spec_id();
        let ghost rel = instance.is_reliable();
        proof {
            m0.lemma_release_inv(gid, rel);
        }
        self.out_ids = Ghost(self.out_ids@.remove(gid));
        let ghost mid = PoolModel { out: m0.out.remove(gid), ..m0 };
        proof {
            assert(self.model() =~= mid);
        }
        let _ = self.work_queue.push(PoolNoodleTask::Drop(instance));
        proof {
            broadcast use vstd::seq::Seq::lemma_push_map_commute;

            assert(self.model() =~= mid.push_work(TaskModel::Drop { id: gid, reliable: rel }));
        }
    }

    /// Runs one out-of-band instance lifecycle on the reserved slot id 0:
    /// clean, prepare, spawn, health check, terminate, clean.  The pool's
    /// queues are untouched; the first failing step surfaces as its own
    /// error variant.
    fn check_health(&self) -> (r: Result<(), PoolNoodleError<E>>)
        ensures
            (self.backend().is_reliable() && self.backend().spawns_healthy()) ==> r is Ok,
            r is Ok ==> exists|i: I|
                #[trigger] self.backend().can_spawn(i, 0) && i.is_healthy(),
            r matches Err(e) ==> !(self.backend().is_reliable() && self.backend().spawns_healthy())
                && (e is InstanceClean || e is InstancePrepare || e is InstanceSpawn
                || e is Unhealthy || e is InstanceTerminate),
            r matches Err(e) ==> ((e is InstanceClean || e is InstancePrepare
                || e is InstanceSpawn) ==> !self.backend().is_reliable()),
            r matches Err(e) ==> (e is Unhealthy ==> exists|i: I|
                #[trigger] self.backend().can_spawn(i, 0) && !i.is_healthy()),
            r matches Err(e) ==> (e is InstanceTerminate ==> exists|i: I|
                #[trigger] self.backend().can_spawn(i, 0) && !i.is_reliable()),
    {
        let id: u32 = 0;
        match self.spec.clean(id) {
            Err(e) => {
                return Err(PoolNoodleError::InstanceClean(e));
            },
            Ok(_) => {},
        }
        match self.spec.prepare(id) {
            Err(e) => {
                return Err(PoolNoodleError::InstancePrepare(e));
            },
            Ok(_) => {},
        }
        let mut instance = match self.spec.spawn(id) {
            Ok(i) => i,
            Err(e) => {
                return Err(PoolNoodleError::InstanceSpawn(e));
            },
        };
        let ghost spawned = instance;
        match instance.ensure_healthy() {
            Err(e) => {
                proof {
                    assert(self.backend().can_spawn(spawned, 0) && !spawned.is_healthy());
                }
                return Err(PoolNoodleError::Unhealthy(e));
            },
            Ok(_) => {},
        }
        match instance.terminate() {
            Err(e) => {
                proof {
                    assert(self.backend().can_spawn(spawned, 0) && !spawned.is_reliable());
                }
                return Err(PoolNoodleError::InstanceTerminate(e));
            },
            Ok(_) => {},
        }
        match self.spec.clean(id) {
            Err(e) => {
                return Err(PoolNoodleError::InstanceClean(e));
            },
            Ok(_) => {},
        }
        proof {
            assert(self.backend().can_spawn(spawned, 0) && spawned.is_healthy());
        }
        Ok(())
    }

    /// Performs the one-time, mutating, privileged backend setup.  Its
    /// failure at construction time is fatal to pool startup and is not
    /// retried.
    pub fn setup(&mut self) -> (r: Result<(), PoolNoodleError<E>>)
        requires
            old(self).wf(),
        ensures
            final(self).wf(),
            final(self).model() == old(self).model(),
            final(self).is_shutdown() == old(self).is_shutdown(),
            final(self).spec_retry_limit() == old(self).spec_retry_limit(),
            final(self).spec_check_health() == old(self).spec_check_health(),
            old(self).backend().is_reliable() ==> r is Ok,
            r matches Err(e) ==> e is InstanceSetup && !old(self).backend().is_reliable(),
    {
        match self.spec.setup() {
            Err(e) => Err(PoolNoodleError::InstanceSetup(e)),
            Ok(_) => Ok(()),
        }
    }

    /// Starts the pool: when configured, verifies one full instance
    /// lifecycle first and aborts on its failure, surfacing the failing
    /// step's own error variant.  The worker loops themselves are driven
    /// from outside through [`Self::worker_step`].
    pub fn run(&mut self) -> (r: Result<(), PoolNoodleError<E>>)
        requires
            old(self).wf(),
        ensures
            *final(self) == *old(self),
            final(self).wf(),
            !old(self).spec_check_health() ==> r is Ok,
            (old(self).backend().is_reliable() && old(self).backend().spawns_healthy()) ==> r
                is Ok,
            r is Err ==> old(self).spec_check_health(),
            r matches Err(e) ==> !(old(self).backend().is_reliable() && old(self).backend().spawns_healthy()),
            r matches Err(e) ==> (e is InstanceClean || e is InstancePrepare
                || e is InstanceSpawn || e is Unhealthy || e is InstanceTerminate),
            r matches Err(e) ==> ((e is InstanceClean || e is InstancePrepare
                || e is InstanceSpawn) ==> !old(self).backend().is_reliable()),
            r matches Err(e) ==> (e is Unhealthy ==> exists|i: I|
                #[trigger] old(self).backend().can_spawn(i, 0) && !i.is_healthy()),
            r matches Err(e) ==> (e is InstanceTerminate ==> exists|i: I|
                #[trigger] old(self).backend().can_spawn(i, 0) && !i.is_reliable()),
            (old(self).spec_check_health() && r is Ok) ==> exists|i: I|
                #[trigger] old(self).backend().can_spawn(i, 0) && i.is_healthy(),
    {
        if self.check_health {
            match self.check_health() {
                Err(e) => {
                    return Err(e);
                },
                Ok(_) => {},
            }
        }
        Ok(())
    }

    /// Number of instances currently ready for checkout.
    pub fn ready_len(&self) -> (n: usize)
        ensures
            n == self.model().ready.len(),
    {
        self.ready_queue.len()
    }

    /// Number of tasks currently queued as pending work.
    pub fn work_len(&self) -> (n: usize)
        ensures
            n == self.model().work.len(),
    {
        self.work_queue.len()
    }

    /// Requests shutdown: workers stop picking up tasks between executions.
    pub fn shutdown(&mut self)
        ensures
            final(self).is_shutdown(),
            final(self).model() == old(self).model(),
            final(self).same_config(old(self)),
            old(self).wf() ==> final(self).wf(),
    {
        self.shutdown = true;
    }
}

/// Mapping a function over a sequence commutes with dropping its first
/// element.
proof fn lemma_map_drop_first<T, U>(s: Seq<T>, f: spec_fn(T) -> U)
    requires
        s.len() > 0,
    ensures
        s.drop_first().map_values(f) =~= s.map_values(f).drop_first(),
{
}

} // verus!
