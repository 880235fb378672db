//! Pool-wide laws, proved over the [`PoolModel`] transitions that every pool
//! method's contract is stated against.

use vstd::prelude::*;

use crate::model::{InstModel, PoolModel, TaskModel};

verus! {

/// The ready-queue state after `k` successful clean steps from a freshly
/// seeded pool: slots `1..=k` are waiting to be prepared behind the
/// still-unprocessed `Clean` tasks of slots `k+1..=n`.
spec fn ramp_cleaned(n: u32, k: int) -> PoolModel {
    PoolModel {
        size: n,
        work: Seq::new((n - k) as nat, |i: int| TaskModel::Clean { id: (k + i + 1) as u32 })
            + Seq::new(k as nat, |i: int| TaskModel::Prepare { id: (i + 1) as u32 }),
        ready: Seq::empty(),
        out: Set::empty(),
    }
}

/// The state after the first `k` prepare-and-spawn steps of the second pass:
/// slots `1..=k` are ready and healthy, slots `k+1..=n` still queued.
spec fn ramp_prepared(n: u32, k: int) -> PoolModel {
    PoolModel {
        size: n,
        work: Seq::new((n - k) as nat, |i: int| TaskModel::Prepare { id: (k + i + 1) as u32 }),
        ready: Seq::new(
            k as nat,
            |i: int| InstModel { id: (i + 1) as u32, healthy: true, reliable: true },
        ),
        out: Set::empty(),
    }
}

/// Successive reliable worker steps compose, so a chain of single steps
/// can be summed up.
pub proof fn lemma_steps_ok_add(m: PoolModel, a: nat, b: nat)
    ensures
        m.steps_ok(a + b) == m.steps_ok(a).steps_ok(b),
    decreases a,
{
    if a > 0 {
        lemma_steps_ok_add(m.step_ok(), (a - 1) as nat, b);
    }
}

/// One reliable worker step during the first pass.
proof fn lemma_ramp_cleaned_step(n: u32, k: int)
    requires
        1 <= n,
        0 <= k < n,
    ensures
        ramp_cleaned(n, k).step_ok() == ramp_cleaned(n, k + 1),
{
    let m = ramp_cleaned(n, k);
    assert(m.work.len() == n);
    assert(m.work[0] == TaskModel::Clean { id: (k + 1) as u32 });
    assert(m.step_ok().work =~= ramp_cleaned(n, k + 1).work);
    assert(m.step_ok() =~= ramp_cleaned(n, k + 1));
}

/// One reliable worker step during the second pass.
proof fn lemma_ramp_prepared_step(n: u32, k: int)
    requires
        1 <= n,
        0 <= k < n,
    ensures
        ramp_prepared(n, k).step_ok() == ramp_prepared(n, k + 1),
{
    let m = ramp_prepared(n, k);
    assert(m.work.len() == n - k);
    assert(m.work[0] == TaskModel::Prepare { id: (k + 1) as u32 });
    assert(m.step_ok().work =~= ramp_prepared(n, k + 1).work);
    assert(m.step_ok().ready =~= ramp_prepared(n, k + 1).ready);
    assert(m.step_ok() =~= ramp_prepared(n, k + 1));
}

/// Any stretch of the first pass turns seeded `Clean` tasks into `Prepare`
/// tasks, one per step.
proof fn lemma_ramp_first_pass(n: u32, i: int, k: nat)
    requires
        1 <= n,
        0 <= i,
        i + k <= n,
    ensures
        ramp_cleaned(n, i).steps_ok(k) == ramp_cleaned(n, i + k),
    decreases k,
{
    if k > 0 {
        lemma_ramp_cleaned_step(n, i);
        lemma_ramp_first_pass(n, i + 1, (k - 1) as nat);
    }
}

/// Any stretch of the second pass spawns one healthy ready instance per
/// step.
proof fn lemma_ramp_second_pass(n: u32, i: int, k: nat)
    requires
        1 <= n,
        0 <= i,
        i + k <= n,
    ensures
        ramp_prepared(n, i).steps_ok(k) == ramp_prepared(n, i + k),
    decreases k,
{
    if k > 0 {
        lemma_ramp_prepared_step(n, i);
        lemma_ramp_second_pass(n, i + 1, (k - 1) as nat);
    }
}

/// The state after `k` reliable worker steps from a freshly seeded pool:
/// the first pass up to step `n`, the second pass after it.
proof fn lemma_ramp_state(n: u32, k: nat)
    requires
        1 <= n,
        k <= 2 * n,
    ensures
        k <= n ==> PoolModel::init(n).steps_ok(k) == ramp_cleaned(n, k as int),
        k > n ==> PoolModel::init(n).steps_ok(k) == ramp_prepared(n, k - n),
{
    assert(PoolModel::init(n) =~= ramp_cleaned(n, 0));
    if k <= n {
        lemma_ramp_first_pass(n, 0, k);
    } else {
        lemma_steps_ok_add(PoolModel::init(n), n as nat, (k - n) as nat);
        lemma_ramp_first_pass(n, 0, n as nat);
        assert(ramp_cleaned(n, n as int).work =~= ramp_prepared(n, 0).work);
        assert(ramp_cleaned(n, n as int) =~= ramp_prepared(n, 0));
        lemma_ramp_second_pass(n, 0, (k - n) as nat);
    }
}

/// Law (ramp-up companion): at every point of the two ramp-up passes the
/// work queue holds only `Clean` and `Prepare` tasks, so a pool over a
/// reliable, healthy-spawning backend keeps taking exactly the
/// deterministic worker transition from seeding to full readiness.
pub proof fn lemma_ramp_up_stays_deterministic(n: u32, k: nat)
    requires
        1 <= n,
        k <= 2 * n,
    ensures
        PoolModel::init(n).steps_ok(k).front_drop_reliable(),
{
    lemma_ramp_state(n, k);
    let m = PoolModel::init(n).steps_ok(k);
    assert(forall|j: int| 0 <= j < m.work.len() ==> !((#[trigger] m.work[j]) is Drop));
}

/// Law: over a backend whose lifecycle operations all succeed and whose
/// spawned instances are healthy, a freshly seeded pool of any size is fully
/// ready after two worker passes — one `Clean` and one `Prepare`-and-spawn
/// step per slot — and a checkout then succeeds at once, so `get` returns a
/// guard under any positive retry budget.
pub proof fn lemma_pool_ramp_up(n: u32)
    requires
        1 <= n,
    ensures
        ({
            let m = PoolModel::init(n).steps_ok((2 * n) as nat);
            &&& m.ready.len() == n
            &&& (forall|i: int|
                0 <= i < n ==> m.ready[i] == (InstModel {
                    id: (i + 1) as u32,
                    healthy: true,
                    reliable: true,
                }))
            &&& m.checkout().1 == Some(1u32)
            &&& m.checkout_inst() == Some(InstModel { id: 1u32, healthy: true, reliable: true })
        }),
{
    lemma_ramp_state(n, (2 * n) as nat);
    let m = PoolModel::init(n).steps_ok((2 * n) as nat);
    assert(m == ramp_prepared(n, n as int));
    assert(m.ready[0] == (InstModel { id: 1u32, healthy: true, reliable: true }));
}

/// Law: concurrent checkouts never share a slot id.  A checkout hands out an
/// id that no guard holds, so any two guards obtained one after the other
/// hold distinct ids.
pub proof fn lemma_checkouts_distinct(m: PoolModel)
    requires
        m.inv(),
    ensures
        ({
            let (m1, got1) = m.checkout();
            let (m2, got2) = m1.checkout();
            &&& (got1 matches Some(a) ==> !m.out.contains(a) && m1.out.contains(a))
            &&& (got1 matches Some(a) ==> (got2 matches Some(b) ==> a != b))
        }),
{
    broadcast use vstd::set::group_set_axioms;

    m.lemma_checkout_inv();
    m.checkout().0.lemma_checkout_inv();
}

/// Law: releasing a checked-out guard never fails, and its `Drop` task
/// always finds room at the back of the work queue.
pub proof fn lemma_release_always_lands(m: PoolModel, id: u32, reliable: bool)
    requires
        m.inv(),
        m.out.contains(id),
    ensures
        m.release_step(id, reliable).inv(),
        m.release_step(id, reliable).work == m.work.push((TaskModel::Drop { id, reliable })),
        m.release_step(id, reliable).work.last() == (TaskModel::Drop { id, reliable }),
{
    m.lemma_release_inv(id, reliable);
}

/// Law: once a released instance's `Drop` task is handled and its
/// termination succeeds, the slot id re-enters the `Clean` stage of the
/// lifecycle.
pub proof fn lemma_drop_reenters_clean(m: PoolModel, id: u32)
    requires
        m.inv(),
        m.id_in_range(id),
        m.id_free(id),
        m.occupancy() < m.size,
    ensures
        m.drop_step(id, true).inv(),
        m.drop_step(id, true).work == m.work.push((TaskModel::Clean { id })),
{
    m.lemma_push_work_inv(TaskModel::Clean { id });
}

/// Law: a released slot does not merely re-enter `Clean`: over a reliable
/// backend, three worker steps after the release of the last queued task —
/// drop, clean, prepare-and-spawn — the very same slot id is ready again.
pub proof fn lemma_release_recycles_slot(m: PoolModel, id: u32)
    requires
        m.inv(),
        m.out.contains(id),
        m.work.len() == 0,
    ensures
        ({
            let m3 = m.release_step(id, true).steps_ok(3);
            &&& m3.ready.len() == m.ready.len() + 1
            &&& m3.ready.last() == (InstModel { id, healthy: true, reliable: true })
        }),
{
    m.lemma_release_inv(id, true);
    let m1 = m.release_step(id, true);
    assert(m1.work == Seq::empty().push(TaskModel::Drop { id, reliable: true }));
    m1.lemma_after_pop_inv();
    let m1p = m1.after_pop();
    m1p.lemma_push_work_inv(TaskModel::Clean { id });
    let m2 = m1.step_ok();
    assert(m2 == m1p.push_work(TaskModel::Clean { id }));
    m2.lemma_after_pop_inv();
    let m2p = m2.after_pop();
    m2p.lemma_push_work_inv(TaskModel::Prepare { id });
    let m3 = m2.step_ok();
    assert(m3 == m2p.push_work(TaskModel::Prepare { id }));
    m3.lemma_after_pop_inv();
    let m3p = m3.after_pop();
    m3p.lemma_push_ready_inv(InstModel { id, healthy: true, reliable: true });
    let m4 = m3.step_ok();
    assert(m4 == m3p.push_ready(InstModel { id, healthy: true, reliable: true }));
    assert(m1.steps_ok(3) == m2.steps_ok(2));
    assert(m2.steps_ok(2) == m3.steps_ok(1));
    assert(m3.steps_ok(1) == m4.steps_ok(0));
    assert(m4.steps_ok(0) == m4);
}

/// One worker step over a backend that is reliable except that cleaning
/// slot `j` always fails, and whose spawned instances are healthy.
pub open spec fn step_failing_clean(m: PoolModel, j: u32) -> PoolModel {
    if m.work.len() == 0 {
        m
    } else {
        let popped = m.after_pop();
        match m.work[0] {
            TaskModel::Clean { id } => popped.clean_step(id, id != j),
            TaskModel::Prepare { id } => (popped.prepare_step(
                id,
                true,
                Some(InstModel { id, healthy: true, reliable: true }),
            )),
            TaskModel::Drop { id, .. } => popped.drop_step(id, true),
        }
    }
}

/// `k` successive [`step_failing_clean`] worker steps.
pub open spec fn steps_failing_clean(m: PoolModel, j: u32, k: nat) -> PoolModel
    decreases k,
{
    if k == 0 {
        m
    } else {
        steps_failing_clean(step_failing_clean(m, j), j, (k - 1) as nat)
    }
}

/// Slot `j` is locked out of progress: no `Prepare` task for it is queued,
/// it is not ready, and it is not checked out.
pub open spec fn locked_out(m: PoolModel, j: u32) -> bool {
    &&& forall|i: int|
        0 <= i < m.work.len() ==> (#[trigger] m.work[i]) != (TaskModel::Prepare { id: j })
    &&& forall|i: int| 0 <= i < m.ready.len() ==> (#[trigger] m.ready[i]).id != j
    &&& !m.out.contains(j)
}

/// One failing-clean worker step keeps slot `j` locked out.
proof fn lemma_step_failing_clean_locked_out(m: PoolModel, j: u32)
    requires
        locked_out(m, j),
    ensures
        locked_out(step_failing_clean(m, j), j),
{
    if m.work.len() > 0 {
        let popped = m.after_pop();
        assert(forall|i: int| 0 <= i < popped.work.len() ==> popped.work[i] == m.work[i + 1]);
    }
}

/// Law: a slot whose backend clean always fails stays perpetually out of
/// the ready queue.  From any state in which slot `j` has no `Prepare` task
/// queued, is not ready and is not checked out — the freshly seeded pool in
/// particular — any number of worker steps over a backend that fails every
/// clean of `j` (and succeeds at everything else) leaves `j` in that same
/// locked-out state: it never becomes ready.
pub proof fn lemma_failing_clean_perpetually_out(m: PoolModel, j: u32, k: nat)
    requires
        locked_out(m, j),
    ensures
        locked_out(steps_failing_clean(m, j, k), j),
    decreases k,
{
    if k > 0 {
        lemma_step_failing_clean_locked_out(m, j);
        lemma_failing_clean_perpetually_out(step_failing_clean(m, j), j, (k - 1) as nat);
    }
}

/// Successive failing-clean worker steps compose, so a chain of single
/// steps can be summed up.
pub proof fn lemma_steps_failing_clean_add(m: PoolModel, j: u32, a: nat, b: nat)
    ensures
        steps_failing_clean(m, j, a + b) == steps_failing_clean(
            steps_failing_clean(m, j, a),
            j,
            b,
        ),
    decreases a,
{
    if a > 0 {
        lemma_steps_failing_clean_add(step_failing_clean(m, j), j, (a - 1) as nat, b);
    }
}

/// The first failing-clean pass after `k` steps: the `Clean` tasks of slots
/// `1..=k` were processed — each advanced to `Prepare` but slot `j`, whose
/// `Clean` was re-queued.
spec fn fail_ramp_cleaned(n: u32, j: u32, k: int) -> PoolModel {
    PoolModel {
        size: n,
        work: Seq::new((n - k) as nat, |i: int| TaskModel::Clean { id: (k + i + 1) as u32 })
            + Seq::new(
            k as nat,
            |i: int|
                if i + 1 == j {
                    (TaskModel::Clean { id: j })
                } else {
                    (TaskModel::Prepare { id: (i + 1) as u32 })
                },
        ),
        ready: Seq::empty(),
        out: Set::empty(),
    }
}

/// The ready queue after the second failing-clean pass has handled `k`
/// slots: the ids `1..=k` in order, slot `j` left out.
spec fn ready_without(j: u32, k: int) -> Seq<InstModel> {
    if k < j {
        Seq::new(k as nat, |i: int| InstModel { id: (i + 1) as u32, healthy: true, reliable: true })
    } else {
        Seq::new(
            (k - 1) as nat,
            |i: int| (InstModel {
                id: (if i + 1 < j {
                    i + 1
                } else {
                    i + 2
                }) as u32,
                healthy: true,
                reliable: true,
            }),
        )
    }
}

/// The second failing-clean pass after `k` steps: slots `1..=k` except `j`
/// are ready; `j`'s `Clean` task keeps cycling at the back.
spec fn fail_ramp_prepared(n: u32, j: u32, k: int) -> PoolModel {
    PoolModel {
        size: n,
        work: Seq::new(
            (n - k) as nat,
            |i: int|
                if k + i + 1 == j {
                    (TaskModel::Clean { id: j })
                } else {
                    (TaskModel::Prepare { id: (k + i + 1) as u32 })
                },
        ) + (if j <= k {
            seq![TaskModel::Clean { id: j }]
        } else {
            Seq::empty()
        }),
        ready: ready_without(j, k),
        out: Set::empty(),
    }
}

/// One failing-clean worker step during the first pass.
proof fn lemma_fail_ramp_cleaned_step(n: u32, j: u32, k: int)
    requires
        1 <= n,
        1 <= j <= n,
        0 <= k < n,
    ensures
        step_failing_clean(fail_ramp_cleaned(n, j, k), j) == fail_ramp_cleaned(n, j, k + 1),
{
    let m = fail_ramp_cleaned(n, j, k);
    assert(m.work.len() == n);
    assert(m.work[0] == TaskModel::Clean { id: (k + 1) as u32 });
    let next = step_failing_clean(m, j);
    assert(next.work =~= fail_ramp_cleaned(n, j, k + 1).work);
    assert(next =~= fail_ramp_cleaned(n, j, k + 1));
}

/// One failing-clean worker step during the second pass.
proof fn lemma_fail_ramp_prepared_step(n: u32, j: u32, k: int)
    requires
        1 <= n,
        1 <= j <= n,
        0 <= k < n,
    ensures
        step_failing_clean(fail_ramp_prepared(n, j, k), j) == fail_ramp_prepared(n, j, k + 1),
{
    let m = fail_ramp_prepared(n, j, k);
    assert(m.work.len() == n - k + (if j <= k { 1int } else { 0 }));
    let next = step_failing_clean(m, j);
    if k + 1 == j {
        assert(m.work[0] == TaskModel::Clean { id: j });
        assert(next.work =~= fail_ramp_prepared(n, j, k + 1).work);
        assert(next.ready =~= fail_ramp_prepared(n, j, k + 1).ready);
    } else {
        assert(m.work[0] == TaskModel::Prepare { id: (k + 1) as u32 });
        assert(m.ready.len() < n);
        assert(next.work =~= fail_ramp_prepared(n, j, k + 1).work);
        assert(next.ready =~= fail_ramp_prepared(n, j, k + 1).ready);
    }
    assert(next =~= fail_ramp_prepared(n, j, k + 1));
}

/// Any stretch of the first failing-clean pass.
proof fn lemma_fail_ramp_first_pass(n: u32, j: u32, i: int, k: nat)
    requires
        1 <= n,
        1 <= j <= n,
        0 <= i,
        i + k <= n,
    ensures
        steps_failing_clean(fail_ramp_cleaned(n, j, i), j, k) == fail_ramp_cleaned(n, j, i + k),
    decreases k,
{
    if k > 0 {
        lemma_fail_ramp_cleaned_step(n, j, i);
        lemma_fail_ramp_first_pass(n, j, i + 1, (k - 1) as nat);
    }
}

/// Any stretch of the second failing-clean pass.
proof fn lemma_fail_ramp_second_pass(n: u32, j: u32, i: int, k: nat)
    requires
        1 <= n,
        1 <= j <= n,
        0 <= i,
        i + k <= n,
    ensures
        steps_failing_clean(fail_ramp_prepared(n, j, i), j, k) == fail_ramp_prepared(
            n,
            j,
            i + k,
        ),
    decreases k,
{
    if k > 0 {
        lemma_fail_ramp_prepared_step(n, j, i);
        lemma_fail_ramp_second_pass(n, j, i + 1, (k - 1) as nat);
    }
}

/// Law: a slot whose backend clean keeps failing does not block the other
/// slots from reaching Ready.  From a freshly seeded pool over a backend
/// that fails every clean of slot `j` and succeeds at everything else, two
/// worker passes leave every slot but `j` ready and healthy — `j`'s `Clean`
/// task alone keeps cycling — and a checkout then succeeds with an id other
/// than `j` whenever the pool has at least two slots.
pub proof fn lemma_failing_clean_others_reach_ready(n: u32, j: u32)
    requires
        2 <= n,
        1 <= j <= n,
    ensures
        ({
            let m = steps_failing_clean(PoolModel::init(n), j, (2 * n) as nat);
            &&& m.ready.len() == n - 1
            &&& (forall|i: int|
                0 <= i < m.ready.len() ==> (#[trigger] m.ready[i]).id != j && m.ready[i].healthy)
            &&& m.checkout().1 is Some
            &&& m.checkout().1 != Some(j)
        }),
{
    assert(PoolModel::init(n) =~= fail_ramp_cleaned(n, j, 0));
    lemma_steps_failing_clean_add(PoolModel::init(n), j, n as nat, n as nat);
    lemma_fail_ramp_first_pass(n, j, 0, n as nat);
    assert(fail_ramp_cleaned(n, j, n as int).work =~= fail_ramp_prepared(n, j, 0).work);
    assert(fail_ramp_cleaned(n, j, n as int) =~= fail_ramp_prepared(n, j, 0));
    lemma_fail_ramp_second_pass(n, j, 0, n as nat);
    let m = steps_failing_clean(PoolModel::init(n), j, (2 * n) as nat);
    assert(m == fail_ramp_prepared(n, j, n as int));
    assert(m.ready[0] == ready_without(j, n as int)[0]);
    assert(m.ready[0].healthy && m.ready[0].id != j);
}

/// Law: a slot whose backend clean keeps failing stays out of the ready
/// queue without blocking any other slot: handling its failed `Clean` task
/// leaves the ready queue and the checked-out set untouched, re-queues the
/// same `Clean` task at the back, and moves every other queued task one
/// position closer to the front.
pub proof fn lemma_failed_clean_isolated(m: PoolModel, id: u32)
    requires
        m.inv(),
        m.work.len() > 0,
        m.work[0] == (TaskModel::Clean { id }),
    ensures
        ({
            let m1 = m.after_pop().clean_step(id, false);
            &&& m1.inv()
            &&& m1.ready == m.ready
            &&& m1.out == m.out
            &&& (forall|i: int| 0 <= i < m1.ready.len() ==> (#[trigger] m1.ready[i]).id != id)
            &&& m1.work.len() == m.work.len()
            &&& m1.work.last() == (TaskModel::Clean { id })
            &&& (forall|i: int| 1 <= i < m.work.len() ==> m1.work[i - 1] == m.work[i])
        }),
{
    m.lemma_after_pop_inv();
    m.after_pop().lemma_push_work_inv(TaskModel::Clean { id });
}

} // verus!
