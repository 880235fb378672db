use si_pool_noodle::dummy::{DummyInstance, DummyInstanceBuilder, DummyInstanceSpec};
use si_pool_noodle::{PoolNoodle, PoolNoodleConfig, PoolNoodleError, PoolNoodleTask, SpecBuilder};

fn config(
    check_health: bool,
    pool_size: u32,
    retry_limit: u32,
    spec: DummyInstanceSpec,
) -> PoolNoodleConfig<DummyInstanceSpec> {
    PoolNoodleConfig {
        check_health,
        max_concurrency: 10,
        pool_size,
        retry_limit,
        spec,
    }
}

/// Drives worker steps until no work is pending.
fn drain_work(pool: &mut PoolNoodle<si_pool_noodle::dummy::DummyInstance, DummyInstanceSpec>, max_steps: u32) {
    for _ in 0..max_steps {
        pool.worker_step();
    }
}

#[test]
fn pool_noodle_lifecycle() {
    let spec = DummyInstanceSpec::reliable();
    let mut pool = PoolNoodle::new(config(false, 3, 3, spec));
    pool.run().expect("failed to start");

    // give the pool two worker passes to create its instances
    drain_work(&mut pool, 6);
    // go get an instance
    let mut instance = pool.get().expect("should be able to get an instance");
    instance.ensure_healthy().expect("failed healthy");
    pool.release(instance);

    let a = pool.get().expect("should be able to get an instance");
    let b = pool.get().expect("should be able to get an instance");
    // the released slot needs a full drop -> clean -> prepare cycle first
    drain_work(&mut pool, 3);
    let c = pool.get().expect("should be able to get an instance");
    pool.release(a);
    pool.release(b);
    pool.release(c);
    pool.shutdown();
    assert!(pool.get().is_err());
}

#[test]
fn ramp_up_makes_all_slots_ready() {
    let spec = DummyInstanceSpec::reliable();
    let mut pool = PoolNoodle::new(config(false, 3, 3, spec));
    pool.run().expect("failed to start");
    assert_eq!(pool.work_len(), 3);
    assert_eq!(pool.ready_len(), 0);
    drain_work(&mut pool, 6);
    assert_eq!(pool.work_len(), 0);
    assert_eq!(pool.ready_len(), 3);
}

#[test]
fn fourth_get_succeeds_only_after_release() {
    let spec = DummyInstanceSpec::reliable();
    let mut pool = PoolNoodle::new(config(false, 3, 3, spec));
    pool.run().expect("failed to start");
    drain_work(&mut pool, 6);

    let a = pool.get().expect("should be able to get an instance");
    let b = pool.get().expect("should be able to get an instance");
    let c = pool.get().expect("should be able to get an instance");
    // all three slots are checked out: another get starves
    assert!(matches!(
        pool.get(),
        Err(PoolNoodleError::ExecutionPoolStarved)
    ));
    pool.release(a);
    // drop -> clean -> prepare+spawn brings the slot back
    drain_work(&mut pool, 3);
    let d = pool.get().expect("should be able to get an instance");
    pool.release(b);
    pool.release(c);
    pool.release(d);
}

#[test]
fn concurrent_checkouts_have_distinct_ids() {
    let spec = DummyInstanceSpec::reliable();
    let mut pool = PoolNoodle::new(config(false, 3, 3, spec));
    pool.run().expect("failed to start");
    drain_work(&mut pool, 6);
    let a = pool.get().expect("should be able to get an instance");
    let b = pool.get().expect("should be able to get an instance");
    let c = pool.get().expect("should be able to get an instance");
    assert_ne!(a.id(), b.id());
    assert_ne!(a.id(), c.id());
    assert_ne!(b.id(), c.id());
}

#[test]
fn released_slot_reenters_clean_cycle() {
    let spec = DummyInstanceSpec::reliable();
    let mut pool = PoolNoodle::new(config(false, 2, 3, spec));
    pool.run().expect("failed to start");
    drain_work(&mut pool, 4);
    assert_eq!(pool.ready_len(), 2);

    let guard = pool.get().expect("should be able to get an instance");
    assert_eq!(pool.ready_len(), 1);
    pool.release(guard);
    // the Drop task is queued...
    assert_eq!(pool.work_len(), 1);
    // ...and three worker steps later the slot is ready again
    drain_work(&mut pool, 3);
    assert_eq!(pool.ready_len(), 2);
    assert_eq!(pool.work_len(), 0);
}

#[test]
fn failing_clean_starves_only_its_own_slot() {
    let mut spec = DummyInstanceSpec::reliable();
    spec.fail_clean_for = Some(1);
    let mut pool = PoolNoodle::new(config(false, 2, 3, spec));
    pool.run().expect("failed to start");
    drain_work(&mut pool, 10);
    // slot 1 keeps cycling through Clean and never becomes ready
    assert_eq!(pool.ready_len(), 1);
    assert_eq!(pool.work_len(), 1);
    let guard = pool.get().expect("should be able to get an instance");
    assert_eq!(guard.id(), 2);
}

#[test]
fn always_failing_clean_starves_pool() {
    let mut spec = DummyInstanceSpec::reliable();
    spec.fail_clean = true;
    let mut pool = PoolNoodle::new(config(false, 2, 2, spec));
    pool.run().expect("failed to start");
    drain_work(&mut pool, 10);
    assert_eq!(pool.ready_len(), 0);
    // the Clean tasks are still cycling: nothing was lost, nothing is ready
    assert_eq!(pool.work_len(), 2);
    assert!(matches!(
        pool.get(),
        Err(PoolNoodleError::ExecutionPoolStarved)
    ));
}

#[test]
fn unhealthy_instances_are_discarded_without_spending_credits() {
    let mut spec = DummyInstanceSpec::reliable();
    spec.spawn_unhealthy = true;
    let mut pool = PoolNoodle::new(config(false, 3, 3, spec));
    pool.run().expect("failed to start");
    drain_work(&mut pool, 6);
    assert_eq!(pool.ready_len(), 3);
    // every popped instance is unhealthy: each goes to disposal, and only
    // the empty queue afterwards spends the retry credits
    assert!(matches!(
        pool.get(),
        Err(PoolNoodleError::ExecutionPoolStarved)
    ));
    assert_eq!(pool.ready_len(), 0);
    assert_eq!(pool.work_len(), 3);
}

#[test]
fn zero_retry_budget_starves_immediately() {
    let spec = DummyInstanceSpec::reliable();
    let mut pool = PoolNoodle::new(config(false, 2, 0, spec));
    pool.run().expect("failed to start");
    drain_work(&mut pool, 4);
    assert_eq!(pool.ready_len(), 2);
    assert!(matches!(
        pool.get(),
        Err(PoolNoodleError::ExecutionPoolStarved)
    ));
    // nothing was taken from the pool
    assert_eq!(pool.ready_len(), 2);
}

#[test]
fn health_check_passes_on_reliable_backend() {
    let spec = DummyInstanceSpec::reliable();
    let mut pool = PoolNoodle::new(config(true, 2, 3, spec));
    pool.run().expect("failed to start");
}

#[test]
fn health_check_fails_fast_on_unhealthy_backend() {
    let mut spec = DummyInstanceSpec::reliable();
    spec.spawn_unhealthy = true;
    let mut pool = PoolNoodle::new(config(true, 2, 3, spec));
    assert!(matches!(pool.run(), Err(PoolNoodleError::Unhealthy(_))));
}

#[test]
fn health_check_reports_the_failing_step() {
    let mut spec = DummyInstanceSpec::reliable();
    spec.fail_prepare = true;
    let mut pool = PoolNoodle::new(config(true, 2, 3, spec));
    assert!(matches!(pool.run(), Err(PoolNoodleError::InstancePrepare(_))));

    let mut spec = DummyInstanceSpec::reliable();
    spec.fail_spawn = true;
    let mut pool = PoolNoodle::new(config(true, 2, 3, spec));
    assert!(matches!(pool.run(), Err(PoolNoodleError::InstanceSpawn(_))));

    let mut spec = DummyInstanceSpec::reliable();
    spec.fail_clean = true;
    let mut pool = PoolNoodle::new(config(true, 2, 3, spec));
    assert!(matches!(pool.run(), Err(PoolNoodleError::InstanceClean(_))));

    let mut spec = DummyInstanceSpec::reliable();
    spec.fail_terminate = true;
    let mut pool = PoolNoodle::new(config(true, 2, 3, spec));
    assert!(matches!(
        pool.run(),
        Err(PoolNoodleError::InstanceTerminate(_))
    ));
}

#[test]
fn setup_failure_is_fatal() {
    let mut spec = DummyInstanceSpec::reliable();
    spec.fail_setup = true;
    let mut pool = PoolNoodle::new(config(false, 2, 3, spec));
    assert!(matches!(pool.setup(), Err(PoolNoodleError::InstanceSetup(_))));

    let mut pool = PoolNoodle::new(config(false, 2, 3, DummyInstanceSpec::reliable()));
    pool.setup().expect("setup should succeed");
}

#[test]
fn shutdown_stops_task_pickup() {
    let spec = DummyInstanceSpec::reliable();
    let mut pool = PoolNoodle::new(config(false, 2, 3, spec));
    pool.run().expect("failed to start");
    pool.shutdown();
    assert!(!pool.worker_step());
    // the seeded work is still queued, nothing was processed
    assert_eq!(pool.work_len(), 2);
    assert_eq!(pool.ready_len(), 0);
}

#[test]
fn error_messages_name_each_failure() {
    let starved: PoolNoodleError<()> = PoolNoodleError::ExecutionPoolStarved;
    assert_eq!(starved.message(), "execution pool is starved");
    let unhealthy: PoolNoodleError<()> = PoolNoodleError::Unhealthy(());
    assert_eq!(unhealthy.message(), "instance is unhealthy");
    let clean: PoolNoodleError<()> = PoolNoodleError::InstanceClean(());
    assert_eq!(clean.message(), "failed to clean instance");
    let prepare: PoolNoodleError<()> = PoolNoodleError::InstancePrepare(());
    assert_eq!(prepare.message(), "failed to prepare instance");
    let spawn: PoolNoodleError<()> = PoolNoodleError::InstanceSpawn(());
    assert_eq!(spawn.message(), "failed to spawn instance");
    let terminate: PoolNoodleError<()> = PoolNoodleError::InstanceTerminate(());
    assert_eq!(terminate.message(), "failed to terminate instance");
    let setup: PoolNoodleError<()> = PoolNoodleError::InstanceSetup(());
    assert_eq!(setup.message(), "failed to setup instance");
}

#[test]
fn tasks_name_their_slot_id() {
    let clean: PoolNoodleTask<DummyInstance> = PoolNoodleTask::Clean(5);
    assert_eq!(clean.id(), 5);
    let prepare: PoolNoodleTask<DummyInstance> = PoolNoodleTask::Prepare(6);
    assert_eq!(prepare.id(), 6);
    let dispose: PoolNoodleTask<DummyInstance> = PoolNoodleTask::Drop(DummyInstance {
        id: 7,
        healthy: true,
        reliable: true,
    });
    assert_eq!(dispose.id(), 7);
}

#[test]
fn dummy_builder_builds_its_flags() {
    let mut flags = DummyInstanceSpec::reliable();
    flags.spawn_unhealthy = true;
    let builder = DummyInstanceBuilder { flags };
    let spec = builder.build().expect("dummy build never fails");
    assert!(spec.spawn_unhealthy);
    assert!(!spec.fail_clean);
}

#[test]
fn default_config_values() {
    let c = PoolNoodleConfig::with_defaults(DummyInstanceSpec::reliable(), 4);
    assert!(!c.check_health);
    assert_eq!(c.max_concurrency, 4);
    assert_eq!(c.pool_size, 100);
    assert_eq!(c.retry_limit, 6000);
}
