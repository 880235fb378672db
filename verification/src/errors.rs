//! Error taxonomy of the pool.
//!
//! Backend lifecycle failures (clean/prepare/spawn/terminate) are absorbed at
//! the task-transition boundary and turned into retries; the only failure the
//! pool itself surfaces to a caller of `get` is `ExecutionPoolStarved`.

use vstd::prelude::*;

verus! {

#[derive(Debug)]
/// Failures the pool can report, wrapping the backend error `E` where one
/// backend operation failed.
pub enum PoolNoodleError<E> {
    /// No instance became available within the retry budget.
    ExecutionPoolStarved,
    /// Backend `clean` failed.
    InstanceClean(E),
    /// Backend `prepare` failed.
    InstancePrepare(E),
    /// Backend `spawn` failed.
    InstanceSpawn(E),
    /// Instance `terminate` failed.
    InstanceTerminate(E),
    /// One-time backend `setup` failed.
    InstanceSetup(E),
    /// A spawned instance failed its health check.
    Unhealthy(E),
}

impl<E> PoolNoodleError<E> {
    /// A short description of the error, one per variant.
    pub fn message(&self) -> (r: &'static str)
        ensures
            (*self is ExecutionPoolStarved) ==> r@ == "execution pool is starved"@,
            (*self is InstanceClean) ==> r@ == "failed to clean instance"@,
            (*self is InstancePrepare) ==> r@ == "failed to prepare instance"@,
            (*self is InstanceSpawn) ==> r@ == "failed to spawn instance"@,
            (*self is InstanceTerminate) ==> r@ == "failed to terminate instance"@,
            (*self is InstanceSetup) ==> r@ == "failed to setup instance"@,
            (*self is Unhealthy) ==> r@ == "instance is unhealthy"@,
    {
        match self {
            PoolNoodleError::ExecutionPoolStarved => "execution pool is starved",
            PoolNoodleError::InstanceClean(_) => "failed to clean instance",
            PoolNoodleError::InstancePrepare(_) => "failed to prepare instance",
            PoolNoodleError::InstanceSpawn(_) => "failed to spawn instance",
            PoolNoodleError::InstanceTerminate(_) => "failed to terminate instance",
            PoolNoodleError::InstanceSetup(_) => "failed to setup instance",
            PoolNoodleError::Unhealthy(_) => "instance is unhealthy",
        }
    }
}

} // verus!
