//! A verified sandbox-pool manager.
//!
//! The pool keeps a fixed number of numbered execution slots cycling through
//! clean -> prepare -> spawn -> checkout -> drop, driven by a bounded work
//! queue and a bounded ready queue.  The decision logic is verified; backends
//! that touch the outside world implement the [`instance::Spec`] and
//! [`instance::Instance`] traits and are driven through it.
//!
//! - [`pool`] holds the controller: seeding, worker steps, checkout with a
//!   retry budget, release, and startup health verification.
//! - [`model`] is the mathematical state every contract is written against,
//!   with its invariant: each slot id lives in at most one place.
//! - [`laws`] proves the pool-wide guarantees over that model.
//! - [`local_uds`] holds the decision logic of the local
//!   Unix-domain-socket backend: configuration, health bookkeeping, the
//!   watch-session state machine, and the exact command lines of the
//!   process, container and micro-VM runtimes.
//! - [`dummy`] is an in-memory backend with scripted outcomes, for tests.

pub mod dummy;
pub mod errors;
pub mod instance;
pub mod laws;
pub mod lifeguard;
pub mod local_uds;
pub mod model;
pub mod pool;
pub mod queue;
pub mod task;

pub use crate::errors::PoolNoodleError;
pub use crate::instance::Instance;
pub use crate::instance::Spec;
pub use crate::instance::SpecBuilder;
pub use crate::lifeguard::LifeGuard;
pub use crate::pool::CheckoutAttempt;
pub use crate::pool::PoolNoodle;
pub use crate::pool::PoolNoodleConfig;
pub use crate::task::PoolNoodleTask;
