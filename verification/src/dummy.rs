//! An in-memory backend with scripted outcomes.
//!
//! It performs no real work: each lifecycle operation succeeds or fails as
//! the spec's flags dictate.  Tests and examples drive the pool with it.

use vstd::prelude::*;

use crate::instance::{Instance, Spec, SpecBuilder};

verus! {

/// Error reported by the dummy backend.
#[derive(Debug)]
pub struct DummyInstanceError {}

/// A live dummy instance: a slot id and scripted health/termination
/// behaviour.
pub struct DummyInstance {
    /// The slot id the instance occupies.
    pub id: u32,
    /// Whether health checks pass.
    pub healthy: bool,
    /// Whether termination succeeds.
    pub reliable: bool,
}

impl Instance for DummyInstance {
    type Error = DummyInstanceError;

    open spec fn spec_id(&self) -> u32 {
        self.id
    }

    open spec fn is_healthy(&self) -> bool {
        self.healthy
    }

    open spec fn is_reliable(&self) -> bool {
        self.reliable
    }

    fn id(&self) -> (r: u32) {
        self.id
    }

    fn ensure_healthy(&mut self) -> (r: Result<(), DummyInstanceError>) {
        if self.healthy {
            Ok(())
        } else {
            Err(DummyInstanceError {})
        }
    }

    fn terminate(&mut self) -> (r: Result<(), DummyInstanceError>) {
        if self.reliable {
            Ok(())
        } else {
            Err(DummyInstanceError {})
        }
    }
}

/// Backend spec whose operations succeed or fail as scripted.  All flags
/// `false` gives the always-succeeding backend.
#[derive(Clone, Copy)]
pub struct DummyInstanceSpec {
    /// Make every `clean` fail.
    pub fail_clean: bool,
    /// Make `clean` fail for this one slot id.
    pub fail_clean_for: Option<u32>,
    /// Make every `prepare` fail.
    pub fail_prepare: bool,
    /// Make every `spawn` fail.
    pub fail_spawn: bool,
    /// Make `setup` fail.
    pub fail_setup: bool,
    /// Spawn instances that fail their health check.
    pub spawn_unhealthy: bool,
    /// Spawn instances whose termination fails.
    pub fail_terminate: bool,
}

impl DummyInstanceSpec {
    /// The always-succeeding backend.
    pub fn reliable() -> (s: Self)
        ensures
            s == (DummyInstanceSpec {
                fail_clean: false,
                fail_clean_for: None,
                fail_prepare: false,
                fail_spawn: false,
                fail_setup: false,
                spawn_unhealthy: false,
                fail_terminate: false,
            }),
    {
        DummyInstanceSpec {
            fail_clean: false,
            fail_clean_for: None,
            fail_prepare: false,
            fail_spawn: false,
            fail_setup: false,
            spawn_unhealthy: false,
            fail_terminate: false,
        }
    }
}

impl Spec for DummyInstanceSpec {
    type Instance = DummyInstance;

    type Error = DummyInstanceError;

    open spec fn is_reliable(&self) -> bool {
        &&& !self.fail_clean
        &&& self.fail_clean_for is None
        &&& !self.fail_prepare
        &&& !self.fail_spawn
        &&& !self.fail_setup
    }

    open spec fn spawns_healthy(&self) -> bool {
        !self.spawn_unhealthy && !self.fail_terminate
    }

    open spec fn can_spawn(&self, instance: DummyInstance, id: u32) -> bool {
        instance == (DummyInstance {
            id,
            healthy: !self.spawn_unhealthy,
            reliable: !self.fail_terminate,
        })
    }

    fn clean(&self, id: u32) -> (r: Result<(), DummyInstanceError>)
        ensures
            r is Ok <==> (!self.fail_clean && self.fail_clean_for != Some(id)),
    {
        if self.fail_clean {
            return Err(DummyInstanceError {});
        }
        match self.fail_clean_for {
            Some(bad) => {
                if bad == id {
                    return Err(DummyInstanceError {});
                }
            },
            None => {},
        }
        Ok(())
    }

    fn prepare(&self, id: u32) -> (r: Result<(), DummyInstanceError>)
        ensures
            r is Ok <==> !self.fail_prepare,
    {
        if self.fail_prepare {
            Err(DummyInstanceError {})
        } else {
            Ok(())
        }
    }

    fn setup(&mut self) -> (r: Result<(), DummyInstanceError>)
        ensures
            r is Ok <==> !old(self).fail_setup,
            *final(self) == *old(self),
    {
        if self.fail_setup {
            Err(DummyInstanceError {})
        } else {
            Ok(())
        }
    }

    fn spawn(&self, id: u32) -> (r: Result<DummyInstance, DummyInstanceError>)
        ensures
            r is Ok <==> !self.fail_spawn,
    {
        if self.fail_spawn {
            Err(DummyInstanceError {})
        } else {
            Ok(DummyInstance { id, healthy: !self.spawn_unhealthy, reliable: !self.fail_terminate })
        }
    }
}

/// Builder for the dummy backend spec.
pub struct DummyInstanceBuilder {
    /// The flags the built spec will carry.
    pub flags: DummyInstanceSpec,
}

impl SpecBuilder for DummyInstanceBuilder {
    type Spec = DummyInstanceSpec;

    type Error = DummyInstanceError;

    fn build(&self) -> Result<DummyInstanceSpec, DummyInstanceError> {
        Ok(self.flags)
    }
}

} // verus!
