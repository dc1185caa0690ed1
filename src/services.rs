//! The four duty services and their builders. Each builder collects the service's
//! dependencies and checks at `build` that none is missing.
use vstd::prelude::*;
use std::sync::Arc;

use crate::time_source::TimeSource;
use crate::validator_store::ValidatorStore;

verus! {

/// The message of a build that lacks a dependency.
pub open spec fn build_error(service: Seq<char>, dependency: Seq<char>) -> Seq<char> {
    "Cannot build "@ + service + " without "@ + dependency
}

fn missing_dependency(service: &str, dependency: &str) -> (r: String)
    ensures
        r@ == build_error(service@, dependency@),
{
    let mut msg = String::from_str("Cannot build ");
    msg.append(service);
    msg.append(" without ");
    msg.append(dependency);
    proof {
        reveal_strlit("Cannot build ");
        reveal_strlit(" without ");
    }
    msg
}

/// Tracks which validators have duties in which slots.
pub struct DutiesService<N> {
    pub slot_clock: TimeSource,
    pub validator_store: Arc<ValidatorStore>,
    pub beacon_node: N,
}

/// Tracks the fork of the chain, which signing needs.
pub struct ForkService<N> {
    pub slot_clock: TimeSource,
    pub beacon_node: N,
}

/// Produces blocks for the validators with a proposal duty.
pub struct BlockService<N> {
    pub duties_service: Arc<DutiesService<N>>,
    pub fork_service: Arc<ForkService<N>>,
    pub slot_clock: TimeSource,
    pub validator_store: Arc<ValidatorStore>,
    pub beacon_node: N,
}

/// Produces attestations for the validators with an attestation duty.
pub struct AttestationService<N> {
    pub duties_service: Arc<DutiesService<N>>,
    pub fork_service: Arc<ForkService<N>>,
    pub slot_clock: TimeSource,
    pub validator_store: Arc<ValidatorStore>,
    pub beacon_node: N,
}

/// Collects the dependencies of the duties service.
pub struct DutiesServiceBuilder<N> {
    pub slot_clock: Option<TimeSource>,
    pub validator_store: Option<Arc<ValidatorStore>>,
    pub beacon_node: Option<N>,
}

/// Collects the dependencies of the fork service.
pub struct ForkServiceBuilder<N> {
    pub slot_clock: Option<TimeSource>,
    pub beacon_node: Option<N>,
}

/// Collects the dependencies of the block service.
pub struct BlockServiceBuilder<N> {
    pub duties_service: Option<Arc<DutiesService<N>>>,
    pub fork_service: Option<Arc<ForkService<N>>>,
    pub slot_clock: Option<TimeSource>,
    pub validator_store: Option<Arc<ValidatorStore>>,
    pub beacon_node: Option<N>,
}

/// Collects the dependencies of the attestation service.
pub struct AttestationServiceBuilder<N> {
    pub duties_service: Option<Arc<DutiesService<N>>>,
    pub fork_service: Option<Arc<ForkService<N>>>,
    pub slot_clock: Option<TimeSource>,
    pub validator_store: Option<Arc<ValidatorStore>>,
    pub beacon_node: Option<N>,
}

impl<N> DutiesServiceBuilder<N> {
    pub open spec fn complete(&self) -> bool {
        &&& self.slot_clock is Some
        &&& self.validator_store is Some
        &&& self.beacon_node is Some
    }

    /// The dependency that `build` reports missing, the first unset one in field order.
    pub open spec fn first_missing(&self) -> Seq<char> {
        if self.slot_clock is None {
            "slot_clock"@
        } else if self.validator_store is None {
            "validator_store"@
        } else {
            "beacon_node"@
        }
    }

    pub fn new() -> (r: Self)
        ensures
            r.slot_clock is None,
            r.validator_store is None,
            r.beacon_node is None,
    {
        DutiesServiceBuilder { slot_clock: None, validator_store: None, beacon_node: None }
    }

    pub fn slot_clock(self, slot_clock: TimeSource) -> (r: Self)
        ensures
            r.slot_clock == Some(slot_clock),
            r.validator_store == self.validator_store,
            r.beacon_node == self.beacon_node,
    {
        DutiesServiceBuilder { slot_clock: Some(slot_clock), ..self }
    }

    pub fn validator_store(self, validator_store: Arc<ValidatorStore>) -> (r: Self)
        ensures
            r.slot_clock == self.slot_clock,
            r.validator_store == Some(validator_store),
            r.beacon_node == self.beacon_node,
    {
        DutiesServiceBuilder { validator_store: Some(validator_store), ..self }
    }

    pub fn beacon_node(self, beacon_node: N) -> (r: Self)
        ensures
            r.slot_clock == self.slot_clock,
            r.validator_store == self.validator_store,
            r.beacon_node == Some(beacon_node),
    {
        DutiesServiceBuilder { beacon_node: Some(beacon_node), ..self }
    }

    /// Builds the service from the dependencies set; fails, naming the first missing
    /// one, unless every dependency is set.
    pub fn build(self) -> (r: Result<DutiesService<N>, String>)
        ensures
            r is Ok <==> self.complete(),
            r matches Ok(s) ==> {
                &&& Some(s.slot_clock) == self.slot_clock
                &&& Some(s.validator_store) == self.validator_store
                &&& Some(s.beacon_node) == self.beacon_node
            },
            r matches Err(e) ==> e@ == build_error("DutiesService"@, self.first_missing()),
    {
        proof {
            reveal_strlit("slot_clock");
            reveal_strlit("validator_store");
            reveal_strlit("beacon_node");
        }
        match (self.slot_clock, self.validator_store, self.beacon_node) {
            (Some(slot_clock), Some(validator_store), Some(beacon_node)) => Ok(
                DutiesService { slot_clock, validator_store, beacon_node },
            ),
            (None, _, _) => Err(missing_dependency("DutiesService", "slot_clock")),
            (_, None, _) => Err(missing_dependency("DutiesService", "validator_store")),
            (_, _, None) => Err(missing_dependency("DutiesService", "beacon_node")),
        }
    }
}

impl<N> ForkServiceBuilder<N> {
    pub open spec fn complete(&self) -> bool {
        &&& self.slot_clock is Some
        &&& self.beacon_node is Some
    }

    /// The dependency that `build` reports missing, the first unset one in field order.
    pub open spec fn first_missing(&self) -> Seq<char> {
        if self.slot_clock is None {
            "slot_clock"@
        } else {
            "beacon_node"@
        }
    }

    pub fn new() -> (r: Self)
        ensures
            r.slot_clock is None,
            r.beacon_node is None,
    {
        ForkServiceBuilder { slot_clock: None, beacon_node: None }
    }

    pub fn slot_clock(self, slot_clock: TimeSource) -> (r: Self)
        ensures
            r.slot_clock == Some(slot_clock),
            r.beacon_node == self.beacon_node,
    {
        ForkServiceBuilder { slot_clock: Some(slot_clock), ..self }
    }

    pub fn beacon_node(self, beacon_node: N) -> (r: Self)
        ensures
            r.slot_clock == self.slot_clock,
            r.beacon_node == Some(beacon_node),
    {
        ForkServiceBuilder { beacon_node: Some(beacon_node), ..self }
    }

    /// Builds the service from the dependencies set; fails, naming the first missing
    /// one, unless every dependency is set.
    pub fn build(self) -> (r: Result<ForkService<N>, String>)
        ensures
            r is Ok <==> self.complete(),
            r matches Ok(s) ==> {
                &&& Some(s.slot_clock) == self.slot_clock
                &&& Some(s.beacon_node) == self.beacon_node
            },
            r matches Err(e) ==> e@ == build_error("ForkService"@, self.first_missing()),
    {
        proof {
            reveal_strlit("slot_clock");
            reveal_strlit("beacon_node");
        }
        match (self.slot_clock, self.beacon_node) {
            (Some(slot_clock), Some(beacon_node)) => Ok(
                ForkService { slot_clock, beacon_node },
            ),
            (None, _) => Err(missing_dependency("ForkService", "slot_clock")),
            (_, None) => Err(missing_dependency("ForkService", "beacon_node")),
        }
    }
}

impl<N> BlockServiceBuilder<N> {
    pub open spec fn complete(&self) -> bool {
        &&& self.duties_service is Some
        &&& self.fork_service is Some
        &&& self.slot_clock is Some
        &&& self.validator_store is Some
        &&& self.beacon_node is Some
    }

    /// The dependency that `build` reports missing, the first unset one in field order.
    pub open spec fn first_missing(&self) -> Seq<char> {
        if self.duties_service is None {
            "duties_service"@
        } else if self.fork_service is None {
            "fork_service"@
        } else if self.slot_clock is None {
            "slot_clock"@
        } else if self.validator_store is None {
            "validator_store"@
        } else {
            "beacon_node"@
        }
    }

    pub fn new() -> (r: Self)
        ensures
            r.duties_service is None,
            r.fork_service is None,
            r.slot_clock is None,
            r.validator_store is None,
            r.beacon_node is None,
    {
        BlockServiceBuilder { duties_service: None, fork_service: None, slot_clock: None, validator_store: None, beacon_node: None }
    }

    pub fn duties_service(self, duties_service: Arc<DutiesService<N>>) -> (r: Self)
        ensures
            r.duties_service == Some(duties_service),
            r.fork_service == self.fork_service,
            r.slot_clock == self.slot_clock,
            r.validator_store == self.validator_store,
            r.beacon_node == self.beacon_node,
    {
        BlockServiceBuilder { duties_service: Some(duties_service), ..self }
    }

    pub fn fork_service(self, fork_service: Arc<ForkService<N>>) -> (r: Self)
        ensures
            r.duties_service == self.duties_service,
            r.fork_service == Some(fork_service),
            r.slot_clock == self.slot_clock,
            r.validator_store == self.validator_store,
            r.beacon_node == self.beacon_node,
    {
        BlockServiceBuilder { fork_service: Some(fork_service), ..self }
    }

    pub fn slot_clock(self, slot_clock: TimeSource) -> (r: Self)
        ensures
            r.duties_service == self.duties_service,
            r.fork_service == self.fork_service,
            r.slot_clock == Some(slot_clock),
            r.validator_store == self.validator_store,
            r.beacon_node == self.beacon_node,
    {
        BlockServiceBuilder { slot_clock: Some(slot_clock), ..self }
    }

    pub fn validator_store(self, validator_store: Arc<ValidatorStore>) -> (r: Self)
        ensures
            r.duties_service == self.duties_service,
            r.fork_service == self.fork_service,
            r.slot_clock == self.slot_clock,
            r.validator_store == Some(validator_store),
            r.beacon_node == self.beacon_node,
    {
        BlockServiceBuilder { validator_store: Some(validator_store), ..self }
    }

    pub fn beacon_node(self, beacon_node: N) -> (r: Self)
        ensures
            r.duties_service == self.duties_service,
            r.fork_service == self.fork_service,
            r.slot_clock == self.slot_clock,
            r.validator_store == self.validator_store,
            r.beacon_node == Some(beacon_node),
    {
        BlockServiceBuilder { beacon_node: Some(beacon_node), ..self }
    }

    /// Builds the service from the dependencies set; fails, naming the first missing
    /// one, unless every dependency is set.
    pub fn build(self) -> (r: Result<BlockService<N>, String>)
        ensures
            r is Ok <==> self.complete(),
            r matches Ok(s) ==> {
                &&& Some(s.duties_service) == self.duties_service
                &&& Some(s.fork_service) == self.fork_service
                &&& Some(s.slot_clock) == self.slot_clock
                &&& Some(s.validator_store) == self.validator_store
                &&& Some(s.beacon_node) == self.beacon_node
            },
            r matches Err(e) ==> e@ == build_error("BlockService"@, self.first_missing()),
    {
        proof {
            reveal_strlit("duties_service");
            reveal_strlit("fork_service");
            reveal_strlit("slot_clock");
            reveal_strlit("validator_store");
            reveal_strlit("beacon_node");
        }
        match (self.duties_service, self.fork_service, self.slot_clock, self.validator_store, self.beacon_node) {
            (Some(duties_service), Some(fork_service), Some(slot_clock), Some(validator_store), Some(beacon_node)) => Ok(
                BlockService { duties_service, fork_service, slot_clock, validator_store, beacon_node },
            ),
            (None, _, _, _, _) => Err(missing_dependency("BlockService", "duties_service")),
            (_, None, _, _, _) => Err(missing_dependency("BlockService", "fork_service")),
            (_, _, None, _, _) => Err(missing_dependency("BlockService", "slot_clock")),
            (_, _, _, None, _) => Err(missing_dependency("BlockService", "validator_store")),
            (_, _, _, _, None) => Err(missing_dependency("BlockService", "beacon_node")),
        }
    }
}

impl<N> AttestationServiceBuilder<N> {
    pub open spec fn complete(&self) -> bool {
        &&& self.duties_service is Some
        &&& self.fork_service is Some
        &&& self.slot_clock is Some
        &&& self.validator_store is Some
        &&& self.beacon_node is Some
    }

    /// The dependency that `build` reports missing, the first unset one in field order.
    pub open spec fn first_missing(&self) -> Seq<char> {
        if self.duties_service is None {
            "duties_service"@
        } else if self.fork_service is None {
            "fork_service"@
        } else if self.slot_clock is None {
            "slot_clock"@
        } else if self.validator_store is None {
            "validator_store"@
        } else {
            "beacon_node"@
        }
    }

    pub fn new() -> (r: Self)
        ensures
            r.duties_service is None,
            r.fork_service is None,
            r.slot_clock is None,
            r.validator_store is None,
            r.beacon_node is None,
    {
        AttestationServiceBuilder { duties_service: None, fork_service: None, slot_clock: None, validator_store: None, beacon_node: None }
    }

    pub fn duties_service(self, duties_service: Arc<DutiesService<N>>) -> (r: Self)
        ensures
            r.duties_service == Some(duties_service),
            r.fork_service == self.fork_service,
            r.slot_clock == self.slot_clock,
            r.validator_store == self.validator_store,
            r.beacon_node == self.beacon_node,
    {
        AttestationServiceBuilder { duties_service: Some(duties_service), ..self }
    }

    pub fn fork_service(self, fork_service: Arc<ForkService<N>>) -> (r: Self)
        ensures
            r.duties_service == self.duties_service,
            r.fork_service == Some(fork_service),
            r.slot_clock == self.slot_clock,
            r.validator_store == self.validator_store,
            r.beacon_node == self.beacon_node,
    {
        AttestationServiceBuilder { fork_service: Some(fork_service), ..self }
    }

    pub fn slot_clock(self, slot_clock: TimeSource) -> (r: Self)
        ensures
            r.duties_service == self.duties_service,
            r.fork_service == self.fork_service,
            r.slot_clock == Some(slot_clock),
            r.validator_store == self.validator_store,
            r.beacon_node == self.beacon_node,
    {
        AttestationServiceBuilder { slot_clock: Some(slot_clock), ..self }
    }

    pub fn validator_store(self, validator_store: Arc<ValidatorStore>) -> (r: Self)
        ensures
            r.duties_service == self.duties_service,
            r.fork_service == self.fork_service,
            r.slot_clock == self.slot_clock,
            r.validator_store == Some(validator_store),
            r.beacon_node == self.beacon_node,
    {
        AttestationServiceBuilder { validator_store: Some(validator_store), ..self }
    }

    pub fn beacon_node(self, beacon_node: N) -> (r: Self)
        ensures
            r.duties_service == self.duties_service,
            r.fork_service == self.fork_service,
            r.slot_clock == self.slot_clock,
            r.validator_store == self.validator_store,
            r.beacon_node == Some(beacon_node),
    {
        AttestationServiceBuilder { beacon_node: Some(beacon_node), ..self }
    }

    /// Builds the service from the dependencies set; fails, naming the first missing
    /// one, unless every dependency is set.
    pub fn build(self) -> (r: Result<AttestationService<N>, String>)
        ensures
            r is Ok <==> self.complete(),
            r matches Ok(s) ==> {
                &&& Some(s.duties_service) == self.duties_service
                &&& Some(s.fork_service) == self.fork_service
                &&& Some(s.slot_clock) == self.slot_clock
                &&& Some(s.validator_store) == self.validator_store
                &&& Some(s.beacon_node) == self.beacon_node
            },
            r matches Err(e) ==> e@ == build_error("AttestationService"@, self.first_missing()),
    {
        proof {
            reveal_strlit("duties_service");
            reveal_strlit("fork_service");
            reveal_strlit("slot_clock");
            reveal_strlit("validator_store");
            reveal_strlit("beacon_node");
        }
        match (self.duties_service, self.fork_service, self.slot_clock, self.validator_store, self.beacon_node) {
            (Some(duties_service), Some(fork_service), Some(slot_clock), Some(validator_store), Some(beacon_node)) => Ok(
                AttestationService { duties_service, fork_service, slot_clock, validator_store, beacon_node },
            ),
            (None, _, _, _, _) => Err(missing_dependency("AttestationService", "duties_service")),
            (_, None, _, _, _) => Err(missing_dependency("AttestationService", "fork_service")),
            (_, _, None, _, _) => Err(missing_dependency("AttestationService", "slot_clock")),
            (_, _, _, None, _) => Err(missing_dependency("AttestationService", "validator_store")),
            (_, _, _, _, None) => Err(missing_dependency("AttestationService", "beacon_node")),
        }
    }
}
} // verus!
