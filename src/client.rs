//! Assembly of a validator client once its beacon node has answered: compatibility
//! check, time source, validator store, and the wiring of the four duty services.
use vstd::prelude::*;
use std::sync::Arc;

use crate::constants::{compatible, incompatible_spec_message, validate_compatibility, ProtocolConstants};
use crate::services::{
    AttestationService, AttestationServiceBuilder, BlockService, BlockServiceBuilder, DutiesService,
    DutiesServiceBuilder, ForkService, ForkServiceBuilder,
};
use crate::time_source::TimeSource;
use crate::validator_store::{
    first_failure, insecure_identities, persisted_identities, KeyMaterial, ValidatorIdentity,
    ValidatorStore,
};

verus! {

/// The message of a beacon node whose constants define no slots.
pub open spec fn zero_slot_duration_message() -> Seq<char> {
    "Beacon node reported a slot duration of zero"@
}

/// The identities that `keys` yield, when they load.
pub open spec fn loaded_identities(keys: KeyMaterial) -> Seq<ValidatorIdentity> {
    match keys {
        KeyMaterial::Disk(entries) => persisted_identities(entries@),
        KeyMaterial::TestingKeypairRange(start, end) => insecure_identities(start, end),
    }
}

/// The error that loading `keys` gives, if any.
pub open spec fn load_error(keys: KeyMaterial) -> Option<String> {
    match keys {
        KeyMaterial::Disk(entries) => match first_failure(entries@) {
            Some(k) => Some(entries@[k]->Err_0),
            None => None,
        },
        KeyMaterial::TestingKeypairRange(_, _) => None,
    }
}

/// Builds the validator store in the mode that `keys` selects.
pub fn load_validator_store(keys: KeyMaterial, constants: ProtocolConstants) -> (r: Result<
    ValidatorStore,
    String,
>)
    ensures
        r is Ok <==> load_error(keys) is None,
        r matches Ok(s) ==> s@ == loaded_identities(keys) && s.constants == constants,
        r matches Err(e) ==> load_error(keys) == Some(e),
{
    match keys {
        KeyMaterial::Disk(entries) => ValidatorStore::load_from_disk(entries, constants),
        KeyMaterial::TestingKeypairRange(start, end) => Ok(
            ValidatorStore::insecure_ephemeral_validators(start, end, constants),
        ),
    }
}

/// A store holds one identity per persisted key, or one per index of the requested range.
pub proof fn lemma_identity_count(keys: KeyMaterial)
    ensures
        loaded_identities(keys).len() == match keys {
            KeyMaterial::Disk(entries) => entries@.len(),
            KeyMaterial::TestingKeypairRange(start, end) => if start < end { (end - start) as nat } else { 0 },
        },
{
}

/// A validator client whose services are built but not started.
pub struct ProductionValidatorClient<N> {
    /// The constants adopted from the beacon node.
    pub constants: ProtocolConstants,
    pub time_source: TimeSource,
    pub validator_store: Arc<ValidatorStore>,
    pub duties_service: Arc<DutiesService<N>>,
    pub fork_service: Arc<ForkService<N>>,
    pub block_service: BlockService<N>,
    pub attestation_service: AttestationService<N>,
}

impl<N: Clone> ProductionValidatorClient<N> {
    /// Every service holds the one time source, the one validator store and a clone of
    /// `node`; block and attestation production hold the built duties and fork services.
    pub open spec fn wired(&self, node: N) -> bool {
        &&& self.duties_service.slot_clock == self.time_source
        &&& *self.duties_service.validator_store == *self.validator_store
        &&& cloned(node, self.duties_service.beacon_node)
        &&& self.fork_service.slot_clock == self.time_source
        &&& cloned(node, self.fork_service.beacon_node)
        &&& *self.block_service.duties_service == *self.duties_service
        &&& *self.block_service.fork_service == *self.fork_service
        &&& self.block_service.slot_clock == self.time_source
        &&& *self.block_service.validator_store == *self.validator_store
        &&& cloned(node, self.block_service.beacon_node)
        &&& *self.attestation_service.duties_service == *self.duties_service
        &&& *self.attestation_service.fork_service == *self.fork_service
        &&& self.attestation_service.slot_clock == self.time_source
        &&& *self.attestation_service.validator_store == *self.validator_store
        &&& cloned(node, self.attestation_service.beacon_node)
    }

    /// Assembles the client from what the beacon node reported: its constants `remote`
    /// and its genesis time. Fails, before any service is built, when the remote
    /// constants are for another network, when they define no slots, or when the
    /// validator store does not load. On success the remote constants are adopted whole.
    pub fn new(
        local: &ProtocolConstants,
        remote: ProtocolConstants,
        genesis_time: u64,
        keys: KeyMaterial,
        beacon_node: N,
    ) -> (r: Result<Self, String>)
        ensures
            r is Ok <==> {
                &&& compatible(*local, remote)
                &&& remote.milliseconds_per_slot > 0
                &&& load_error(keys) is None
            },
            r matches Err(e) ==> if !compatible(*local, remote) {
                e@ == incompatible_spec_message(remote.spec_constants@, local.spec_constants@)
            } else if remote.milliseconds_per_slot == 0 {
                e@ == zero_slot_duration_message()
            } else {
                load_error(keys) == Some(e)
            },
            r matches Ok(c) ==> {
                &&& c.constants@ == remote@
                &&& c.time_source.wf()
                &&& c.time_source.genesis_slot == remote.genesis_slot
                &&& c.time_source.genesis_time == genesis_time
                &&& c.time_source.slot_duration_ms == remote.milliseconds_per_slot
                &&& c.validator_store@ == loaded_identities(keys)
                &&& c.validator_store.constants@ == remote@
                &&& c.wired(beacon_node)
            },
    {
        let constants = validate_compatibility(local, remote)?;
        let time_source = match TimeSource::from_constants(&constants, genesis_time) {
            Some(t) => t,
            None => {
                proof {
                    reveal_strlit("Beacon node reported a slot duration of zero");
                }
                return Err(String::from_str("Beacon node reported a slot duration of zero"));
            },
        };
        let validator_store = Arc::new(load_validator_store(keys, constants.duplicate())?);

        let duties_service = DutiesServiceBuilder::new()
            .slot_clock(time_source)
            .validator_store(validator_store.clone())
            .beacon_node(beacon_node.clone())
            .build()?;
        let duties_service = Arc::new(duties_service);

        let fork_service = ForkServiceBuilder::new()
            .slot_clock(time_source)
            .beacon_node(beacon_node.clone())
            .build()?;
        let fork_service = Arc::new(fork_service);

        let block_service = BlockServiceBuilder::new()
            .duties_service(duties_service.clone())
            .fork_service(fork_service.clone())
            .slot_clock(time_source)
            .validator_store(validator_store.clone())
            .beacon_node(beacon_node.clone())
            .build()?;

        let attestation_service = AttestationServiceBuilder::new()
            .duties_service(duties_service.clone())
            .fork_service(fork_service.clone())
            .slot_clock(time_source)
            .validator_store(validator_store.clone())
            .beacon_node(beacon_node)
            .build()?;

        Ok(ProductionValidatorClient {
            constants,
            time_source,
            validator_store,
            duties_service,
            fork_service,
            block_service,
            attestation_service,
        })
    }
}

} // verus!
