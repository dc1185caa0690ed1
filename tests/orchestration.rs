use std::sync::Arc;

use validator_client::client::{load_validator_store, ProductionValidatorClient};
use validator_client::connection::{ConnectStep, NodeConnector, RETRY_DELAY_MS};
use validator_client::constants::{validate_compatibility, ProtocolConstants};
use validator_client::lifecycle::{ExitRegistry, LaunchAction, ServiceKind, ServiceLauncher};
use validator_client::services::{
    AttestationServiceBuilder, BlockServiceBuilder, DutiesServiceBuilder, ForkServiceBuilder,
};
use validator_client::time_source::TimeSource;
use validator_client::validator_store::{KeyMaterial, ValidatorIdentity, ValidatorStore};

#[derive(Clone, Debug, PartialEq)]
struct MockNode {
    id: u32,
}

fn constants(name: &str) -> ProtocolConstants {
    ProtocolConstants::new(name.to_string(), 0, 12000)
}

fn clock() -> TimeSource {
    TimeSource::new(0, 1600000000, 12000).unwrap()
}

fn store() -> Arc<ValidatorStore> {
    Arc::new(ValidatorStore::insecure_ephemeral_validators(0, 2, constants("testnet")))
}

fn client(remote: &str) -> Result<ProductionValidatorClient<MockNode>, String> {
    ProductionValidatorClient::new(
        &constants("testnet"),
        constants(remote),
        1600000000,
        KeyMaterial::TestingKeypairRange(0, 4),
        MockNode { id: 7 },
    )
}

#[test]
fn compatible_constants_adopt_remote() {
    let local = ProtocolConstants::new("testnet".to_string(), 0, 12000);
    let remote = ProtocolConstants::new("testnet".to_string(), 5, 6000);
    let adopted = validate_compatibility(&local, remote).unwrap();
    assert_eq!(adopted.spec_constants, "testnet");
    assert_eq!(adopted.genesis_slot, 5);
    assert_eq!(adopted.milliseconds_per_slot, 6000);
}

#[test]
fn incompatible_constants_name_both() {
    let err = validate_compatibility(&constants("testnet"), constants("mainnet")).unwrap_err();
    assert_eq!(
        err,
        "Beacon node is using an incompatible spec. Got mainnet, expected testnet"
    );
}

#[test]
fn scenario_matching_constants_give_slots() {
    let c = client("testnet").unwrap();
    assert_eq!(c.time_source.slot_for(1600000000), Some(0));
    assert_eq!(c.time_source.slot_for(1600000024), Some(2));
    assert_eq!(c.validator_store.num_voting_validators(), 4);
}

#[test]
fn scenario_mismatched_constants_fail() {
    let err = match client("mainnet") {
        Ok(_) => panic!("incompatible node accepted"),
        Err(e) => e,
    };
    assert!(err.contains("mainnet"));
    assert!(err.contains("testnet"));
}

#[test]
fn scenario_block_builder_without_fork_service() {
    let duties = DutiesServiceBuilder::new()
        .slot_clock(clock())
        .validator_store(store())
        .beacon_node(MockNode { id: 1 })
        .build()
        .unwrap();
    let result = BlockServiceBuilder::new()
        .duties_service(Arc::new(duties))
        .slot_clock(clock())
        .validator_store(store())
        .beacon_node(MockNode { id: 1 })
        .build();
    match result {
        Ok(_) => panic!("built without a fork service"),
        Err(e) => assert_eq!(e, "Cannot build BlockService without fork_service"),
    }
}

#[test]
fn client_services_share_dependencies() {
    let c = client("testnet").unwrap();
    assert_eq!(c.duties_service.slot_clock, c.time_source);
    assert_eq!(c.fork_service.slot_clock, c.time_source);
    assert_eq!(c.block_service.slot_clock, c.time_source);
    assert_eq!(c.attestation_service.slot_clock, c.time_source);
    assert_eq!(c.block_service.beacon_node, MockNode { id: 7 });
    assert_eq!(c.attestation_service.beacon_node, MockNode { id: 7 });
    assert!(Arc::ptr_eq(&c.block_service.validator_store, &c.validator_store));
    assert!(Arc::ptr_eq(&c.block_service.duties_service, &c.duties_service));
    assert!(Arc::ptr_eq(&c.attestation_service.fork_service, &c.fork_service));
}

#[test]
fn client_adopts_remote_constants() {
    let remote = ProtocolConstants::new("testnet".to_string(), 10, 6000);
    let c = ProductionValidatorClient::new(
        &constants("testnet"),
        remote,
        100,
        KeyMaterial::TestingKeypairRange(0, 1),
        MockNode { id: 1 },
    )
    .unwrap();
    assert_eq!(c.constants.genesis_slot, 10);
    assert_eq!(c.time_source.genesis_slot, 10);
    assert_eq!(c.time_source.slot_duration_ms, 6000);
    assert_eq!(c.time_source.slot_for(100), Some(10));
    assert_eq!(c.time_source.slot_for(112), Some(12));
}

#[test]
fn client_rejects_zero_slot_duration() {
    let remote = ProtocolConstants::new("testnet".to_string(), 0, 0);
    let result = ProductionValidatorClient::new(
        &constants("testnet"),
        remote,
        100,
        KeyMaterial::TestingKeypairRange(0, 1),
        MockNode { id: 1 },
    );
    match result {
        Ok(_) => panic!("zero slot duration accepted"),
        Err(e) => assert_eq!(e, "Beacon node reported a slot duration of zero"),
    }
}

#[test]
fn client_reports_store_failure() {
    let entries = vec![Ok(vec![1u8, 2]), Err("bad keystore".to_string())];
    let result = ProductionValidatorClient::new(
        &constants("testnet"),
        constants("testnet"),
        100,
        KeyMaterial::Disk(entries),
        MockNode { id: 1 },
    );
    match result {
        Ok(_) => panic!("partial store accepted"),
        Err(e) => assert_eq!(e, "bad keystore"),
    }
}

#[test]
fn connector_counts_probes_until_success() {
    let failures: u64 = 3;
    let mut connector = NodeConnector::new(MockNode { id: 9 });
    let mut outcomes = vec![false; failures as usize];
    outcomes.push(true);
    let mut probes: u64 = 0;
    for reachable in outcomes {
        probes += 1;
        match connector.record_probe(reachable) {
            ConnectStep::Connected => break,
            ConnectStep::RetryAfter(ms) => assert_eq!(ms, RETRY_DELAY_MS),
        }
    }
    assert_eq!(probes, failures + 1);
    assert_eq!(connector.probes(), failures + 1);
    assert!(connector.is_connected());
    assert_eq!(connector.into_node(), MockNode { id: 9 });
}

#[test]
fn connector_never_gives_up() {
    let mut connector = NodeConnector::new(MockNode { id: 1 });
    for _ in 0..50 {
        assert_eq!(connector.record_probe(false), ConnectStep::RetryAfter(2000));
    }
    assert!(!connector.is_connected());
    assert_eq!(connector.probes(), 50);
    assert_eq!(connector.node(), &MockNode { id: 1 });
}

#[test]
fn slot_for_is_monotonic() {
    let t = TimeSource::new(3, 1000, 2500).unwrap();
    assert_eq!(t.slot_for(999), None);
    assert_eq!(t.slot_for(1000), Some(3));
    let mut last = None;
    for now in 990..1100u64 {
        let s = t.slot_for(now);
        assert!(s >= last);
        last = s;
    }
    assert_eq!(t.slot_for(1005), Some(5));
    assert_eq!(t.slot_of_millis(1_002_499), Some(3));
    assert_eq!(t.slot_of_millis(1_002_500), Some(4));
}

#[test]
fn slot_saturates_at_largest_slot() {
    let t = TimeSource::new(u64::MAX - 1, 0, 1).unwrap();
    assert_eq!(t.slot_for(u64::MAX), Some(u64::MAX));
}

#[test]
fn time_source_rejects_zero_duration() {
    assert!(TimeSource::new(0, 0, 0).is_none());
    assert!(TimeSource::from_constants(&constants("testnet"), 5).is_some());
}

#[test]
fn disk_store_counts_every_key() {
    let entries = vec![Ok(vec![1u8]), Ok(vec![2u8]), Ok(vec![3u8])];
    let s = ValidatorStore::load_from_disk(entries, constants("testnet")).unwrap();
    assert_eq!(s.num_voting_validators(), 3);
    match &s.identities[1] {
        ValidatorIdentity::Persisted(k) => assert_eq!(k, &vec![2u8]),
        ValidatorIdentity::Insecure(_) => panic!("wrong identity"),
    }
}

#[test]
fn disk_store_fails_on_first_bad_entry() {
    let entries = vec![Ok(vec![1u8]), Err("first".to_string()), Err("second".to_string())];
    let e = ValidatorStore::load_from_disk(entries, constants("testnet")).unwrap_err();
    assert_eq!(e, "first");
}

#[test]
fn empty_disk_store() {
    let s = ValidatorStore::load_from_disk(vec![], constants("testnet")).unwrap();
    assert_eq!(s.num_voting_validators(), 0);
}

#[test]
fn ephemeral_store_counts_range() {
    let s = ValidatorStore::insecure_ephemeral_validators(5, 9, constants("testnet"));
    assert_eq!(s.num_voting_validators(), 4);
    match &s.identities[0] {
        ValidatorIdentity::Insecure(i) => assert_eq!(*i, 5),
        ValidatorIdentity::Persisted(_) => panic!("wrong identity"),
    }
    let empty = ValidatorStore::insecure_ephemeral_validators(9, 5, constants("testnet"));
    assert_eq!(empty.num_voting_validators(), 0);
    let loaded = load_validator_store(KeyMaterial::TestingKeypairRange(2, 3), constants("x")).unwrap();
    assert_eq!(loaded.num_voting_validators(), 1);
}

#[test]
fn builders_report_first_missing_dependency() {
    let e = DutiesServiceBuilder::<MockNode>::new().build().err().unwrap();
    assert_eq!(e, "Cannot build DutiesService without slot_clock");
    let e = DutiesServiceBuilder::<MockNode>::new().slot_clock(clock()).build().err().unwrap();
    assert_eq!(e, "Cannot build DutiesService without validator_store");
    let e = DutiesServiceBuilder::<MockNode>::new()
        .slot_clock(clock())
        .validator_store(store())
        .build()
        .err()
        .unwrap();
    assert_eq!(e, "Cannot build DutiesService without beacon_node");
    let e = ForkServiceBuilder::new().beacon_node(MockNode { id: 1 }).build().err().unwrap();
    assert_eq!(e, "Cannot build ForkService without slot_clock");
    let e = AttestationServiceBuilder::new()
        .slot_clock(clock())
        .validator_store(store())
        .beacon_node(MockNode { id: 1 })
        .build()
        .err()
        .unwrap();
    assert_eq!(e, "Cannot build AttestationService without duties_service");
}

#[test]
fn builders_succeed_when_complete() {
    let fork = ForkServiceBuilder::new()
        .slot_clock(clock())
        .beacon_node(MockNode { id: 2 })
        .build()
        .unwrap();
    assert_eq!(fork.beacon_node, MockNode { id: 2 });
    let duties = DutiesServiceBuilder::new()
        .slot_clock(clock())
        .validator_store(store())
        .beacon_node(MockNode { id: 2 })
        .build()
        .unwrap();
    let attestation = AttestationServiceBuilder::new()
        .duties_service(Arc::new(duties))
        .fork_service(Arc::new(fork))
        .slot_clock(clock())
        .validator_store(store())
        .beacon_node(MockNode { id: 3 })
        .build()
        .unwrap();
    assert_eq!(attestation.beacon_node, MockNode { id: 3 });
    assert_eq!(attestation.fork_service.beacon_node, MockNode { id: 2 });
}

fn run_launcher(fail_at: Option<ServiceKind>) -> (Result<(), String>, Vec<ServiceKind>, usize) {
    let mut launcher = ServiceLauncher::new();
    let mut registry: ExitRegistry<ServiceKind> = ExitRegistry::new();
    let mut attempted = vec![];
    loop {
        match launcher.next_action() {
            LaunchAction::Start(kind) => {
                attempted.push(kind);
                let result = if Some(kind) == fail_at {
                    Err("boom".to_string())
                } else {
                    Ok(kind)
                };
                launcher.on_started(&mut registry, result);
            }
            LaunchAction::Finished => break,
        }
    }
    let n = registry.len();
    (launcher.outcome(), attempted, n)
}

#[test]
fn launcher_starts_all_in_order() {
    let (outcome, attempted, registered) = run_launcher(None);
    assert_eq!(outcome, Ok(()));
    assert_eq!(
        attempted,
        vec![ServiceKind::Duties, ServiceKind::Fork, ServiceKind::Block, ServiceKind::Attestation]
    );
    assert_eq!(registered, 4);
}

#[test]
fn launcher_stops_at_first_failure() {
    let (outcome, attempted, registered) = run_launcher(Some(ServiceKind::Block));
    assert_eq!(outcome, Err("Unable to start block service: boom".to_string()));
    assert_eq!(attempted, vec![ServiceKind::Duties, ServiceKind::Fork, ServiceKind::Block]);
    assert_eq!(registered, 2);
}

#[test]
fn registry_hands_out_all_signals() {
    let mut registry = ExitRegistry::new();
    registry.register(1u32);
    registry.register(2u32);
    assert_eq!(registry.shutdown_all(), vec![1, 2]);
    assert_eq!(registry.len(), 0);
}

#[test]
fn slot_start_maps_back_to_slot() {
    let t = TimeSource::new(4, 1000, 12000).unwrap();
    assert_eq!(t.start_of(3), None);
    assert_eq!(t.start_of(4), Some(1_000_000));
    assert_eq!(t.start_of(6), Some(1_024_000));
    assert_eq!(t.slot_of_millis(1_024_000), Some(6));
    assert_eq!(t.slot_of_millis(1_023_999), Some(5));
    let wide = TimeSource::new(0, u64::MAX, u64::MAX).unwrap();
    assert_eq!(wide.start_of(u64::MAX), None);
}
