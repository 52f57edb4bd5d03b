use safety_rules::config::{
    IdentityBlob, InitialSafetyRulesConfig, RemoteServiceConfig, SafetyRulesConfig,
    SafetyRulesService, SafetyRulesTestConfig, ServerAddress, Waypoint,
};
use safety_rules::crypto::PrivateKey;
use safety_rules::safety_rules_manager::{storage, FatalError, SafetyRulesManager};
use safety_rules::secure_storage::SecureBackend;

fn base_config() -> SafetyRulesConfig {
    SafetyRulesConfig {
        service: SafetyRulesService::Local,
        network_timeout_ms: 30_000,
        verify_vote_proposal_signature: true,
        export_consensus_key: false,
        test: None,
        initial_safety_rules_config: InitialSafetyRulesConfig::NotProvided,
        enable_cached_safety_data: true,
    }
}

fn test_config(author: u64, key: u64, epoch: u64) -> SafetyRulesTestConfig {
    SafetyRulesTestConfig {
        author,
        consensus_key: Some(PrivateKey { value: key }),
        execution_key: Some(PrivateKey { value: key + 1 }),
        waypoint: Some(Waypoint { version: 0, epoch }),
    }
}

#[test]
fn bootstrap_test_mode_initializes_everything() {
    let mut config = base_config();
    config.test = Some(test_config(7, 100, 1));
    let st = storage(&config, SecureBackend::new_empty()).unwrap();
    let store = st.internal_store;
    assert!(store.is_initialized());
    assert_eq!(store.author, Some(7));
    assert_eq!(store.consensus_key, Some(PrivateKey { value: 100 }));
    assert_eq!(store.execution_key, Some(PrivateKey { value: 101 }));
    assert_eq!(store.waypoint, Some(Waypoint { version: 0, epoch: 1 }));
    assert!(store.safety_data.is_some());
}

#[test]
fn bootstrap_idempotent_on_initialized_production_storage() {
    // Seed via test mode once, then bootstrap twice in production mode:
    // both calls must see identical author/keys and mutate nothing.
    let mut seed_config = base_config();
    seed_config.test = Some(test_config(9, 500, 2));
    let seeded = storage(&seed_config, SecureBackend::new_empty()).unwrap();

    let prod = base_config();
    let first = storage(&prod, seeded.internal_store).unwrap();
    assert_eq!(first.internal_store, seeded.internal_store);

    let second = storage(&prod, first.internal_store).unwrap();
    assert_eq!(second.internal_store, first.internal_store);
    assert_eq!(second.internal_store.author, Some(9));
    assert_eq!(second.internal_store.consensus_key, Some(PrivateKey { value: 500 }));
}

#[test]
fn bootstrap_test_mode_overwrites_previous_keys() {
    let mut c1 = base_config();
    c1.test = Some(test_config(1, 10, 1));
    let mut c2 = base_config();
    c2.test = Some(test_config(2, 20, 3));

    let first = storage(&c1, SecureBackend::new_empty()).unwrap();
    let second = storage(&c2, first.internal_store).unwrap();
    // The second call's keys win, regardless of prior state.
    assert_eq!(second.internal_store.author, Some(2));
    assert_eq!(second.internal_store.consensus_key, Some(PrivateKey { value: 20 }));
    assert_eq!(second.internal_store.execution_key, Some(PrivateKey { value: 21 }));
    assert_eq!(second.internal_store.waypoint, Some(Waypoint { version: 0, epoch: 3 }));
}

#[test]
fn bootstrap_fatal_on_unavailable_backend() {
    let mut backend = SecureBackend::new_empty();
    backend.available = false;
    let mut config = base_config();
    config.test = Some(test_config(1, 10, 1));
    assert_eq!(storage(&config, backend), Err(FatalError::StorageUnavailable));
}

#[test]
fn bootstrap_fatal_on_incomplete_test_config() {
    let mut config = base_config();
    let mut t = test_config(1, 10, 1);
    t.consensus_key = None;
    config.test = Some(t);
    assert_eq!(
        storage(&config, SecureBackend::new_empty()),
        Err(FatalError::MissingConsensusKey)
    );

    let mut t = test_config(1, 10, 1);
    t.execution_key = None;
    config.test = Some(t);
    assert_eq!(
        storage(&config, SecureBackend::new_empty()),
        Err(FatalError::MissingExecutionKey)
    );

    let mut t = test_config(1, 10, 1);
    t.waypoint = None;
    config.test = Some(t);
    assert_eq!(
        storage(&config, SecureBackend::new_empty()),
        Err(FatalError::MissingWaypoint)
    );
}

#[test]
fn bootstrap_fatal_on_uninitialized_storage_without_identity() {
    let config = base_config();
    assert_eq!(
        storage(&config, SecureBackend::new_empty()),
        Err(FatalError::StorageUninitialized)
    );
}

#[test]
fn bootstrap_seeds_from_initial_identity() {
    let mut config = base_config();
    config.initial_safety_rules_config = InitialSafetyRulesConfig::FromBlob {
        identity_blob: IdentityBlob {
            account_address: Some(42),
            consensus_private_key: Some(PrivateKey { value: 77 }),
            account_private_key: Some(PrivateKey { value: 78 }),
        },
        waypoint: Waypoint { version: 5, epoch: 4 },
    };
    let st = storage(&config, SecureBackend::new_empty()).unwrap();
    assert_eq!(st.internal_store.author, Some(42));
    assert_eq!(st.internal_store.consensus_key, Some(PrivateKey { value: 77 }));
    assert_eq!(st.internal_store.execution_key, Some(PrivateKey { value: 78 }));
    assert_eq!(st.internal_store.waypoint, Some(Waypoint { version: 5, epoch: 4 }));
}

#[test]
fn bootstrap_fatal_on_incomplete_identity_blob() {
    let mut config = base_config();
    config.initial_safety_rules_config = InitialSafetyRulesConfig::FromBlob {
        identity_blob: IdentityBlob {
            account_address: None,
            consensus_private_key: Some(PrivateKey { value: 77 }),
            account_private_key: Some(PrivateKey { value: 78 }),
        },
        waypoint: Waypoint { version: 5, epoch: 4 },
    };
    assert_eq!(
        storage(&config, SecureBackend::new_empty()),
        Err(FatalError::MissingAccountAddress)
    );

    config.initial_safety_rules_config = InitialSafetyRulesConfig::FromBlob {
        identity_blob: IdentityBlob {
            account_address: Some(42),
            consensus_private_key: None,
            account_private_key: Some(PrivateKey { value: 78 }),
        },
        waypoint: Waypoint { version: 5, epoch: 4 },
    };
    assert_eq!(
        storage(&config, SecureBackend::new_empty()),
        Err(FatalError::MissingInitialConsensusKey)
    );

    config.initial_safety_rules_config = InitialSafetyRulesConfig::FromBlob {
        identity_blob: IdentityBlob {
            account_address: Some(42),
            consensus_private_key: Some(PrivateKey { value: 77 }),
            account_private_key: None,
        },
        waypoint: Waypoint { version: 5, epoch: 4 },
    };
    assert_eq!(
        storage(&config, SecureBackend::new_empty()),
        Err(FatalError::MissingInitialAccountKey)
    );
}

#[test]
fn manager_new_fatal_paths_produce_no_manager() {
    // Each fatal bootstrap condition must refuse the manager outright.
    let mut unavailable = SecureBackend::new_empty();
    unavailable.available = false;
    let mut config = base_config();
    config.test = Some(test_config(1, 10, 1));
    assert!(matches!(
        SafetyRulesManager::new(&config, unavailable),
        Err(FatalError::StorageUnavailable)
    ));

    let mut config = base_config();
    let mut t = test_config(1, 10, 1);
    t.waypoint = None;
    config.test = Some(t);
    assert!(matches!(
        SafetyRulesManager::new(&config, SecureBackend::new_empty()),
        Err(FatalError::MissingWaypoint)
    ));

    let config = base_config();
    assert!(matches!(
        SafetyRulesManager::new(&config, SecureBackend::new_empty()),
        Err(FatalError::StorageUninitialized)
    ));
}

#[test]
fn manager_process_topology_skips_local_bootstrap() {
    // The process topology owns no local storage: even an unavailable
    // backend must not stop it.
    let mut backend = SecureBackend::new_empty();
    backend.available = false;
    let mut config = base_config();
    config.service = SafetyRulesService::Process(RemoteServiceConfig {
        server_address: ServerAddress { ip: 0x7f00_0001, port: 9101 },
    });
    config.network_timeout_ms = 500;
    let manager = SafetyRulesManager::new(&config, backend).unwrap();
    let client = manager.client();
    match client {
        safety_rules::safety_rules_manager::SafetyRulesClient::Remote(remote) => {
            assert_eq!(remote.server_address, ServerAddress { ip: 0x7f00_0001, port: 9101 });
            assert_eq!(remote.network_timeout_ms, 500);
        },
        _ => panic!("expected a remote client"),
    }
}
