use cumulus_test_service::config::{
    DatabaseConfig, ExecutionStrategy, KeepBlocks, KeystoreConfig, Monitoring, NetworkConfiguration,
    NodeKeyConfig, NonReservedPeerMode, OffchainWorkerConfig, OutputFormat, PruningMode, RpcMethods,
    TracingReceiver, TransactionPoolOptions, TransactionStorageMode, TransportConfig,
    WasmExecutionMethod,
};
use cumulus_test_service::{
    node_config, node_config_on_port, Configuration, Keyring, Multiaddr, MultiaddrWithPeerId, ParaId,
    PeerId, Role,
};
use std::convert::TryFrom;

fn address(port: u64, peer: u8) -> MultiaddrWithPeerId {
    let multiaddr = parity_multiaddr::Multiaddr::from(parity_multiaddr::Protocol::Memory(port));
    MultiaddrWithPeerId {
        multiaddr: Multiaddr { bytes: multiaddr.to_vec() },
        peer_id: PeerId { bytes: vec![peer; 4] },
    }
}

fn config(key: Keyring, exclusive: bool, collator: bool, port: u64) -> Configuration<u32> {
    node_config_on_port::<u32, String>(
        Ok("/tmp/node".to_string()),
        17,
        key,
        vec![address(1, 1), address(2, 2)],
        exclusive,
        ParaId(100),
        collator,
        port,
    )
    .unwrap()
}

fn text(multiaddr: &Multiaddr) -> String {
    parity_multiaddr::Multiaddr::try_from(multiaddr.bytes.clone()).unwrap().to_string()
}

#[test]
fn node_listens_on_its_port() {
    let addresses = config(Keyring::Alice, false, false, 258).network.listen_addresses;
    assert_eq!(addresses.len(), 1);
    assert_eq!(addresses[0].bytes, vec![0x89, 0x06, 0, 0, 0, 0, 0, 0, 1, 2]);
    assert_eq!(text(&addresses[0]), "/memory/258");
    let lowest = config(Keyring::Alice, false, false, 0);
    assert_eq!(text(&lowest.network.listen_addresses[0]), "/memory/0");
    let highest = config(Keyring::Alice, false, false, u64::MAX);
    assert_eq!(text(&highest.network.listen_addresses[0]), "/memory/18446744073709551615");
}

#[test]
fn seeds_and_names_follow_the_account() {
    let accounts = vec![
        (Keyring::Alice, "//Alice"),
        (Keyring::Bob, "//Bob"),
        (Keyring::Charlie, "//Charlie"),
        (Keyring::Dave, "//Dave"),
        (Keyring::Eve, "//Eve"),
        (Keyring::Ferdie, "//Ferdie"),
        (Keyring::AliceStash, "//AliceStash"),
        (Keyring::BobStash, "//BobStash"),
        (Keyring::CharlieStash, "//CharlieStash"),
        (Keyring::DaveStash, "//DaveStash"),
        (Keyring::EveStash, "//EveStash"),
        (Keyring::FerdieStash, "//FerdieStash"),
        (Keyring::One, "//One"),
        (Keyring::Two, "//Two"),
    ];
    let mut names = Vec::new();
    for (key, seed) in accounts {
        let config = config(key, false, false, 1);
        assert_eq!(config.dev_key_seed, Some(seed.to_string()));
        assert_eq!(config.network.node_name, format!("{} (parachain)", seed));
        assert!(!names.contains(&config.network.node_name));
        names.push(config.network.node_name);
    }
}

#[test]
fn collators_are_authorities() {
    assert_eq!(config(Keyring::Alice, false, true, 1).role, Role::Authority);
    assert_eq!(config(Keyring::Alice, false, false, 1).role, Role::Full);
    assert!(Role::Authority.is_authority());
    assert!(!Role::Full.is_authority());
    assert!(!Role::Light.is_authority());
}

#[test]
fn exclusive_nodes_are_reserved() {
    let network = config(Keyring::Alice, true, false, 1).network;
    assert_eq!(network.default_peers_set.reserved_nodes, vec![address(1, 1), address(2, 2)]);
    assert_eq!(network.default_peers_set.non_reserved_mode, NonReservedPeerMode::Deny);
    assert_eq!(network.boot_nodes, vec![]);
}

#[test]
fn other_nodes_are_boot_nodes() {
    let network = config(Keyring::Alice, false, false, 1).network;
    assert_eq!(network.boot_nodes, vec![address(1, 1), address(2, 2)]);
    assert_eq!(network.default_peers_set.reserved_nodes, vec![]);
    assert_eq!(network.default_peers_set.non_reserved_mode, NonReservedPeerMode::Accept);
}

#[test]
fn network_stays_in_this_process() {
    let network = config(Keyring::Alice, false, false, 1).network;
    assert_eq!(network.client_version, "network/test/0.1");
    assert_eq!(network.node_key, NodeKeyConfig::Default);
    assert_eq!(network.net_config_path, None);
    assert!(network.allow_non_globals_in_dht);
    assert_eq!(network.transport, TransportConfig::MemoryOnly);
}

#[test]
fn a_new_network_is_unconnected() {
    let network = NetworkConfiguration::new(
        "name".to_string(),
        "version".to_string(),
        NodeKeyConfig::Default,
        Some("/net".to_string()),
    );
    assert_eq!(network.node_name, "name");
    assert_eq!(network.client_version, "version");
    assert_eq!(network.net_config_path, Some("/net".to_string()));
    assert_eq!(network.listen_addresses, vec![]);
    assert_eq!(network.boot_nodes, vec![]);
    assert_eq!(network.default_peers_set.reserved_nodes, vec![]);
    assert_eq!(network.default_peers_set.non_reserved_mode, NonReservedPeerMode::Accept);
    assert!(!network.allow_non_globals_in_dht);
    assert_eq!(network.transport, TransportConfig::Normal);
}

#[test]
fn the_rest_of_the_configuration_is_fixed() {
    let config = config(Keyring::Alice, false, false, 1);
    assert_eq!(config.impl_name, "cumulus-test-node");
    assert_eq!(config.impl_version, "0.1");
    assert_eq!(config.task_executor, 17);
    assert_eq!(config.transaction_pool, TransactionPoolOptions::Default);
    assert_eq!(config.keystore, KeystoreConfig::InMemory);
    assert_eq!(config.keystore_remote, None);
    assert_eq!(config.base_path, Some("/tmp/node".to_string()));
    match config.database {
        DatabaseConfig::RocksDb { root, directory, cache_size } => {
            assert_eq!(root, "/tmp/node");
            assert_eq!(directory, "db");
            assert_eq!(cache_size, 128);
        }
        DatabaseConfig::ParityDb { .. } => panic!("the database is of another kind"),
    }
    assert_eq!(config.state_cache_size, 67108864);
    assert_eq!(config.state_cache_child_ratio, None);
    assert_eq!(config.state_pruning, PruningMode::ArchiveAll);
    assert_eq!(config.keep_blocks, KeepBlocks::All);
    assert_eq!(config.transaction_storage, TransactionStorageMode::BlockBody);
    assert_eq!(config.chain_spec, ParaId(100));
    assert_eq!(config.wasm_method, WasmExecutionMethod::Interpreted);
    assert_eq!(config.execution_strategies.syncing, ExecutionStrategy::NativeWhenPossible);
    assert_eq!(config.execution_strategies.importing, ExecutionStrategy::NativeWhenPossible);
    assert_eq!(config.execution_strategies.block_construction, ExecutionStrategy::NativeWhenPossible);
    assert_eq!(config.execution_strategies.offchain_worker, ExecutionStrategy::NativeWhenPossible);
    assert_eq!(config.execution_strategies.other, ExecutionStrategy::NativeWhenPossible);
    assert_eq!(config.rpc_http, None);
    assert_eq!(config.rpc_ws, None);
    assert_eq!(config.rpc_ipc, None);
    assert_eq!(config.rpc_ws_max_connections, None);
    assert_eq!(config.rpc_cors, None);
    assert_eq!(config.rpc_methods, RpcMethods::Default);
    assert_eq!(config.prometheus_config, Monitoring::Off);
    assert_eq!(config.telemetry_endpoints, Monitoring::Off);
    assert!(!config.telemetry_external_transport);
    assert_eq!(config.default_heap_pages, None);
    assert_eq!(
        config.offchain_worker,
        OffchainWorkerConfig { enabled: true, indexing_enabled: false }
    );
    assert!(!config.force_authoring);
    assert!(!config.disable_grandpa);
    assert_eq!(config.tracing_targets, None);
    assert_eq!(config.tracing_receiver, TracingReceiver::Default);
    assert_eq!(config.max_runtime_instances, 8);
    assert!(config.announce_block);
    assert_eq!(config.informant_output_format, OutputFormat::Default);
    assert_eq!(config.wasm_runtime_overrides, None);
    assert!(!config.disable_log_reloading);
}

#[test]
fn a_missing_directory_is_reported() {
    let failed = node_config_on_port::<u32, String>(
        Err("no space".to_string()),
        17,
        Keyring::Alice,
        vec![],
        false,
        ParaId(100),
        false,
        1,
    );
    assert_eq!(failed.err(), Some("no space".to_string()));
    let failed = node_config::<u32, String>(
        Err("no space".to_string()),
        17,
        Keyring::Alice,
        vec![],
        false,
        ParaId(100),
        true,
    );
    assert_eq!(failed.err(), Some("no space".to_string()));
}

#[test]
fn ports_are_drawn_at_random() {
    let mut addresses = Vec::new();
    for _ in 0..8 {
        let config = node_config::<u32, String>(
            Ok("/tmp/node".to_string()),
            17,
            Keyring::Alice,
            vec![],
            false,
            ParaId(100),
            false,
        )
        .unwrap();
        assert_eq!(config.network.listen_addresses.len(), 1);
        let address = text(&config.network.listen_addresses[0]);
        assert!(address.starts_with("/memory/"));
        assert!(!addresses.contains(&address));
        addresses.push(address);
    }
}

#[test]
fn monitoring_knows_whether_it_is_on() {
    assert!(!Monitoring::Off.is_on());
    assert!(Monitoring::On("127.0.0.1:9615".to_string()).is_on());
}
