use cumulus_test_service::config::NonReservedPeerMode;
use cumulus_test_service::{
    relay_chain_node_name, run_relay_chain_validator_node, IsCollator, Keyring, Multiaddr,
    MultiaddrWithPeerId, NodeBlueprint, Outcome, ParaId, PeerId, PolkadotTestNode, Role, StartStep,
    TestNode, TestNodeBuilder,
};
use polkadot_primitives::CollatorPair;
use sp_core::Pair;

fn address(port: u8) -> MultiaddrWithPeerId {
    MultiaddrWithPeerId {
        multiaddr: Multiaddr { bytes: vec![0x89, 0x06, 0, 0, 0, 0, 0, 0, 0, port] },
        peer_id: PeerId { bytes: vec![port; 4] },
    }
}

fn node(port: u8) -> TestNode {
    TestNode { addr: address(port) }
}

fn relay_node(port: u8) -> PolkadotTestNode {
    PolkadotTestNode { addr: address(port) }
}

fn builder() -> TestNodeBuilder<u32> {
    TestNodeBuilder::new(ParaId(100), 17, Keyring::Bob)
}

fn build(builder: TestNodeBuilder<u32>) -> NodeBlueprint<u32> {
    builder.build_on_port("/tmp/bob".to_string(), 9)
}

/// The keys that the relay chain node and the collator are started with.
fn collator_keys(mut node: NodeBlueprint<u32>) -> (Option<CollatorPair>, Option<CollatorPair>) {
    let mut told = None;
    let mut started = None;
    while let Some(step) = node.start.next_step() {
        match step {
            StartStep::NewRelayChainNode { is_collator: IsCollator::Yes(key) } => {
                told = Some(key.clone())
            }
            StartStep::StartCollator { collator_key, .. } => started = Some(collator_key.clone()),
            _ => {}
        }
        node.start.complete_step(Outcome::<String>::Done).unwrap();
    }
    assert!(node.start.is_complete());
    (told, started)
}

#[test]
fn a_node_is_alone_by_default() {
    let node = build(builder());
    assert_eq!(node.parachain_config.role, Role::Full);
    assert_eq!(node.parachain_config.chain_spec, ParaId(100));
    assert_eq!(node.parachain_config.task_executor, 17);
    assert_eq!(node.parachain_config.network.node_name, "//Bob (parachain)");
    assert_eq!(node.parachain_config.network.boot_nodes, vec![]);
    assert_eq!(node.parachain_config.network.default_peers_set.reserved_nodes, vec![]);
    assert_eq!(node.parachain_config.base_path, Some("/tmp/bob".to_string()));
    assert_eq!(node.relay_chain.task_executor, 17);
    assert_eq!(node.relay_chain.key, Keyring::Bob);
    assert_eq!(node.relay_chain.boot_nodes, vec![]);
    assert!(!node.relay_chain.is_validator);
    let (told, started) = collator_keys(node);
    assert!(told.is_none());
    assert!(started.is_none());
}

#[test]
fn nodes_are_registered_in_order() {
    let built = build(
        builder()
            .connect_to_parachain_node(&node(1))
            .connect_to_relay_chain_nodes(&[&relay_node(5), &relay_node(6)])
            .connect_to_parachain_nodes(&[&node(2), &node(3), &node(2)])
            .connect_to_relay_chain_node(&relay_node(7))
            .connect_to_parachain_nodes(&[]),
    );
    assert_eq!(
        built.parachain_config.network.boot_nodes,
        vec![address(1), address(2), address(3), address(2)]
    );
    assert_eq!(
        built.parachain_config.network.default_peers_set.non_reserved_mode,
        NonReservedPeerMode::Accept
    );
    assert_eq!(built.relay_chain.boot_nodes, vec![address(5), address(6), address(7)]);
}

#[test]
fn the_order_of_settings_does_not_matter() {
    let first = build(
        builder()
            .exclusively_connect_to_registered_parachain_nodes()
            .connect_to_parachain_node(&node(1))
            .enable_collator(),
    );
    let second = build(
        builder()
            .enable_collator()
            .connect_to_parachain_node(&node(1))
            .exclusively_connect_to_registered_parachain_nodes()
            .exclusively_connect_to_registered_parachain_nodes(),
    );
    for built in vec![first, second] {
        let peers = built.parachain_config.network.default_peers_set;
        assert_eq!(peers.reserved_nodes, vec![address(1)]);
        assert_eq!(peers.non_reserved_mode, NonReservedPeerMode::Deny);
        assert_eq!(built.parachain_config.network.boot_nodes, vec![]);
        assert_eq!(built.parachain_config.role, Role::Authority);
    }
}

#[test]
fn a_collator_uses_the_key_it_was_given() {
    let key = CollatorPair::generate().0;
    let node = build(builder().enable_collator().enable_collator_with(key.clone()));
    assert_eq!(node.parachain_config.role, Role::Authority);
    let (told, started) = collator_keys(node);
    assert_eq!(told.unwrap().public(), key.public());
    assert_eq!(started.unwrap().public(), key.public());
}

#[test]
fn collator_keys_are_fresh() {
    let (told, first) = collator_keys(build(builder().enable_collator()));
    let (_, second) = collator_keys(build(builder().enable_collator()));
    let first = first.unwrap();
    assert_eq!(told.unwrap().public(), first.public());
    assert_ne!(first.public(), second.unwrap().public());
}

#[test]
fn a_built_node_can_be_connected_to() {
    let first = builder().build("/tmp/bob".to_string());
    assert_eq!(first.parachain_config.network.listen_addresses, vec![first.multiaddr.clone()]);
    let first = TestNode::new(first.multiaddr, PeerId { bytes: vec![3, 1, 4] });
    let second = builder().connect_to_parachain_node(&first).build("/tmp/eve".to_string());
    assert_eq!(second.parachain_config.network.boot_nodes, vec![first.addr.clone()]);
    assert_ne!(second.multiaddr, first.addr.multiaddr);
    assert_eq!(first.addr.peer_id.bytes, vec![3, 1, 4]);
}

#[test]
fn built_nodes_listen_on_the_given_port() {
    assert_eq!(build(builder()).multiaddr, address(9).multiaddr);
}

#[test]
fn relay_chain_nodes_are_named_apart() {
    let name = relay_chain_node_name("//Bob".to_string());
    assert_eq!(name, "//Bob (relay chain)");
    assert_ne!(name, build(builder()).parachain_config.network.node_name);
    assert_eq!(relay_chain_node_name(String::new()), " (relay chain)");
}

#[test]
fn validators_get_a_worker() {
    let arguments =
        run_relay_chain_validator_node(17, Keyring::Eve, vec![address(1)], "/bin/worker");
    assert_eq!(arguments.task_executor, 17);
    assert_eq!(arguments.key, Keyring::Eve);
    assert_eq!(arguments.boot_nodes, vec![address(1)]);
    assert_eq!(arguments.worker_program_path, Some("/bin/worker".to_string()));
}
