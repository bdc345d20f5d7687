//! Building test nodes.

use crate::address::{
    law_lists_say_what_their_entries_say, law_memory_addresses_are_distinct, memory_multiaddr,
    peer_addresses, Multiaddr, MultiaddrWithPeerId, PeerAddress, PeerId,
};
use crate::config::{
    draw_port, is_drawn_port, law_given_nodes_are_the_known_peers,
    law_test_network_takes_every_node, node_config_on_port, Configuration, NonReservedPeerMode,
    ParaId, Role, TransportConfig,
};
use crate::keyring::Keyring;
use crate::plan::{Plan, Progress};
use crate::relay_chain::{relay_chain_addresses, PolkadotTestNode, RelayChainArguments};
use crate::service::{
    is_start, law_collation_is_consistent, law_start_is_for_its_parachain,
    law_start_uses_the_given_key, start_node_impl, IsCollator, StartStep,
};
use polkadot_primitives::CollatorPair;
use sp_core::Pair;
use vstd::prelude::*;

verus! {

/// The key pair of a collator. It is only passed on.
#[verifier::external_type_specification]
#[verifier::external_body]
pub struct ExCollatorPair(CollatorPair);

/// `CollatorPair::generate`, without the seed: a fresh random key pair. Nothing is claimed of it.
#[verifier::external_body]
fn generate_collator_key() -> (key: CollatorPair) {
    CollatorPair::generate().0
}

/// Whether `key` can come of generating a key pair.
pub closed spec fn is_generated_key(key: CollatorPair) -> bool {
    call_ensures(generate_collator_key, (), key)
}

/// No key counts as generated but one that the generator of key pairs hands out.
proof fn law_generated_keys_come_from_the_generator(key: CollatorPair)
    ensures
        is_generated_key(key) <==> call_ensures(generate_collator_key, (), key),
{
}

/// A test node of the parachain.
#[derive(Debug)]
pub struct TestNode {
    /// The address of this node. This is useful if you want to pass it as "boot node" to other
    /// nodes.
    pub addr: MultiaddrWithPeerId,
}

impl TestNode {
    /// The node `peer_id` that listens on `multiaddr`.
    pub fn new(multiaddr: Multiaddr, peer_id: PeerId) -> (node: Self)
        ensures
            node.addr@ == (PeerAddress { multiaddr: multiaddr@, peer_id: peer_id@ }),
    {
        TestNode { addr: MultiaddrWithPeerId { multiaddr, peer_id } }
    }
}

/// The addresses of nodes of the parachain.
pub open spec fn parachain_addresses(nodes: Seq<&TestNode>) -> Seq<PeerAddress> {
    nodes.map_values(|node: &TestNode| node.addr@)
}

/// What a `TestNodeBuilder` has been told.
#[verifier::ext_equal]
pub struct NodeSettings<T> {
    pub para_id: ParaId,
    pub task_executor: T,
    pub key: Keyring,
    pub collator_key: Option<CollatorPair>,
    pub parachain_nodes: Seq<PeerAddress>,
    pub parachain_nodes_exclusive: bool,
    pub relay_chain_nodes: Seq<PeerAddress>,
}

impl<T> NodeSettings<T> {
    /// A node that does not collate and is not connected to any node.
    pub open spec fn new(para_id: ParaId, task_executor: T, key: Keyring) -> Self {
        NodeSettings {
            para_id,
            task_executor,
            key,
            collator_key: None,
            parachain_nodes: Seq::empty(),
            parachain_nodes_exclusive: false,
            relay_chain_nodes: Seq::empty(),
        }
    }

    /// The same node, collating with the key `key`.
    pub open spec fn with_collator_key(self, key: CollatorPair) -> Self {
        NodeSettings { collator_key: Some(key), ..self }
    }

    /// The same node, connecting to nothing but the parachain nodes it has been told of.
    pub open spec fn exclusive(self) -> Self {
        NodeSettings { parachain_nodes_exclusive: true, ..self }
    }

    /// The same node, also told of these parachain nodes.
    pub open spec fn with_parachain_nodes(self, nodes: Seq<PeerAddress>) -> Self {
        NodeSettings { parachain_nodes: self.parachain_nodes + nodes, ..self }
    }

    /// The same node, also told of these relay chain nodes.
    pub open spec fn with_relay_chain_nodes(self, nodes: Seq<PeerAddress>) -> Self {
        NodeSettings { relay_chain_nodes: self.relay_chain_nodes + nodes, ..self }
    }
}

/// A test node that has been configured and is to be started.
pub struct NodeBlueprint<T> {
    /// The configuration of the parachain node.
    pub parachain_config: Configuration<T>,
    /// What the relay chain node is configured with.
    pub relay_chain: RelayChainArguments<T>,
    /// Where the parachain node will listen.
    pub multiaddr: Multiaddr,
    /// The steps of the start.
    pub start: Plan<StartStep<CollatorPair>>,
}

impl<T: Clone> NodeBlueprint<T> {
    /// Whether this is what the settings ask for, with the node listening on `port` of the memory
    /// transport and writing below `base_path`.
    pub open spec fn is_of(self, settings: NodeSettings<T>, base_path: Seq<char>, port: u64) -> bool {
        &&& self.parachain_config.is_test_config(
            base_path,
            self.parachain_config.task_executor,
            settings.key,
            settings.parachain_nodes,
            settings.parachain_nodes_exclusive,
            settings.para_id,
            settings.collator_key is Some,
            port,
        )
        &&& cloned(settings.task_executor, self.parachain_config.task_executor)
        &&& self.relay_chain.task_executor == settings.task_executor
        &&& self.relay_chain.key == settings.key
        &&& peer_addresses(self.relay_chain.boot_nodes@) == settings.relay_chain_nodes
        &&& !self.relay_chain.is_validator
        &&& self.multiaddr@ == memory_multiaddr(port)
        &&& is_start(self.start.steps(), settings.collator_key, settings.para_id, false)
        &&& self.start.progress() == Progress::start()
    }
}

/// A builder to create a `TestNode`. `T` is a handle on the executor of the node's tasks.
pub struct TestNodeBuilder<T> {
    para_id: ParaId,
    task_executor: T,
    key: Keyring,
    collator_key: Option<CollatorPair>,
    parachain_nodes: Vec<MultiaddrWithPeerId>,
    parachain_nodes_exclusive: bool,
    relay_chain_nodes: Vec<MultiaddrWithPeerId>,
}

impl<T> View for TestNodeBuilder<T> {
    type V = NodeSettings<T>;

    closed spec fn view(&self) -> NodeSettings<T> {
        NodeSettings {
            para_id: self.para_id,
            task_executor: self.task_executor,
            key: self.key,
            collator_key: self.collator_key,
            parachain_nodes: peer_addresses(self.parachain_nodes@),
            parachain_nodes_exclusive: self.parachain_nodes_exclusive,
            relay_chain_nodes: peer_addresses(self.relay_chain_nodes@),
        }
    }
}

impl<T> TestNodeBuilder<T> {
    /// Create a new instance of `Self`.
    ///
    /// `para_id` - The parachain id this node is running for.
    /// `task_executor` - The task executor to use.
    /// `key` - The key that will be used to generate the name and that will be passed as
    /// `dev_seed`.
    pub fn new(para_id: ParaId, task_executor: T, key: Keyring) -> (builder: Self)
        ensures
            builder@ == NodeSettings::new(para_id, task_executor, key),
    {
        TestNodeBuilder {
            para_id,
            task_executor,
            key,
            collator_key: None,
            parachain_nodes: Vec::new(),
            parachain_nodes_exclusive: false,
            relay_chain_nodes: Vec::new(),
        }
    }

    /// Enable collator for this node, with the given key.
    pub fn enable_collator_with(self, collator_key: CollatorPair) -> (builder: Self)
        ensures
            builder@ == self@.with_collator_key(collator_key),
    {
        let mut builder = self;
        builder.collator_key = Some(collator_key);
        builder
    }

    /// Enable collator for this node, with a fresh key.
    pub fn enable_collator(self) -> (builder: Self)
        ensures
            exists|key: CollatorPair|
                is_generated_key(key) && builder@
                    == #[trigger] self@.with_collator_key(key),
    {
        let collator_key = generate_collator_key();
        self.enable_collator_with(collator_key)
    }

    /// Instruct the node to exclusively connect to registered parachain nodes.
    ///
    /// Parachain nodes can be registered using `connect_to_parachain_node` and
    /// `connect_to_parachain_nodes`.
    pub fn exclusively_connect_to_registered_parachain_nodes(self) -> (builder: Self)
        ensures
            builder@ == self@.exclusive(),
    {
        let mut builder = self;
        builder.parachain_nodes_exclusive = true;
        builder
    }

    /// Make the node connect to the given parachain node.
    ///
    /// By default the node will not be connected to any node or will be able to discover any other
    /// node.
    pub fn connect_to_parachain_node(self, node: &TestNode) -> (builder: Self)
        ensures
            builder@ == self@.with_parachain_nodes(seq![node.addr@]),
    {
        let mut builder = self;
        builder.parachain_nodes.push(node.addr.clone());
        builder
    }

    /// Make the node connect to the given parachain nodes.
    ///
    /// By default the node will not be connected to any node or will be able to discover any other
    /// node.
    pub fn connect_to_parachain_nodes(self, nodes: &[&TestNode]) -> (builder: Self)
        ensures
            builder@ == self@.with_parachain_nodes(parachain_addresses(nodes@)),
    {
        let ghost before = self@;
        let mut builder = self;
        let mut next: usize = 0;
        assert(builder@ == before.with_parachain_nodes(parachain_addresses(nodes@.take(0))));
        while next < nodes.len()
            invariant
                next <= nodes.len(),
                builder@ == before.with_parachain_nodes(
                    parachain_addresses(nodes@.take(next as int)),
                ),
            decreases nodes.len() - next,
        {
            builder = builder.connect_to_parachain_node(nodes[next]);
            assert(parachain_addresses(nodes@.take(next + 1)) =~= parachain_addresses(
                nodes@.take(next as int),
            ) + seq![nodes@[next as int].addr@]);
            next = next + 1;
        }
        assert(nodes@.take(next as int) =~= nodes@);
        builder
    }

    /// Make the node connect to the given relay chain node.
    ///
    /// By default the node will not be connected to any node or will be able to discover any other
    /// node.
    pub fn connect_to_relay_chain_node(self, node: &PolkadotTestNode) -> (builder: Self)
        ensures
            builder@ == self@.with_relay_chain_nodes(seq![node.addr@]),
    {
        let mut builder = self;
        builder.relay_chain_nodes.push(node.addr.clone());
        builder
    }

    /// Make the node connect to the given relay chain nodes.
    ///
    /// By default the node will not be connected to any node or will be able to discover any other
    /// node.
    pub fn connect_to_relay_chain_nodes(self, nodes: &[&PolkadotTestNode]) -> (builder: Self)
        ensures
            builder@ == self@.with_relay_chain_nodes(relay_chain_addresses(nodes@)),
    {
        let ghost before = self@;
        let mut builder = self;
        let mut next: usize = 0;
        assert(builder@ == before.with_relay_chain_nodes(relay_chain_addresses(nodes@.take(0))));
        while next < nodes.len()
            invariant
                next <= nodes.len(),
                builder@ == before.with_relay_chain_nodes(
                    relay_chain_addresses(nodes@.take(next as int)),
                ),
            decreases nodes.len() - next,
        {
            builder = builder.connect_to_relay_chain_node(nodes[next]);
            assert(relay_chain_addresses(nodes@.take(next + 1)) =~= relay_chain_addresses(
                nodes@.take(next as int),
            ) + seq![nodes@[next as int].addr@]);
            next = next + 1;
        }
        assert(nodes@.take(next as int) =~= nodes@);
        builder
    }
}

impl<T: Clone> TestNodeBuilder<T> {
    /// Configure the node, with its parachain side listening on `port` of the memory transport.
    pub fn build_on_port(self, base_path: String, port: u64) -> (node: NodeBlueprint<T>)
        ensures
            node.is_of(self@, base_path@, port),
    {
        let parachain_config = node_config_on_port::<T, ()>(
            Ok(base_path),
            self.task_executor.clone(),
            self.key,
            self.parachain_nodes,
            self.parachain_nodes_exclusive,
            self.para_id,
            self.collator_key.is_some(),
            port,
        ).unwrap();
        let multiaddr = parachain_config.network.listen_addresses[0].clone();
        let start = start_node_impl::<T, CollatorPair, ()>(
            &parachain_config,
            self.collator_key,
            self.para_id,
        ).unwrap();
        NodeBlueprint {
            parachain_config,
            relay_chain: RelayChainArguments {
                task_executor: self.task_executor,
                key: self.key,
                boot_nodes: self.relay_chain_nodes,
                is_validator: false,
            },
            multiaddr,
            start,
        }
    }

    /// Configure the node. It will write below the directory `base_path`, and its parachain side
    /// listens on a random port of the memory transport.
    pub fn build(self, base_path: String) -> (node: NodeBlueprint<T>)
        ensures
            exists|port: u64|
                is_drawn_port(port) && #[trigger] node.is_of(
                    self@,
                    base_path@,
                    port,
                ),
    {
        let port: u64 = draw_port();
        self.build_on_port(base_path, port)
    }
}

/// Nodes that are registered in several calls are all registered, in the order of the calls.
pub proof fn law_registrations_accumulate<T>(
    settings: NodeSettings<T>,
    first: Seq<PeerAddress>,
    second: Seq<PeerAddress>,
)
    ensures
        settings.with_parachain_nodes(first).with_parachain_nodes(second)
            == settings.with_parachain_nodes(first + second),
        settings.with_relay_chain_nodes(first).with_relay_chain_nodes(second)
            == settings.with_relay_chain_nodes(first + second),
{
    assert(settings.with_parachain_nodes(first).with_parachain_nodes(second)
        =~= settings.with_parachain_nodes(first + second));
    assert(settings.with_relay_chain_nodes(first).with_relay_chain_nodes(second)
        =~= settings.with_relay_chain_nodes(first + second));
}

/// Collating, keeping to the registered nodes, and the nodes of the two chains are independent of
/// each other: it does not matter which is set first. Setting one of the first two again changes
/// nothing but the key.
pub proof fn law_settings_are_independent<T>(
    settings: NodeSettings<T>,
    key: CollatorPair,
    other_key: CollatorPair,
    parachain: Seq<PeerAddress>,
    relay_chain: Seq<PeerAddress>,
)
    ensures
        settings.with_collator_key(key).exclusive() == settings.exclusive().with_collator_key(key),
        settings.with_collator_key(key).with_parachain_nodes(parachain)
            == settings.with_parachain_nodes(parachain).with_collator_key(key),
        settings.with_collator_key(key).with_relay_chain_nodes(relay_chain)
            == settings.with_relay_chain_nodes(relay_chain).with_collator_key(key),
        settings.exclusive().with_parachain_nodes(parachain) == settings.with_parachain_nodes(
            parachain,
        ).exclusive(),
        settings.exclusive().with_relay_chain_nodes(relay_chain) == settings.with_relay_chain_nodes(
            relay_chain,
        ).exclusive(),
        settings.with_parachain_nodes(parachain).with_relay_chain_nodes(relay_chain)
            == settings.with_relay_chain_nodes(relay_chain).with_parachain_nodes(parachain),
        settings.exclusive().exclusive() == settings.exclusive(),
        settings.with_collator_key(key).with_collator_key(other_key) == settings.with_collator_key(
            other_key,
        ),
{
}

/// By default a node is not connected to any node, and does not collate.
pub proof fn law_default_node_is_alone<T: Clone>(
    node: NodeBlueprint<T>,
    para_id: ParaId,
    task_executor: T,
    key: Keyring,
    base_path: Seq<char>,
    port: u64,
)
    requires
        node.is_of(NodeSettings::new(para_id, task_executor, key), base_path, port),
    ensures
        node.parachain_config.network.known_peers() == Seq::<PeerAddress>::empty(),
        node.relay_chain.boot_nodes@.len() == 0,
        node.parachain_config.role == Role::Full,
        forall|i: int|
            0 <= i < node.start.steps().len() ==> #[trigger] node.start.steps()[i]
                !is StartCollator,
{
    law_given_nodes_are_the_known_peers(
        node.parachain_config.network,
        Seq::empty(),
        false,
    );
    assert(node.relay_chain.boot_nodes@.len() == peer_addresses(
        node.relay_chain.boot_nodes@,
    ).len());
}

/// A node is told of every parachain node that was registered, in the order of registration, and
/// of no other. It refuses all others if and only if it was instructed to connect exclusively.
pub proof fn law_registered_nodes_are_the_known_peers<T: Clone>(
    node: NodeBlueprint<T>,
    settings: NodeSettings<T>,
    base_path: Seq<char>,
    port: u64,
)
    requires
        node.is_of(settings, base_path, port),
    ensures
        node.parachain_config.network.known_peers() == settings.parachain_nodes,
        node.parachain_config.network.default_peers_set.non_reserved_mode
            == NonReservedPeerMode::Deny <==> settings.parachain_nodes_exclusive,
{
    law_given_nodes_are_the_known_peers(
        node.parachain_config.network,
        settings.parachain_nodes,
        settings.parachain_nodes_exclusive,
    );
}

/// A node is an authority if and only if a collator was enabled, and it then starts collating. A
/// node that is built is never a light client, which could not be started.
pub proof fn law_collators_are_authorities<T: Clone>(
    node: NodeBlueprint<T>,
    settings: NodeSettings<T>,
    base_path: Seq<char>,
    port: u64,
)
    requires
        node.is_of(settings, base_path, port),
    ensures
        node.parachain_config.role == Role::Authority <==> settings.collator_key is Some,
        (exists|i: int|
            0 <= i < node.start.steps().len() && #[trigger] node.start.steps()[i]
                is StartCollator) <==> settings.collator_key is Some,
        node.parachain_config.role != Role::Light,
{
    law_collation_is_consistent(
        node.start.steps(),
        settings.collator_key,
        settings.para_id,
        false,
    );
}

/// The address that is made known of a node is the one on which it listens, the only one. Nodes
/// on different ports have different addresses.
pub proof fn law_node_listens_at_its_address<T: Clone>(
    node: NodeBlueprint<T>,
    settings: NodeSettings<T>,
    base_path: Seq<char>,
    port: u64,
    other: NodeBlueprint<T>,
    other_settings: NodeSettings<T>,
    other_base_path: Seq<char>,
    other_port: u64,
)
    requires
        node.is_of(settings, base_path, port),
        other.is_of(other_settings, other_base_path, other_port),
    ensures
        node.parachain_config.network.listen_addresses@.len() == 1,
        node.parachain_config.network.listen_addresses@[0]@ == node.multiaddr@,
        node.multiaddr@ == other.multiaddr@ <==> port == other_port,
{
    law_memory_addresses_are_distinct(port, other_port);
}

/// Every parachain node has its own address in the list, byte for byte and in its place.
pub proof fn law_every_parachain_node_has_its_address(nodes: Seq<&TestNode>)
    ensures
        parachain_addresses(nodes).len() == nodes.len(),
        forall|i: int|
            0 <= i < nodes.len() ==> {
                &&& (#[trigger] parachain_addresses(nodes)[i]).multiaddr
                    == nodes[i].addr.multiaddr.bytes@
                &&& parachain_addresses(nodes)[i].peer_id == nodes[i].addr.peer_id.bytes@
            },
{
}

/// A builder starts from what it was created with: no key to collate with, no node of either
/// chain, and nobody to keep to.
pub proof fn law_new_settings_hold_what_was_given<T>(
    para_id: ParaId,
    task_executor: T,
    key: Keyring,
)
    ensures
        NodeSettings::new(para_id, task_executor, key).para_id == para_id,
        NodeSettings::new(para_id, task_executor, key).task_executor == task_executor,
        NodeSettings::new(para_id, task_executor, key).key == key,
        NodeSettings::new(para_id, task_executor, key).collator_key is None,
        NodeSettings::new(para_id, task_executor, key).parachain_nodes.len() == 0,
        !NodeSettings::new(para_id, task_executor, key).parachain_nodes_exclusive,
        NodeSettings::new(para_id, task_executor, key).relay_chain_nodes.len() == 0,
{
}

/// Enabling a collator sets the key to collate with, and changes nothing else.
pub proof fn law_collator_key_is_all_that_changes<T>(settings: NodeSettings<T>, key: CollatorPair)
    ensures
        settings.with_collator_key(key).collator_key == Some(key),
        settings.with_collator_key(key).para_id == settings.para_id,
        settings.with_collator_key(key).task_executor == settings.task_executor,
        settings.with_collator_key(key).key == settings.key,
        settings.with_collator_key(key).parachain_nodes == settings.parachain_nodes,
        settings.with_collator_key(key).parachain_nodes_exclusive
            == settings.parachain_nodes_exclusive,
        settings.with_collator_key(key).relay_chain_nodes == settings.relay_chain_nodes,
{
}

/// Keeping to the registered nodes changes nothing else, neither the nodes nor whether the node
/// collates.
pub proof fn law_exclusiveness_is_all_that_changes<T>(settings: NodeSettings<T>)
    ensures
        settings.exclusive().parachain_nodes_exclusive,
        settings.exclusive().para_id == settings.para_id,
        settings.exclusive().task_executor == settings.task_executor,
        settings.exclusive().key == settings.key,
        settings.exclusive().collator_key == settings.collator_key,
        settings.exclusive().parachain_nodes == settings.parachain_nodes,
        settings.exclusive().relay_chain_nodes == settings.relay_chain_nodes,
{
}

/// Registering parachain nodes changes nothing but the parachain nodes, and registering relay
/// chain nodes nothing but the relay chain nodes.
pub proof fn law_registering_touches_one_chain<T>(
    settings: NodeSettings<T>,
    nodes: Seq<PeerAddress>,
)
    ensures
        settings.with_parachain_nodes(nodes).para_id == settings.para_id,
        settings.with_parachain_nodes(nodes).task_executor == settings.task_executor,
        settings.with_parachain_nodes(nodes).key == settings.key,
        settings.with_parachain_nodes(nodes).collator_key == settings.collator_key,
        settings.with_parachain_nodes(nodes).parachain_nodes_exclusive
            == settings.parachain_nodes_exclusive,
        settings.with_parachain_nodes(nodes).relay_chain_nodes == settings.relay_chain_nodes,
        settings.with_relay_chain_nodes(nodes).para_id == settings.para_id,
        settings.with_relay_chain_nodes(nodes).task_executor == settings.task_executor,
        settings.with_relay_chain_nodes(nodes).key == settings.key,
        settings.with_relay_chain_nodes(nodes).collator_key == settings.collator_key,
        settings.with_relay_chain_nodes(nodes).parachain_nodes == settings.parachain_nodes,
        settings.with_relay_chain_nodes(nodes).parachain_nodes_exclusive
            == settings.parachain_nodes_exclusive,
{
}

/// Registering keeps all nodes, however many there are: those that were registered stay where they
/// are, and each new one follows them in its place, unchanged.
pub proof fn law_registering_keeps_all_nodes<T>(settings: NodeSettings<T>, nodes: Seq<PeerAddress>)
    ensures
        settings.with_parachain_nodes(nodes).parachain_nodes.len() == settings.parachain_nodes.len()
            + nodes.len(),
        forall|i: int|
            0 <= i < settings.parachain_nodes.len() ==> #[trigger] settings.with_parachain_nodes(
                nodes,
            ).parachain_nodes[i] == settings.parachain_nodes[i],
        forall|i: int|
            0 <= i < nodes.len() ==> settings.with_parachain_nodes(
                nodes,
            ).parachain_nodes[settings.parachain_nodes.len() + i] == #[trigger] nodes[i],
        settings.with_relay_chain_nodes(nodes).relay_chain_nodes.len()
            == settings.relay_chain_nodes.len() + nodes.len(),
        forall|i: int|
            0 <= i < settings.relay_chain_nodes.len() ==> #[trigger] settings.with_relay_chain_nodes(
                nodes,
            ).relay_chain_nodes[i] == settings.relay_chain_nodes[i],
        forall|i: int|
            0 <= i < nodes.len() ==> settings.with_relay_chain_nodes(
                nodes,
            ).relay_chain_nodes[settings.relay_chain_nodes.len() + i] == #[trigger] nodes[i],
{
}

/// A node runs for the parachain that its builder was created with: its chain specification is the
/// one of that parachain, and so is every parachain that a step of its start names.
pub proof fn law_built_node_runs_for_its_parachain<T: Clone>(
    node: NodeBlueprint<T>,
    settings: NodeSettings<T>,
    base_path: Seq<char>,
    port: u64,
)
    requires
        node.is_of(settings, base_path, port),
    ensures
        node.parachain_config.chain_spec == settings.para_id,
        forall|i: int|
            0 <= i < node.start.steps().len() ==> (
            #[trigger] node.start.steps()[i] matches StartStep::NewBlockAnnounceValidator {
                para_id,
            } ==> para_id == settings.para_id),
        forall|i: int|
            0 <= i < node.start.steps().len() ==> (
            #[trigger] node.start.steps()[i] matches StartStep::StartCollator { para_id, .. }
                ==> para_id == settings.para_id),
        forall|i: int|
            0 <= i < node.start.steps().len() ==> (
            #[trigger] node.start.steps()[i] matches StartStep::StartFullNode { para_id }
                ==> para_id == settings.para_id),
{
    law_start_is_for_its_parachain(
        node.start.steps(),
        settings.collator_key,
        settings.para_id,
        false,
    );
}

/// A node collates with the very key that its builder was given, and reports to no metrics
/// registry. Its relay chain node is told a copy of that key.
pub proof fn law_built_node_uses_its_key<T: Clone>(
    node: NodeBlueprint<T>,
    settings: NodeSettings<T>,
    base_path: Seq<char>,
    port: u64,
)
    requires
        node.is_of(settings, base_path, port),
    ensures
        forall|i: int|
            0 <= i < node.start.steps().len() ==> (
            #[trigger] node.start.steps()[i] matches StartStep::StartCollator {
                collator_key,
                metrics,
                ..
            } ==> settings.collator_key == Some(collator_key) && !metrics),
        forall|i: int|
            0 <= i < node.start.steps().len() ==> (
            #[trigger] node.start.steps()[i] matches StartStep::NewRelayChainNode { is_collator }
                ==> match is_collator {
                IsCollator::Yes(copy) => settings.collator_key matches Some(key) && cloned(
                    key,
                    copy,
                ),
                IsCollator::No => settings.collator_key is None,
            }),
{
    law_start_uses_the_given_key(
        node.start.steps(),
        settings.collator_key,
        settings.para_id,
        false,
    );
}

/// Nothing of the start of a node has been done when it is built: all its steps are ahead, those of
/// a node of its parachain with its key, and preparing the configuration is the first.
pub proof fn law_built_node_has_not_started<T: Clone>(
    node: NodeBlueprint<T>,
    settings: NodeSettings<T>,
    base_path: Seq<char>,
    port: u64,
)
    requires
        node.is_of(settings, base_path, port),
    ensures
        node.start.progress().position == 0,
        !node.start.progress().failed,
        is_start(node.start.steps(), settings.collator_key, settings.para_id, false),
        node.start.next() == Some(StartStep::<CollatorPair>::PrepareNodeConfig),
{
}

/// The two sides of a node belong to the account and the executor that its builder was created
/// with. The relay chain side does not validate, and has every relay chain node that was
/// registered as a boot node, byte for byte and in its place.
pub proof fn law_relay_chain_side_follows_the_settings<T: Clone>(
    node: NodeBlueprint<T>,
    settings: NodeSettings<T>,
    base_path: Seq<char>,
    port: u64,
)
    requires
        node.is_of(settings, base_path, port),
    ensures
        node.relay_chain.key == settings.key,
        node.parachain_config.dev_key_seed matches Some(seed) && seed@ == settings.key.seed(),
        node.relay_chain.task_executor == settings.task_executor,
        cloned(settings.task_executor, node.parachain_config.task_executor),
        !node.relay_chain.is_validator,
        node.relay_chain.boot_nodes@.len() == settings.relay_chain_nodes.len(),
        forall|i: int|
            0 <= i < settings.relay_chain_nodes.len() ==> {
                &&& (#[trigger] node.relay_chain.boot_nodes@[i]).multiaddr.bytes@
                    == settings.relay_chain_nodes[i].multiaddr
                &&& node.relay_chain.boot_nodes@[i].peer_id.bytes@
                    == settings.relay_chain_nodes[i].peer_id
            },
{
    law_lists_say_what_their_entries_say(node.relay_chain.boot_nodes@);
}

/// The parachain side of a node listens in memory on its port only, writes below its directory,
/// and has every parachain node that was registered as a peer, byte for byte and in its place: as
/// a reserved node if it is to keep to them, and as a boot node if it is not.
pub proof fn law_parachain_side_follows_the_settings<T: Clone>(
    node: NodeBlueprint<T>,
    settings: NodeSettings<T>,
    base_path: Seq<char>,
    port: u64,
)
    requires
        node.is_of(settings, base_path, port),
    ensures
        node.multiaddr.bytes@ == memory_multiaddr(port),
        node.parachain_config.network.listen_addresses@.len() == 1,
        node.parachain_config.network.listen_addresses@[0].bytes@ == memory_multiaddr(port),
        node.parachain_config.network.transport == TransportConfig::MemoryOnly,
        node.parachain_config.network.allow_non_globals_in_dht,
        node.parachain_config.network.node_name@ == settings.key.seed() + " (parachain)"@,
        node.parachain_config.base_path matches Some(path) && path@ == base_path,
        node.parachain_config.role == if settings.collator_key is Some {
            Role::Authority
        } else {
            Role::Full
        },
        node.parachain_config.is_test_config(
            base_path,
            node.parachain_config.task_executor,
            settings.key,
            settings.parachain_nodes,
            settings.parachain_nodes_exclusive,
            settings.para_id,
            settings.collator_key is Some,
            port,
        ),
        ({
            let peers = if settings.parachain_nodes_exclusive {
                node.parachain_config.network.default_peers_set.reserved_nodes@
            } else {
                node.parachain_config.network.boot_nodes@
            };
            &&& peers.len() == settings.parachain_nodes.len()
            &&& forall|i: int|
                0 <= i < settings.parachain_nodes.len() ==> {
                    &&& (#[trigger] peers[i]).multiaddr.bytes@
                        == settings.parachain_nodes[i].multiaddr
                    &&& peers[i].peer_id.bytes@ == settings.parachain_nodes[i].peer_id
                }
        }),
{
    law_test_network_takes_every_node(
        node.parachain_config.network,
        settings.key.seed(),
        settings.parachain_nodes,
        settings.parachain_nodes_exclusive,
        port,
    );
}

} // verus!
