//! The configuration of a test node.

use crate::address::{
    law_lists_say_what_their_entries_say, memory_address, memory_multiaddr, peer_addresses,
    Multiaddr, MultiaddrWithPeerId, PeerAddress,
};
use crate::keyring::{law_seeds_are_distinct, to_seed, Keyring};
use vstd::prelude::*;

verus! {

/// The number of a parachain on its relay chain.
#[derive(Debug, Clone, Copy, PartialEq, Eq, Structural)]
pub struct ParaId(pub u32);

/// The part that a node plays in its chain.
#[derive(Debug, Clone, Copy, PartialEq, Eq, Structural)]
pub enum Role {
    /// A regular full node.
    Full,
    /// A light client.
    Light,
    /// A node that takes part in producing blocks.
    Authority,
}

impl Role {
    /// Whether a node of this role takes part in producing blocks.
    pub fn is_authority(&self) -> (authority: bool)
        ensures
            authority == (*self == Role::Authority),
    {
        match self {
            Role::Authority => true,
            _ => false,
        }
    }
}

/// What a node does with peers that are not reserved.
#[derive(Debug, Clone, Copy, PartialEq, Eq, Structural)]
pub enum NonReservedPeerMode {
    /// Connect to them too.
    Accept,
    /// Refuse them.
    Deny,
}

/// The peers that a node keeps.
#[derive(Debug)]
pub struct SetConfig {
    /// Peers that the node always connects to.
    pub reserved_nodes: Vec<MultiaddrWithPeerId>,
    /// What happens to all other peers.
    pub non_reserved_mode: NonReservedPeerMode,
}

/// How a node reaches its peers.
#[derive(Debug, Clone, Copy, PartialEq, Eq, Structural)]
pub enum TransportConfig {
    /// Over the network.
    Normal,
    /// Inside this process only.
    MemoryOnly,
}

/// Where the network key of a node comes from.
#[derive(Debug, PartialEq, Eq)]
pub enum NodeKeyConfig {
    /// The networking layer's own default.
    Default,
    /// The file at this path.
    File(String),
}

/// The network side of a configuration.
#[derive(Debug)]
pub struct NetworkConfiguration {
    /// The name by which the node makes itself known.
    pub node_name: String,
    /// The version by which the node makes itself known.
    pub client_version: String,
    /// The network key.
    pub node_key: NodeKeyConfig,
    /// Where the network state is kept, if anywhere.
    pub net_config_path: Option<String>,
    /// The addresses on which the node listens.
    pub listen_addresses: Vec<Multiaddr>,
    /// The nodes that are asked for further peers.
    pub boot_nodes: Vec<MultiaddrWithPeerId>,
    /// The peers that the node keeps.
    pub default_peers_set: SetConfig,
    /// Whether addresses that only mean something locally may be stored in the DHT.
    pub allow_non_globals_in_dht: bool,
    /// How the node reaches its peers.
    pub transport: TransportConfig,
}

impl NetworkConfiguration {
    /// Whether the node knows no peer, listens nowhere and takes anybody.
    pub open spec fn is_unconnected(self) -> bool {
        &&& self.listen_addresses@ == Seq::<Multiaddr>::empty()
        &&& self.boot_nodes@ == Seq::<MultiaddrWithPeerId>::empty()
        &&& self.default_peers_set.reserved_nodes@ == Seq::<MultiaddrWithPeerId>::empty()
        &&& self.default_peers_set.non_reserved_mode == NonReservedPeerMode::Accept
        &&& !self.allow_non_globals_in_dht
        &&& self.transport == TransportConfig::Normal
    }

    /// The nodes that the node is told of.
    pub open spec fn known_peers(self) -> Seq<PeerAddress> {
        peer_addresses(self.default_peers_set.reserved_nodes@ + self.boot_nodes@)
    }

    /// Whether `nodes` are the peers that the node starts from: with `exclusive` they are
    /// reserved and nobody else is let in, otherwise they are boot nodes and the node may
    /// discover others.
    pub open spec fn connects_to(self, nodes: Seq<PeerAddress>, exclusive: bool) -> bool {
        if exclusive {
            &&& peer_addresses(self.default_peers_set.reserved_nodes@) == nodes
            &&& self.default_peers_set.non_reserved_mode == NonReservedPeerMode::Deny
            &&& self.boot_nodes@ == Seq::<MultiaddrWithPeerId>::empty()
        } else {
            &&& self.default_peers_set.reserved_nodes@ == Seq::<MultiaddrWithPeerId>::empty()
            &&& self.default_peers_set.non_reserved_mode == NonReservedPeerMode::Accept
            &&& peer_addresses(self.boot_nodes@) == nodes
        }
    }

    /// A configuration under which the node is not connected to anything.
    pub fn new(
        node_name: String,
        client_version: String,
        node_key: NodeKeyConfig,
        net_config_path: Option<String>,
    ) -> (config: Self)
        ensures
            config.node_name == node_name,
            config.client_version == client_version,
            config.node_key == node_key,
            config.net_config_path == net_config_path,
            config.is_unconnected(),
    {
        NetworkConfiguration {
            node_name,
            client_version,
            node_key,
            net_config_path,
            listen_addresses: Vec::new(),
            boot_nodes: Vec::new(),
            default_peers_set: SetConfig {
                reserved_nodes: Vec::new(),
                non_reserved_mode: NonReservedPeerMode::Accept,
            },
            allow_non_globals_in_dht: false,
            transport: TransportConfig::Normal,
        }
    }
}

/// How much a part of the transaction pool holds at most.
#[derive(Debug, Clone, Copy, PartialEq, Eq, Structural)]
pub struct PoolLimit {
    /// The number of transactions.
    pub count: usize,
    /// The size of all transactions together.
    pub total_bytes: usize,
}

/// The limits of the transaction pool.
#[derive(Debug, Clone, Copy, PartialEq, Eq, Structural)]
pub enum TransactionPoolOptions {
    /// The pool's own default.
    Default,
    /// These limits.
    Limited {
        /// For transactions that can be put into a block.
        ready: PoolLimit,
        /// For transactions that wait for others.
        future: PoolLimit,
    },
}

/// Where the keys of a node are kept.
#[derive(Debug, PartialEq, Eq)]
pub enum KeystoreConfig {
    /// Nowhere but in memory.
    InMemory,
    /// In the directory at this path.
    Path(String),
}

/// Where the chain is kept.
#[derive(Debug)]
pub enum DatabaseConfig {
    /// In a RocksDB database in the directory `directory` of `root`.
    RocksDb {
        root: String,
        directory: String,
        /// Cache size in mebibytes.
        cache_size: usize,
    },
    /// In a ParityDb database in the directory `directory` of `root`.
    ParityDb {
        root: String,
        directory: String,
    },
}

/// Which states are kept.
#[derive(Debug, Clone, Copy, PartialEq, Eq, Structural)]
pub enum PruningMode {
    /// All of them.
    ArchiveAll,
    /// Those of the canonical chain.
    ArchiveCanonical,
    /// Those of the latest blocks, at most this many.
    Constrained(u32),
}

/// Which blocks are kept.
#[derive(Debug, Clone, Copy, PartialEq, Eq, Structural)]
pub enum KeepBlocks {
    /// All of them.
    All,
    /// The latest ones, this many.
    Latest(u32),
}

/// How transactions are kept.
#[derive(Debug, Clone, Copy, PartialEq, Eq, Structural)]
pub enum TransactionStorageMode {
    /// As part of the body of their block.
    BlockBody,
    /// Apart from their block, each of them once.
    StorageChain,
}

/// How the runtime's WebAssembly code is executed.
#[derive(Debug, Clone, Copy, PartialEq, Eq, Structural)]
pub enum WasmExecutionMethod {
    /// By an interpreter.
    Interpreted,
    /// Compiled to native code.
    Compiled,
}

/// When the native runtime is used.
#[derive(Debug, Clone, Copy, PartialEq, Eq, Structural)]
pub enum ExecutionStrategy {
    /// Wherever it is compatible with the one on the chain.
    NativeWhenPossible,
    /// Never.
    AlwaysWasm,
    /// Together with the one on the chain, to compare them.
    Both,
    /// First, and where it fails the one on the chain.
    NativeElseWasm,
}

/// The execution strategy of each kind of runtime call.
#[derive(Debug, Clone, Copy, PartialEq, Eq, Structural)]
pub struct ExecutionStrategies {
    pub syncing: ExecutionStrategy,
    pub importing: ExecutionStrategy,
    pub block_construction: ExecutionStrategy,
    pub offchain_worker: ExecutionStrategy,
    pub other: ExecutionStrategy,
}

/// Which RPC methods are offered.
#[derive(Debug, Clone, Copy, PartialEq, Eq, Structural)]
pub enum RpcMethods {
    /// The RPC server's own default.
    Default,
    /// Those that do no harm.
    Safe,
    /// All of them.
    Unsafe,
}

/// Where traces go.
#[derive(Debug, Clone, Copy, PartialEq, Eq, Structural)]
pub enum TracingReceiver {
    /// The tracing layer's own default.
    Default,
    /// The log.
    Log,
}

/// How status lines look.
#[derive(Debug, Clone, Copy, PartialEq, Eq, Structural)]
pub enum OutputFormat {
    /// The informant's own default.
    Default,
    /// In colour.
    Coloured,
    /// Without colour.
    Plain,
}

/// A way of watching the node from outside.
#[derive(Debug, PartialEq, Eq)]
pub enum Monitoring {
    /// It is not set up.
    Off,
    /// It goes over this endpoint.
    On(String),
}

impl Monitoring {
    /// Whether it is set up.
    pub fn is_on(&self) -> (on: bool)
        ensures
            on == (self is On),
    {
        match self {
            Monitoring::Off => false,
            Monitoring::On(_) => true,
        }
    }
}

/// What the offchain worker may do.
#[derive(Debug, Clone, Copy, PartialEq, Eq, Structural)]
pub struct OffchainWorkerConfig {
    pub enabled: bool,
    pub indexing_enabled: bool,
}

/// The configuration of a node. `T` is a handle on the executor of its tasks, which is only
/// passed on.
#[derive(Debug)]
pub struct Configuration<T> {
    pub impl_name: String,
    pub impl_version: String,
    pub role: Role,
    pub task_executor: T,
    pub transaction_pool: TransactionPoolOptions,
    pub network: NetworkConfiguration,
    pub keystore: KeystoreConfig,
    /// The URL of a remote keystore.
    pub keystore_remote: Option<String>,
    pub database: DatabaseConfig,
    /// Bytes of state that are cached.
    pub state_cache_size: usize,
    pub state_cache_child_ratio: Option<usize>,
    pub state_pruning: PruningMode,
    pub keep_blocks: KeepBlocks,
    pub transaction_storage: TransactionStorageMode,
    /// The chain specification is the one of this parachain.
    pub chain_spec: ParaId,
    pub wasm_method: WasmExecutionMethod,
    pub execution_strategies: ExecutionStrategies,
    /// The socket address of the HTTP RPC server.
    pub rpc_http: Option<String>,
    /// The socket address of the websocket RPC server.
    pub rpc_ws: Option<String>,
    /// The path of the IPC RPC server.
    pub rpc_ipc: Option<String>,
    pub rpc_ws_max_connections: Option<usize>,
    pub rpc_cors: Option<Vec<String>>,
    pub rpc_methods: RpcMethods,
    pub prometheus_config: Monitoring,
    pub telemetry_endpoints: Monitoring,
    /// Whether telemetry goes over a transport other than the built-in one.
    pub telemetry_external_transport: bool,
    pub default_heap_pages: Option<u64>,
    pub offchain_worker: OffchainWorkerConfig,
    pub force_authoring: bool,
    pub disable_grandpa: bool,
    /// The seed of a development key.
    pub dev_key_seed: Option<String>,
    pub tracing_targets: Option<String>,
    pub tracing_receiver: TracingReceiver,
    pub max_runtime_instances: usize,
    pub announce_block: bool,
    /// The directory that holds everything the node writes.
    pub base_path: Option<String>,
    pub informant_output_format: OutputFormat,
    /// The directory of runtimes that replace those on the chain.
    pub wasm_runtime_overrides: Option<String>,
    pub disable_log_reloading: bool,
}

/// The name of the parachain node of the account with the seed `seed`.
pub open spec fn parachain_name(seed: Seq<char>) -> Seq<char> {
    seed + " (parachain)"@
}

/// The role of a test node: an authority collates, any other node is a full node.
pub open spec fn role_of(is_collator: bool) -> Role {
    if is_collator {
        Role::Authority
    } else {
        Role::Full
    }
}

impl NetworkConfiguration {
    /// Whether this is the network of a test node with the seed `seed`, which listens on `port`
    /// of the memory transport.
    pub open spec fn is_test_network(
        self,
        seed: Seq<char>,
        nodes: Seq<PeerAddress>,
        nodes_exclusive: bool,
        port: u64,
    ) -> bool {
        &&& self.node_name@ == parachain_name(seed)
        &&& self.client_version@ == "network/test/0.1"@
        &&& self.node_key == NodeKeyConfig::Default
        &&& self.net_config_path is None
        &&& self.listen_addresses@.len() == 1
        &&& self.listen_addresses@[0]@ == memory_multiaddr(port)
        &&& self.connects_to(nodes, nodes_exclusive)
        &&& self.allow_non_globals_in_dht
        &&& self.transport == TransportConfig::MemoryOnly
    }
}

impl<T> Configuration<T> {
    /// Whether everything is stored below `base_path`, and the database in its directory `db`.
    pub open spec fn stores_below(self, base_path: Seq<char>) -> bool {
        &&& self.base_path matches Some(path) && path@ == base_path
        &&& self.database matches DatabaseConfig::RocksDb { root, directory, cache_size }
            && root@ == base_path && directory@ == "db"@ && cache_size == 128
    }

    /// Whether the node keeps all blocks and states.
    pub open spec fn keeps_everything(self) -> bool {
        &&& self.state_pruning == PruningMode::ArchiveAll
        &&& self.keep_blocks == KeepBlocks::All
        &&& self.transaction_storage == TransactionStorageMode::BlockBody
        &&& self.state_cache_size == 67108864
        &&& self.state_cache_child_ratio is None
    }

    /// Whether the native runtime is used wherever possible, which makes errors easier to trace.
    pub open spec fn prefers_native_runtime(self) -> bool {
        &&& self.wasm_method == WasmExecutionMethod::Interpreted
        &&& self.execution_strategies.syncing == ExecutionStrategy::NativeWhenPossible
        &&& self.execution_strategies.importing == ExecutionStrategy::NativeWhenPossible
        &&& self.execution_strategies.block_construction == ExecutionStrategy::NativeWhenPossible
        &&& self.execution_strategies.offchain_worker == ExecutionStrategy::NativeWhenPossible
        &&& self.execution_strategies.other == ExecutionStrategy::NativeWhenPossible
        &&& self.default_heap_pages is None
        &&& self.max_runtime_instances == 8
        &&& self.wasm_runtime_overrides is None
    }

    /// Whether the node offers no RPC server, no metrics and no telemetry.
    pub open spec fn offers_no_endpoint(self) -> bool {
        &&& self.rpc_http is None
        &&& self.rpc_ws is None
        &&& self.rpc_ipc is None
        &&& self.rpc_ws_max_connections is None
        &&& self.rpc_cors is None
        &&& self.rpc_methods == RpcMethods::Default
        &&& self.prometheus_config == Monitoring::Off
        &&& self.telemetry_endpoints == Monitoring::Off
        &&& !self.telemetry_external_transport
        &&& self.tracing_targets is None
        &&& self.tracing_receiver == TracingReceiver::Default
        &&& self.informant_output_format == OutputFormat::Default
        &&& !self.disable_log_reloading
    }

    /// Whether this is the configuration of a test node of the account `key`, which listens on
    /// `port` of the memory transport.
    pub open spec fn is_test_config(
        self,
        base_path: Seq<char>,
        task_executor: T,
        key: Keyring,
        nodes: Seq<PeerAddress>,
        nodes_exclusive: bool,
        para_id: ParaId,
        is_collator: bool,
        port: u64,
    ) -> bool {
        &&& self.impl_name@ == "cumulus-test-node"@
        &&& self.impl_version@ == "0.1"@
        &&& self.role == role_of(is_collator)
        &&& self.task_executor == task_executor
        &&& self.transaction_pool == TransactionPoolOptions::Default
        &&& self.network.is_test_network(key.seed(), nodes, nodes_exclusive, port)
        &&& self.keystore == KeystoreConfig::InMemory
        &&& self.keystore_remote is None
        &&& self.chain_spec == para_id
        &&& self.stores_below(base_path)
        &&& self.keeps_everything()
        &&& self.prefers_native_runtime()
        &&& self.offers_no_endpoint()
        &&& self.offchain_worker.enabled
        &&& !self.offchain_worker.indexing_enabled
        &&& !self.force_authoring
        &&& !self.disable_grandpa
        &&& self.dev_key_seed matches Some(seed) && seed@ == key.seed()
        &&& self.announce_block
    }
}

/// `rand::random`: a number drawn from a generator that is seeded by the operating system. Nothing
/// is claimed of it: every number may come back.
#[verifier::external_body]
fn random_port() -> (port: u64) {
    rand::random()
}

/// Whether `port` can come of drawing a port at random.
pub closed spec fn is_drawn_port(port: u64) -> bool {
    call_ensures(random_port, (), port)
}

/// No port counts as drawn but one that the generator of random numbers hands out.
proof fn law_drawn_ports_come_from_the_generator(port: u64)
    ensures
        is_drawn_port(port) <==> call_ensures(random_port, (), port),
{
}

/// Draw a port of the memory transport at random.
pub(crate) fn draw_port() -> (port: u64)
    ensures
        is_drawn_port(port),
{
    random_port()
}

/// The network of a test node that listens on `port` of the memory transport.
///
/// If `nodes_exclusive` is `true`, the node will only connect to the given `nodes` and not to any
/// other node.
fn test_network(
    key_seed: &String,
    nodes: Vec<MultiaddrWithPeerId>,
    nodes_exclusive: bool,
    port: u64,
) -> (network: NetworkConfiguration)
    ensures
        network.is_test_network(key_seed@, peer_addresses(nodes@), nodes_exclusive, port),
{
    let mut network = NetworkConfiguration::new(
        key_seed.clone().concat(" (parachain)"),
        "network/test/0.1".to_string(),
        NodeKeyConfig::Default,
        None,
    );
    if nodes_exclusive {
        network.default_peers_set.reserved_nodes = nodes;
        network.default_peers_set.non_reserved_mode = NonReservedPeerMode::Deny;
    } else {
        network.boot_nodes = nodes;
    }
    network.allow_non_globals_in_dht = true;
    network.listen_addresses.push(memory_address(port));
    network.transport = TransportConfig::MemoryOnly;
    network
}

/// Create the configuration of a test node that listens on `port` of the memory transport.
///
/// `base_path` is what came of creating a temporary directory for the node.
pub fn node_config_on_port<T, E>(
    base_path: Result<String, E>,
    task_executor: T,
    key: Keyring,
    nodes: Vec<MultiaddrWithPeerId>,
    nodes_exclusive: bool,
    para_id: ParaId,
    is_collator: bool,
    port: u64,
) -> (config: Result<Configuration<T>, E>)
    ensures
        match base_path {
            Ok(path) => config matches Ok(c) && c.is_test_config(
                path@,
                task_executor,
                key,
                peer_addresses(nodes@),
                nodes_exclusive,
                para_id,
                is_collator,
                port,
            ),
            Err(error) => config == Err::<Configuration<T>, E>(error),
        },
{
    let base_path = match base_path {
        Ok(path) => path,
        Err(error) => return Err(error),
    };
    let role = if is_collator {
        Role::Authority
    } else {
        Role::Full
    };
    let key_seed = to_seed(key);
    let network = test_network(&key_seed, nodes, nodes_exclusive, port);
    Ok(
        Configuration {
            impl_name: "cumulus-test-node".to_string(),
            impl_version: "0.1".to_string(),
            role,
            task_executor,
            transaction_pool: TransactionPoolOptions::Default,
            network,
            keystore: KeystoreConfig::InMemory,
            keystore_remote: None,
            database: DatabaseConfig::RocksDb {
                root: base_path.clone(),
                directory: "db".to_string(),
                cache_size: 128,
            },
            state_cache_size: 67108864,
            state_cache_child_ratio: None,
            state_pruning: PruningMode::ArchiveAll,
            keep_blocks: KeepBlocks::All,
            transaction_storage: TransactionStorageMode::BlockBody,
            chain_spec: para_id,
            wasm_method: WasmExecutionMethod::Interpreted,
            // NOTE: we enforce the use of the native runtime to make the errors more debuggable
            execution_strategies: ExecutionStrategies {
                syncing: ExecutionStrategy::NativeWhenPossible,
                importing: ExecutionStrategy::NativeWhenPossible,
                block_construction: ExecutionStrategy::NativeWhenPossible,
                offchain_worker: ExecutionStrategy::NativeWhenPossible,
                other: ExecutionStrategy::NativeWhenPossible,
            },
            rpc_http: None,
            rpc_ws: None,
            rpc_ipc: None,
            rpc_ws_max_connections: None,
            rpc_cors: None,
            rpc_methods: RpcMethods::Default,
            prometheus_config: Monitoring::Off,
            telemetry_endpoints: Monitoring::Off,
            telemetry_external_transport: false,
            default_heap_pages: None,
            offchain_worker: OffchainWorkerConfig { enabled: true, indexing_enabled: false },
            force_authoring: false,
            disable_grandpa: false,
            dev_key_seed: Some(key_seed),
            tracing_targets: None,
            tracing_receiver: TracingReceiver::Default,
            max_runtime_instances: 8,
            announce_block: true,
            base_path: Some(base_path),
            informant_output_format: OutputFormat::Default,
            wasm_runtime_overrides: None,
            disable_log_reloading: false,
        },
    )
}

/// Create the configuration of a test node.
///
/// The node listens on a random port of the memory transport, therefore you need to provide nodes
/// if you want the node to be connected to other nodes. If `nodes_exclusive` is `true`, the node
/// will only connect to the given `nodes` and not to any other node. `base_path` is what came of
/// creating a temporary directory for the node.
pub fn node_config<T, E>(
    base_path: Result<String, E>,
    task_executor: T,
    key: Keyring,
    nodes: Vec<MultiaddrWithPeerId>,
    nodes_exclusive: bool,
    para_id: ParaId,
    is_collator: bool,
) -> (config: Result<Configuration<T>, E>)
    ensures
        match base_path {
            Ok(path) => config matches Ok(c) && exists|port: u64|
                is_drawn_port(port) && #[trigger] c.is_test_config(
                    path@,
                    task_executor,
                    key,
                    peer_addresses(nodes@),
                    nodes_exclusive,
                    para_id,
                    is_collator,
                    port,
                ),
            Err(error) => config == Err::<Configuration<T>, E>(error),
        },
{
    let port: u64 = draw_port();
    node_config_on_port(
        base_path,
        task_executor,
        key,
        nodes,
        nodes_exclusive,
        para_id,
        is_collator,
        port,
    )
}

/// The parachain nodes of different accounts have different names.
pub proof fn law_accounts_have_distinct_names(a: Keyring, b: Keyring)
    ensures
        parachain_name(a.seed()) == parachain_name(b.seed()) <==> a == b,
{
    if parachain_name(a.seed()) == parachain_name(b.seed()) {
        let length = parachain_name(a.seed()).len() - " (parachain)"@.len();
        assert(a.seed() =~= parachain_name(a.seed()).take(length));
        assert(b.seed() =~= parachain_name(b.seed()).take(length));
        law_seeds_are_distinct(a, b);
    }
}

/// The node is told of the given nodes, in their order, and of no others, whether or not it is to
/// keep to them. It refuses all others if and only if it is.
pub proof fn law_given_nodes_are_the_known_peers(
    network: NetworkConfiguration,
    nodes: Seq<PeerAddress>,
    exclusive: bool,
)
    requires
        network.connects_to(nodes, exclusive),
    ensures
        network.known_peers() == nodes,
        network.default_peers_set.non_reserved_mode == NonReservedPeerMode::Deny <==> exclusive,
{
    let reserved = network.default_peers_set.reserved_nodes@;
    let boot = network.boot_nodes@;
    assert(peer_addresses(reserved + boot) =~= peer_addresses(reserved) + peer_addresses(boot));
    assert(network.known_peers() =~= nodes);
}

/// A configuration that is not connected to anything has no address, no peer, and neither lets
/// local addresses into the DHT nor keeps anybody out.
pub proof fn law_unconnected_knows_nobody(network: NetworkConfiguration)
    requires
        network.is_unconnected(),
    ensures
        network.listen_addresses@.len() == 0,
        network.boot_nodes@.len() == 0,
        network.default_peers_set.reserved_nodes@.len() == 0,
        network.default_peers_set.non_reserved_mode == NonReservedPeerMode::Accept,
        !network.allow_non_globals_in_dht,
        network.transport == TransportConfig::Normal,
{
}

/// The name of a parachain node is the seed of its account, unchanged, and a mark in brackets that
/// is the same for all.
pub proof fn law_parachain_name_marks_the_seed(seed: Seq<char>)
    ensures
        parachain_name(seed).take(seed.len() as int) == seed,
        parachain_name(seed).skip(seed.len() as int) == " (parachain)"@,
{
}

/// A test node never leaves the process, whomever it is told of: it reaches its peers in memory
/// only, listens on the port that it was given and nowhere else, and may store local addresses in
/// the DHT.
pub proof fn law_test_network_stays_in_memory(
    network: NetworkConfiguration,
    seed: Seq<char>,
    nodes: Seq<PeerAddress>,
    nodes_exclusive: bool,
    port: u64,
)
    requires
        network.is_test_network(seed, nodes, nodes_exclusive, port),
    ensures
        network.transport == TransportConfig::MemoryOnly,
        network.allow_non_globals_in_dht,
        network.listen_addresses@.len() == 1,
        network.listen_addresses@[0].bytes@ == memory_multiaddr(port),
        network.node_key == NodeKeyConfig::Default,
        network.net_config_path is None,
        network.client_version@ == "network/test/0.1"@,
        network.node_name@ == seed + " (parachain)"@,
{
}

/// Each of the given nodes becomes a peer, byte for byte and in its place. They are reserved, with
/// no boot node and nobody else let in, if the node is to keep to them, and are boot nodes, with
/// nothing reserved and anybody let in, if it is not.
pub proof fn law_test_network_takes_every_node(
    network: NetworkConfiguration,
    seed: Seq<char>,
    nodes: Seq<PeerAddress>,
    nodes_exclusive: bool,
    port: u64,
)
    requires
        network.is_test_network(seed, nodes, nodes_exclusive, port),
    ensures
        nodes_exclusive ==> {
            &&& network.default_peers_set.non_reserved_mode == NonReservedPeerMode::Deny
            &&& network.boot_nodes@.len() == 0
            &&& network.default_peers_set.reserved_nodes@.len() == nodes.len()
            &&& forall|i: int|
                0 <= i < nodes.len() ==> {
                    let peer = #[trigger] network.default_peers_set.reserved_nodes@[i];
                    peer.multiaddr.bytes@ == nodes[i].multiaddr && peer.peer_id.bytes@
                        == nodes[i].peer_id
                }
        },
        !nodes_exclusive ==> {
            &&& network.default_peers_set.non_reserved_mode == NonReservedPeerMode::Accept
            &&& network.default_peers_set.reserved_nodes@.len() == 0
            &&& network.boot_nodes@.len() == nodes.len()
            &&& forall|i: int|
                0 <= i < nodes.len() ==> {
                    let peer = #[trigger] network.boot_nodes@[i];
                    peer.multiaddr.bytes@ == nodes[i].multiaddr && peer.peer_id.bytes@
                        == nodes[i].peer_id
                }
        },
{
    law_lists_say_what_their_entries_say(network.default_peers_set.reserved_nodes@);
    law_lists_say_what_their_entries_say(network.boot_nodes@);
}

/// Of two test networks that differ only in whether the node keeps to the given nodes, everything
/// is the same but the peers: what is reserved in the one are the boot nodes of the other.
pub proof fn law_keeping_to_nodes_changes_only_the_peers(
    keeping: NetworkConfiguration,
    open_to_all: NetworkConfiguration,
    seed: Seq<char>,
    nodes: Seq<PeerAddress>,
    port: u64,
)
    requires
        keeping.is_test_network(seed, nodes, true, port),
        open_to_all.is_test_network(seed, nodes, false, port),
    ensures
        keeping.transport == TransportConfig::MemoryOnly,
        open_to_all.transport == TransportConfig::MemoryOnly,
        keeping.allow_non_globals_in_dht == open_to_all.allow_non_globals_in_dht,
        keeping.node_name@ == open_to_all.node_name@,
        keeping.client_version@ == open_to_all.client_version@,
        keeping.node_key == open_to_all.node_key,
        keeping.net_config_path == open_to_all.net_config_path,
        keeping.listen_addresses@.len() == open_to_all.listen_addresses@.len(),
        forall|i: int|
            0 <= i < keeping.listen_addresses@.len() ==> (
            #[trigger] keeping.listen_addresses@[i]).bytes@
                == open_to_all.listen_addresses@[i].bytes@,
        peer_addresses(keeping.default_peers_set.reserved_nodes@) == peer_addresses(
            open_to_all.boot_nodes@,
        ),
        keeping.boot_nodes@.len() == 0,
        open_to_all.default_peers_set.reserved_nodes@.len() == 0,
        keeping.default_peers_set.non_reserved_mode
            != open_to_all.default_peers_set.non_reserved_mode,
{
}

/// The configuration is for the parachain, the account and the executor that it was made for. The
/// node is an authority if it collates and a full node if it does not, and its name is the seed of
/// its development key with the mark of the parachain.
pub proof fn law_config_is_for_its_node<T>(
    config: Configuration<T>,
    base_path: Seq<char>,
    task_executor: T,
    key: Keyring,
    nodes: Seq<PeerAddress>,
    nodes_exclusive: bool,
    para_id: ParaId,
    is_collator: bool,
    port: u64,
)
    requires
        config.is_test_config(
            base_path,
            task_executor,
            key,
            nodes,
            nodes_exclusive,
            para_id,
            is_collator,
            port,
        ),
    ensures
        config.chain_spec == para_id,
        config.task_executor == task_executor,
        is_collator ==> config.role == Role::Authority,
        !is_collator ==> config.role == Role::Full,
        config.dev_key_seed matches Some(seed) && seed@ == key.seed() && config.network.node_name@
            == seed@ + " (parachain)"@,
        config.impl_name@ == "cumulus-test-node"@,
        config.impl_version@ == "0.1"@,
        config.network.is_test_network(key.seed(), nodes, nodes_exclusive, port),
{
}

/// All that a test node writes is below the directory it was given, the chain in a database of its
/// own there, and its keys are written nowhere.
pub proof fn law_config_writes_below_its_directory<T>(
    config: Configuration<T>,
    base_path: Seq<char>,
    task_executor: T,
    key: Keyring,
    nodes: Seq<PeerAddress>,
    nodes_exclusive: bool,
    para_id: ParaId,
    is_collator: bool,
    port: u64,
)
    requires
        config.is_test_config(
            base_path,
            task_executor,
            key,
            nodes,
            nodes_exclusive,
            para_id,
            is_collator,
            port,
        ),
    ensures
        config.base_path matches Some(path) && path@ == base_path,
        config.database matches DatabaseConfig::RocksDb { root, directory, cache_size } && root@
            == base_path && directory@ == "db"@ && cache_size == 128,
        config.network.net_config_path is None,
        config.keystore == KeystoreConfig::InMemory,
        config.keystore_remote is None,
{
}

/// A test node forgets no block, no state and no transaction, and caches the same amount of state
/// whatever else it is told.
pub proof fn law_config_forgets_nothing<T>(
    config: Configuration<T>,
    base_path: Seq<char>,
    task_executor: T,
    key: Keyring,
    nodes: Seq<PeerAddress>,
    nodes_exclusive: bool,
    para_id: ParaId,
    is_collator: bool,
    port: u64,
)
    requires
        config.is_test_config(
            base_path,
            task_executor,
            key,
            nodes,
            nodes_exclusive,
            para_id,
            is_collator,
            port,
        ),
    ensures
        config.state_pruning == PruningMode::ArchiveAll,
        config.keep_blocks == KeepBlocks::All,
        config.transaction_storage == TransactionStorageMode::BlockBody,
        config.state_cache_size == 64 * 1024 * 1024,
        config.state_cache_child_ratio is None,
{
}

/// A test node runs every kind of runtime call natively where it can, and interprets the runtime
/// on the chain where it cannot.
pub proof fn law_config_runs_natively<T>(
    config: Configuration<T>,
    base_path: Seq<char>,
    task_executor: T,
    key: Keyring,
    nodes: Seq<PeerAddress>,
    nodes_exclusive: bool,
    para_id: ParaId,
    is_collator: bool,
    port: u64,
)
    requires
        config.is_test_config(
            base_path,
            task_executor,
            key,
            nodes,
            nodes_exclusive,
            para_id,
            is_collator,
            port,
        ),
    ensures
        config.wasm_method == WasmExecutionMethod::Interpreted,
        config.execution_strategies == (ExecutionStrategies {
            syncing: ExecutionStrategy::NativeWhenPossible,
            importing: ExecutionStrategy::NativeWhenPossible,
            block_construction: ExecutionStrategy::NativeWhenPossible,
            offchain_worker: ExecutionStrategy::NativeWhenPossible,
            other: ExecutionStrategy::NativeWhenPossible,
        }),
        config.default_heap_pages is None,
        config.max_runtime_instances == 8,
        config.wasm_runtime_overrides is None,
        config.offchain_worker == (OffchainWorkerConfig { enabled: true, indexing_enabled: false }),
{
}

/// Nobody can watch or control a test node from outside the process: it serves no RPC over any
/// transport, reports no metrics, sends no telemetry and writes no traces.
pub proof fn law_config_is_closed_to_the_outside<T>(
    config: Configuration<T>,
    base_path: Seq<char>,
    task_executor: T,
    key: Keyring,
    nodes: Seq<PeerAddress>,
    nodes_exclusive: bool,
    para_id: ParaId,
    is_collator: bool,
    port: u64,
)
    requires
        config.is_test_config(
            base_path,
            task_executor,
            key,
            nodes,
            nodes_exclusive,
            para_id,
            is_collator,
            port,
        ),
    ensures
        config.rpc_http is None,
        config.rpc_ws is None,
        config.rpc_ipc is None,
        config.rpc_ws_max_connections is None,
        config.rpc_cors is None,
        config.rpc_methods == RpcMethods::Default,
        config.prometheus_config is Off,
        config.telemetry_endpoints is Off,
        !config.telemetry_external_transport,
        config.tracing_targets is None,
        config.tracing_receiver == TracingReceiver::Default,
        config.informant_output_format == OutputFormat::Default,
        !config.disable_log_reloading,
        config.network.transport == TransportConfig::MemoryOnly,
{
}

/// A test node announces its blocks and authors only when it is its turn, with finality and the
/// transaction pool as they are by default.
pub proof fn law_config_takes_part_in_the_chain<T>(
    config: Configuration<T>,
    base_path: Seq<char>,
    task_executor: T,
    key: Keyring,
    nodes: Seq<PeerAddress>,
    nodes_exclusive: bool,
    para_id: ParaId,
    is_collator: bool,
    port: u64,
)
    requires
        config.is_test_config(
            base_path,
            task_executor,
            key,
            nodes,
            nodes_exclusive,
            para_id,
            is_collator,
            port,
        ),
    ensures
        config.announce_block,
        !config.force_authoring,
        !config.disable_grandpa,
        config.transaction_pool == TransactionPoolOptions::Default,
{
}

} // verus!
