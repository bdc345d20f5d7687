//! Test nodes for a parachain: how a node is configured, whom it connects to and in which order
//! it is brought up.

pub mod address;
pub mod builder;
pub mod config;
pub mod genesis;
pub mod keyring;
pub mod plan;
pub mod relay_chain;
pub mod service;

pub use address::{Multiaddr, MultiaddrWithPeerId, PeerId};
pub use builder::{NodeBlueprint, TestNode, TestNodeBuilder};
pub use config::{node_config, node_config_on_port, Configuration, ParaId, Role};
pub use genesis::{genesis_plan, GenesisStep};
pub use keyring::Keyring;
pub use plan::{FailureKind, Outcome, Plan, RelayChainError, ServiceError, Step};
pub use relay_chain::{relay_chain_node_name, run_relay_chain_validator_node, PolkadotTestNode};
pub use service::{new_partial, start_node_impl, IsCollator, PartialStep, StartStep};
