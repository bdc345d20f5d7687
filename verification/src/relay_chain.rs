//! The relay chain side of test nodes.

use crate::address::{MultiaddrWithPeerId, PeerAddress};
use crate::config::parachain_name;
use crate::keyring::Keyring;
use vstd::prelude::*;

verus! {

/// A test node of the relay chain.
#[derive(Debug)]
pub struct PolkadotTestNode {
    /// The address of this node.
    pub addr: MultiaddrWithPeerId,
}

/// The addresses of nodes of the relay chain.
pub open spec fn relay_chain_addresses(nodes: Seq<&PolkadotTestNode>) -> Seq<PeerAddress> {
    nodes.map_values(|node: &PolkadotTestNode| node.addr@)
}

/// What is needed to configure the relay chain node of a test node.
#[derive(Debug)]
pub struct RelayChainArguments<T> {
    pub task_executor: T,
    pub key: Keyring,
    pub boot_nodes: Vec<MultiaddrWithPeerId>,
    pub is_validator: bool,
}

/// What a validator of the relay chain is run with.
#[derive(Debug)]
pub struct ValidatorArguments<T> {
    pub task_executor: T,
    pub key: Keyring,
    pub boot_nodes: Vec<MultiaddrWithPeerId>,
    /// The program that executes parachain blocks for the validator.
    pub worker_program_path: Option<String>,
}

/// Prepare to run a relay-chain validator node, which leaves the execution of parachain blocks to
/// the program `validation_worker`.
pub fn run_relay_chain_validator_node<T>(
    task_executor: T,
    key: Keyring,
    boot_nodes: Vec<MultiaddrWithPeerId>,
    validation_worker: &str,
) -> (arguments: ValidatorArguments<T>)
    ensures
        arguments.task_executor == task_executor,
        arguments.key == key,
        arguments.boot_nodes == boot_nodes,
        arguments.worker_program_path matches Some(path) && path@ == validation_worker@,
{
    ValidatorArguments {
        task_executor,
        key,
        boot_nodes,
        worker_program_path: Some(validation_worker.to_string()),
    }
}

/// The name of the relay chain node that is otherwise named `name`.
pub open spec fn relay_chain_name(name: Seq<char>) -> Seq<char> {
    name + " (relay chain)"@
}

/// Mark the name of a node as that of a relay chain node.
pub fn relay_chain_node_name(name: String) -> (marked: String)
    ensures
        marked@ == relay_chain_name(name@),
{
    name.concat(" (relay chain)")
}

/// No parachain node has the name of a relay chain node.
pub proof fn law_chains_have_distinct_names(seed: Seq<char>, name: Seq<char>)
    ensures
        parachain_name(seed) != relay_chain_name(name),
{
    reveal_strlit(" (parachain)");
    reveal_strlit(" (relay chain)");
    let left = parachain_name(seed);
    let right = relay_chain_name(name);
    if left == right {
        // Seven characters from the end stand the second `a` of "parachain" and a space.
        assert(left[left.len() - 7] == 'a');
        assert(right[right.len() - 7] == ' ');
    }
}

/// The mark follows the name, which is left as it is, and is the same for all names. Different
/// names stay different.
pub proof fn law_relay_chain_name_marks_the_name(name: Seq<char>, other: Seq<char>)
    ensures
        relay_chain_name(name).take(name.len() as int) == name,
        relay_chain_name(name).skip(name.len() as int) == " (relay chain)"@,
        relay_chain_name(name) == relay_chain_name(other) <==> name == other,
{
    assert(relay_chain_name(name).take(name.len() as int) =~= name);
    assert(relay_chain_name(other).take(other.len() as int) =~= other);
}

/// Every relay chain node has its own address in the list, byte for byte and in its place.
pub proof fn law_every_relay_chain_node_has_its_address(nodes: Seq<&PolkadotTestNode>)
    ensures
        relay_chain_addresses(nodes).len() == nodes.len(),
        forall|i: int|
            0 <= i < nodes.len() ==> {
                &&& (#[trigger] relay_chain_addresses(nodes)[i]).multiaddr
                    == nodes[i].addr.multiaddr.bytes@
                &&& relay_chain_addresses(nodes)[i].peer_id == nodes[i].addr.peer_id.bytes@
            },
{
}

} // verus!
