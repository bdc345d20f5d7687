//! The order in which the parts of a node are brought up.

use crate::config::{Configuration, ParaId, Role, TransactionPoolOptions};
use crate::plan::{
    law_failure_stops, lemma_first_failure, FailureKind, Outcome, Plan, Progress, ServiceError, Step,
};
use vstd::prelude::*;

verus! {

/// A step towards the parts of a node that chain operations need.
#[derive(Debug, Clone, Copy, PartialEq, Eq, Structural)]
pub enum PartialStep {
    /// Create the client, the backend, the keystore and the task manager.
    NewFullParts,
    /// Create the transaction pool within its limits. It has to know whether it serves an
    /// authority, and whether it reports to the node's metrics registry.
    NewTransactionPool { options: TransactionPoolOptions, is_authority: bool, metrics: bool },
    /// Create the queue through which blocks are imported, and which may report to the node's
    /// metrics registry.
    NewImportQueue { metrics: bool },
    /// Put the parts together.
    Assemble,
}

impl Step for PartialStep {
    open spec fn fails_in(self) -> FailureKind {
        match self {
            PartialStep::NewFullParts => FailureKind::Service,
            PartialStep::NewTransactionPool { .. } => FailureKind::Never,
            PartialStep::NewImportQueue { .. } => FailureKind::Service,
            PartialStep::Assemble => FailureKind::Never,
        }
    }

    fn failure_kind(&self) -> (kind: FailureKind) {
        match self {
            PartialStep::NewFullParts => FailureKind::Service,
            PartialStep::NewTransactionPool { .. } => FailureKind::Never,
            PartialStep::NewImportQueue { .. } => FailureKind::Service,
            PartialStep::Assemble => FailureKind::Never,
        }
    }
}

/// The steps towards the parts of a node with the configuration `config`.
pub open spec fn partial_steps<T>(config: Configuration<T>) -> Seq<PartialStep> {
    let metrics = config.prometheus_config is On;
    seq![
        PartialStep::NewFullParts,
        PartialStep::NewTransactionPool {
            options: config.transaction_pool,
            is_authority: config.role == Role::Authority,
            metrics,
        },
        PartialStep::NewImportQueue { metrics },
        PartialStep::Assemble,
    ]
}

/// Plan the parts of a node that chain operations need.
///
/// Use this if you don't actually need the full service, but just its parts in order to be able
/// to perform chain operations.
pub fn new_partial<T>(config: &mut Configuration<T>) -> (plan: Plan<PartialStep>)
    ensures
        *final(config) == *old(config),
        plan.steps() == partial_steps(*old(config)),
        plan.progress() == Progress::start(),
        plan.next() == Some(PartialStep::NewFullParts),
{
    let metrics = config.prometheus_config.is_on();
    let mut steps: Vec<PartialStep> = Vec::new();
    steps.push(PartialStep::NewFullParts);
    steps.push(
        PartialStep::NewTransactionPool {
            options: config.transaction_pool,
            is_authority: config.role.is_authority(),
            metrics,
        },
    );
    steps.push(PartialStep::NewImportQueue { metrics });
    steps.push(PartialStep::Assemble);
    Plan::new(steps)
}

/// Whether a relay chain node serves a collator, and with which key.
#[derive(Debug)]
pub enum IsCollator<K> {
    Yes(K),
    No,
}

/// A step of starting a node. `K` is the key of a collator.
#[derive(Debug)]
pub enum StartStep<K> {
    /// Adjust the configuration to what every parachain node needs.
    PrepareNodeConfig,
    /// Create the parts of the node, see `new_partial`.
    NewPartial,
    /// Register the provider of the timestamp inherent.
    RegisterTimestampProvider,
    /// Start a relay chain node.
    NewRelayChainNode { is_collator: IsCollator<K> },
    /// Create the validator of block announcements, which asks the relay chain node.
    NewBlockAnnounceValidator { para_id: ParaId },
    /// Build the network.
    BuildNetwork,
    /// Start the tasks of the node.
    SpawnTasks,
    /// Start collating for the parachain. The proposer may report to the node's metrics registry.
    StartCollator { para_id: ParaId, collator_key: K, metrics: bool },
    /// Start following the parachain.
    StartFullNode { para_id: ParaId },
    /// Let the network run.
    StartNetwork,
}

impl<K> Step for StartStep<K> {
    open spec fn fails_in(self) -> FailureKind {
        match self {
            StartStep::NewRelayChainNode { .. } => FailureKind::RelayChain,
            StartStep::NewPartial => FailureKind::Service,
            StartStep::BuildNetwork => FailureKind::Service,
            StartStep::SpawnTasks => FailureKind::Service,
            StartStep::StartCollator { .. } => FailureKind::Service,
            StartStep::StartFullNode { .. } => FailureKind::Service,
            _ => FailureKind::Never,
        }
    }

    fn failure_kind(&self) -> (kind: FailureKind) {
        match self {
            StartStep::NewRelayChainNode { .. } => FailureKind::RelayChain,
            StartStep::NewPartial => FailureKind::Service,
            StartStep::BuildNetwork => FailureKind::Service,
            StartStep::SpawnTasks => FailureKind::Service,
            StartStep::StartCollator { .. } => FailureKind::Service,
            StartStep::StartFullNode { .. } => FailureKind::Service,
            _ => FailureKind::Never,
        }
    }
}

/// Whether the relay chain node is told what `collator_key` says.
pub open spec fn tells_collator<K: Clone>(step: StartStep<K>, collator_key: Option<K>) -> bool {
    step matches StartStep::NewRelayChainNode { is_collator } && match collator_key {
        Some(key) => is_collator matches IsCollator::Yes(copy) && cloned(key, copy),
        None => is_collator is No,
    }
}

/// Whether these are the steps of starting a node of the parachain `para_id`, which collates if
/// it has a key to do so, and then reports on it if `metrics` says so.
pub open spec fn is_start<K: Clone>(
    steps: Seq<StartStep<K>>,
    collator_key: Option<K>,
    para_id: ParaId,
    metrics: bool,
) -> bool {
    &&& steps.len() == 9
    &&& steps[0] == StartStep::<K>::PrepareNodeConfig
    &&& steps[1] == StartStep::<K>::NewPartial
    &&& steps[2] == StartStep::<K>::RegisterTimestampProvider
    &&& tells_collator(steps[3], collator_key)
    &&& steps[4] == StartStep::<K>::NewBlockAnnounceValidator { para_id }
    &&& steps[5] == StartStep::<K>::BuildNetwork
    &&& steps[6] == StartStep::<K>::SpawnTasks
    &&& steps[7] == match collator_key {
        Some(key) => StartStep::StartCollator { para_id, collator_key: key, metrics },
        None => StartStep::StartFullNode { para_id },
    }
    &&& steps[8] == StartStep::<K>::StartNetwork
}

/// Plan the start of a node with the given parachain configuration. The node collates if it is
/// given a key to do so. Light clients are refused.
pub fn start_node_impl<T, K: Clone, E>(
    parachain_config: &Configuration<T>,
    collator_key: Option<K>,
    para_id: ParaId,
) -> (plan: Result<Plan<StartStep<K>>, ServiceError<E>>)
    ensures
        match plan {
            Ok(p) => parachain_config.role != Role::Light && is_start(
                p.steps(),
                collator_key,
                para_id,
                parachain_config.prometheus_config is On,
            ) && p.progress() == Progress::start(),
            Err(error) => parachain_config.role == Role::Light && (error matches ServiceError::Other(
                text,
            ) && text@ == "Light client not supported!"@),
        },
{
    if matches!(parachain_config.role, Role::Light) {
        return Err(ServiceError::Other("Light client not supported!".to_string()));
    }
    let metrics = parachain_config.prometheus_config.is_on();
    let mut steps: Vec<StartStep<K>> = Vec::new();
    steps.push(StartStep::PrepareNodeConfig);
    steps.push(StartStep::NewPartial);
    steps.push(StartStep::RegisterTimestampProvider);
    let is_collator = if let Some(key) = &collator_key {
        IsCollator::Yes(key.clone())
    } else {
        IsCollator::No
    };
    steps.push(StartStep::NewRelayChainNode { is_collator });
    steps.push(StartStep::NewBlockAnnounceValidator { para_id });
    steps.push(StartStep::BuildNetwork);
    steps.push(StartStep::SpawnTasks);
    if let Some(collator_key) = collator_key {
        steps.push(StartStep::StartCollator { para_id, collator_key, metrics });
    } else {
        steps.push(StartStep::StartFullNode { para_id });
    }
    steps.push(StartStep::StartNetwork);
    Ok(Plan::new(steps))
}

/// A node collates if and only if its relay chain node was told so, and it then does not also
/// follow the parachain as a full node.
pub proof fn law_collation_is_consistent<K: Clone>(
    steps: Seq<StartStep<K>>,
    collator_key: Option<K>,
    para_id: ParaId,
    metrics: bool,
)
    requires
        is_start(steps, collator_key, para_id, metrics),
    ensures
        (exists|i: int| 0 <= i < steps.len() && #[trigger] steps[i] is StartCollator)
            <==> collator_key is Some,
        (exists|i: int| 0 <= i < steps.len() && #[trigger] steps[i] is StartFullNode)
            <==> collator_key is None,
        forall|i: int|
            0 <= i < steps.len() ==> (#[trigger] steps[i] matches StartStep::NewRelayChainNode {
                is_collator,
            } ==> (is_collator is Yes <==> collator_key is Some)),
{
    assert(steps[7] is StartCollator <==> collator_key is Some);
    assert(steps[7] is StartFullNode <==> collator_key is None);
}

/// The network runs only once everything else stands: the last step starts it, and no other.
pub proof fn law_network_starts_last<K: Clone>(
    steps: Seq<StartStep<K>>,
    collator_key: Option<K>,
    para_id: ParaId,
    metrics: bool,
)
    requires
        is_start(steps, collator_key, para_id, metrics),
    ensures
        forall|i: int|
            0 <= i < steps.len() ==> (#[trigger] steps[i] is StartNetwork <==> i == steps.len()
                - 1),
{
}

/// A start in which a step fails does not get as far as starting the network.
pub proof fn law_failed_start_leaves_network_off<K: Clone, E>(
    steps: Seq<StartStep<K>>,
    collator_key: Option<K>,
    para_id: ParaId,
    metrics: bool,
    outcomes: Seq<Outcome<E>>,
)
    requires
        is_start(steps, collator_key, para_id, metrics),
        outcomes.len() <= steps.len(),
        forall|i: int|
            0 <= i < outcomes.len() ==> steps[i].fails_in().allows(#[trigger] outcomes[i]),
        exists|i: int| 0 <= i < outcomes.len() && #[trigger] outcomes[i] !is Done,
    ensures
        Progress::start().after_all(outcomes).failed,
        forall|i: int|
            0 <= i <= Progress::start().after_all(outcomes).position ==> #[trigger] steps[i]
                !is StartNetwork,
{
    let failing = lemma_first_failure(outcomes);
    law_failure_stops(outcomes, failing);
    assert(steps[failing].fails_in().allows(outcomes[failing]));
}

/// Every part is created once: the client first, then the pool, then the import queue, and only
/// when all of them are there they are put together.
pub proof fn law_parts_are_created_in_order<T>(config: Configuration<T>)
    ensures
        partial_steps(config).len() == 4,
        forall|i: int|
            0 <= i < 4 ==> {
                &&& (#[trigger] partial_steps(config)[i] is NewFullParts <==> i == 0)
                &&& (partial_steps(config)[i] is NewTransactionPool <==> i == 1)
                &&& (partial_steps(config)[i] is NewImportQueue <==> i == 2)
                &&& (partial_steps(config)[i] is Assemble <==> i == 3)
            },
{
}

/// The pool has the limits of the configuration and serves an authority if and only if the
/// configuration is that of one. The pool and the import queue report to the metrics registry if
/// and only if the configuration has one.
pub proof fn law_parts_follow_the_configuration<T>(config: Configuration<T>)
    ensures
        forall|i: int|
            0 <= i < partial_steps(config).len() ==> (#[trigger] partial_steps(
                config,
            )[i] matches PartialStep::NewTransactionPool { options, is_authority, metrics } ==> {
                &&& options == config.transaction_pool
                &&& is_authority <==> config.role == Role::Authority
                &&& metrics <==> config.prometheus_config is On
            }),
        forall|i: int|
            0 <= i < partial_steps(config).len() ==> (#[trigger] partial_steps(
                config,
            )[i] matches PartialStep::NewImportQueue { metrics } ==> (metrics
                <==> config.prometheus_config is On)),
{
}

/// Creating the client and creating the import queue may fail, in the service layer. The other
/// parts cannot fail.
pub proof fn law_which_parts_may_fail(step: PartialStep)
    ensures
        step.fails_in() == FailureKind::Service <==> (step is NewFullParts || step
            is NewImportQueue),
        step.fails_in() == FailureKind::Never <==> (step is NewTransactionPool || step is Assemble),
{
}

/// Only the relay chain node fails as such. Creating the parts, building the network, spawning the
/// tasks and starting the collator or the full node may fail in the service layer, and nothing else
/// can fail.
pub proof fn law_which_steps_may_fail<K>(step: StartStep<K>)
    ensures
        step.fails_in() == FailureKind::RelayChain <==> step is NewRelayChainNode,
        step.fails_in() == FailureKind::Service <==> (step is NewPartial || step is BuildNetwork
            || step is SpawnTasks || step is StartCollator || step is StartFullNode),
        step.fails_in() == FailureKind::Never <==> (step is PrepareNodeConfig || step
            is RegisterTimestampProvider || step is NewBlockAnnounceValidator || step
            is StartNetwork),
{
}

/// Whatever is done for a parachain is done for the one the node was started for: block
/// announcements are checked against it, and it is the one that is collated for or followed.
pub proof fn law_start_is_for_its_parachain<K: Clone>(
    steps: Seq<StartStep<K>>,
    collator_key: Option<K>,
    para_id: ParaId,
    metrics: bool,
)
    requires
        is_start(steps, collator_key, para_id, metrics),
    ensures
        forall|i: int|
            0 <= i < steps.len() ==> (
            #[trigger] steps[i] matches StartStep::NewBlockAnnounceValidator { para_id: p }
                ==> p == para_id),
        forall|i: int|
            0 <= i < steps.len() ==> (#[trigger] steps[i] matches StartStep::StartCollator {
                para_id: p,
                ..
            } ==> p == para_id),
        forall|i: int|
            0 <= i < steps.len() ==> (#[trigger] steps[i] matches StartStep::StartFullNode {
                para_id: p,
            } ==> p == para_id),
{
}

/// The collator is started with the very key that was given, and with the metrics registry if
/// there is one. The relay chain node is told a copy of that key.
pub proof fn law_start_uses_the_given_key<K: Clone>(
    steps: Seq<StartStep<K>>,
    collator_key: Option<K>,
    para_id: ParaId,
    metrics: bool,
)
    requires
        is_start(steps, collator_key, para_id, metrics),
    ensures
        forall|i: int|
            0 <= i < steps.len() ==> (#[trigger] steps[i] matches StartStep::StartCollator {
                collator_key: key,
                metrics: m,
                ..
            } ==> collator_key == Some(key) && m == metrics),
        forall|i: int|
            0 <= i < steps.len() ==> (#[trigger] steps[i] matches StartStep::NewRelayChainNode {
                is_collator: IsCollator::Yes(copy),
            } ==> (collator_key matches Some(key) && cloned(key, copy))),
        forall|i: int|
            0 <= i < steps.len() ==> (#[trigger] steps[i] matches StartStep::NewRelayChainNode {
                is_collator: IsCollator::No,
            } ==> collator_key is None),
{
}

/// Everything is done once, and nothing before what it needs: the configuration is prepared before
/// the parts are created from it, the timestamp provider is registered with the parts, the
/// validator of announcements asks the relay chain node, the network is built with that validator,
/// the tasks use the network, and the node collates or follows once its tasks run.
pub proof fn law_start_is_in_order<K: Clone>(
    steps: Seq<StartStep<K>>,
    collator_key: Option<K>,
    para_id: ParaId,
    metrics: bool,
)
    requires
        is_start(steps, collator_key, para_id, metrics),
    ensures
        steps.len() == 9,
        forall|i: int|
            0 <= i < 9 ==> {
                &&& (#[trigger] steps[i] is PrepareNodeConfig <==> i == 0)
                &&& (steps[i] is NewPartial <==> i == 1)
                &&& (steps[i] is RegisterTimestampProvider <==> i == 2)
                &&& (steps[i] is NewRelayChainNode <==> i == 3)
                &&& (steps[i] is NewBlockAnnounceValidator <==> i == 4)
                &&& (steps[i] is BuildNetwork <==> i == 5)
                &&& (steps[i] is SpawnTasks <==> i == 6)
                &&& (steps[i] is StartCollator || steps[i] is StartFullNode <==> i == 7)
                &&& (steps[i] is StartNetwork <==> i == 8)
            },
{
}

} // verus!
