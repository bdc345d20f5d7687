//! The genesis storage of a test node.

use crate::config::{Configuration, ParaId};
use crate::plan::{FailureKind, Plan, Progress, Step};
use vstd::prelude::*;

verus! {

/// A step towards the chain specification of a node.
#[derive(Debug, Clone, Copy, PartialEq, Eq, Structural)]
pub enum GenesisStep {
    /// Take the chain specification of the parachain.
    GetChainSpec { para_id: ParaId },
    /// Build the genesis storage of the chain specification.
    BuildStorage,
    /// Let the caller adjust the storage.
    UpdateStorage,
    /// Put the storage back into the chain specification.
    SetStorage,
}

impl Step for GenesisStep {
    open spec fn fails_in(self) -> FailureKind {
        FailureKind::Never
    }

    fn failure_kind(&self) -> (kind: FailureKind) {
        FailureKind::Never
    }
}

/// The steps towards the chain specification of a node of the parachain `para_id`.
pub open spec fn genesis_steps(para_id: ParaId) -> Seq<GenesisStep> {
    seq![
        GenesisStep::GetChainSpec { para_id },
        GenesisStep::BuildStorage,
        GenesisStep::UpdateStorage,
        GenesisStep::SetStorage,
    ]
}

/// Plan the chain specification that the configuration names. The caller can make adjustments to
/// the runtime genesis.
pub fn genesis_plan<T>(config: &Configuration<T>) -> (plan: Plan<GenesisStep>)
    ensures
        plan.steps() == genesis_steps(config.chain_spec),
        plan.next() == Some(GenesisStep::GetChainSpec { para_id: config.chain_spec }),
        plan.progress() == Progress::start(),
{
    let mut steps: Vec<GenesisStep> = Vec::new();
    steps.push(GenesisStep::GetChainSpec { para_id: config.chain_spec });
    steps.push(GenesisStep::BuildStorage);
    steps.push(GenesisStep::UpdateStorage);
    steps.push(GenesisStep::SetStorage);
    Plan::new(steps)
}

/// The caller adjusts the genesis exactly once: after the storage has been built, and before it
/// becomes part of the chain specification.
pub proof fn law_genesis_is_updated_once(para_id: ParaId)
    ensures
        genesis_steps(para_id).len() == 4,
        forall|i: int|
            0 <= i < genesis_steps(para_id).len() ==> {
                &&& #[trigger] genesis_steps(para_id)[i] is BuildStorage <==> i == 1
                &&& genesis_steps(para_id)[i] is UpdateStorage <==> i == 2
                &&& genesis_steps(para_id)[i] is SetStorage <==> i == 3
            },
{
}

/// The genesis is that of the parachain that was asked for, and taking its chain specification
/// comes before everything else.
pub proof fn law_genesis_is_of_its_parachain(para_id: ParaId)
    ensures
        forall|i: int|
            0 <= i < genesis_steps(para_id).len() ==> (#[trigger] genesis_steps(para_id)[i]
                is GetChainSpec <==> i == 0),
        forall|i: int|
            0 <= i < genesis_steps(para_id).len() ==> (#[trigger] genesis_steps(
                para_id,
            )[i] matches GenesisStep::GetChainSpec { para_id: p } ==> p == para_id),
{
}

/// No step towards the genesis is allowed to fail.
pub proof fn law_genesis_cannot_fail(step: GenesisStep)
    ensures
        step.fails_in() == FailureKind::Never,
{
}

} // verus!
