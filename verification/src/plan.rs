//! Bringing something up step by step, until it stands or a step fails.

use vstd::prelude::*;

verus! {

/// Why a service could not be started. `E` is the service layer's own error.
#[derive(Debug)]
pub enum ServiceError<E> {
    /// The service layer failed.
    Service(E),
    /// Anything else, in words.
    Other(String),
}

/// Why a relay chain node could not be started.
#[derive(Debug)]
pub enum RelayChainError<E> {
    /// The service layer failed.
    Sub(E),
    /// Anything else, in words.
    Other(String),
}

/// What came of performing a step.
#[derive(Debug)]
pub enum Outcome<E> {
    /// The step succeeded.
    Done,
    /// The service layer failed.
    Failed(E),
    /// The relay chain node failed.
    RelayChainFailed(RelayChainError<E>),
}

impl<E> Outcome<E> {
    /// What a step with this outcome amounts to. An error of the service layer is passed on as it
    /// is, also where the relay chain node ran into it.
    pub open spec fn result(self) -> Result<(), ServiceError<E>> {
        match self {
            Outcome::Done => Ok(()),
            Outcome::Failed(error) => Err(ServiceError::Service(error)),
            Outcome::RelayChainFailed(RelayChainError::Sub(error)) => Err(
                ServiceError::Service(error),
            ),
            Outcome::RelayChainFailed(RelayChainError::Other(text)) => Err(
                ServiceError::Other(text),
            ),
        }
    }
}

/// In which way a step may fail.
#[derive(Debug, Clone, Copy, PartialEq, Eq, Structural)]
pub enum FailureKind {
    /// Not at all.
    Never,
    /// In the service layer.
    Service,
    /// In the relay chain node.
    RelayChain,
}

impl FailureKind {
    /// Whether a step that may fail in this way can have the outcome `outcome`.
    pub open spec fn allows<E>(self, outcome: Outcome<E>) -> bool {
        match outcome {
            Outcome::Done => true,
            Outcome::Failed(_) => self == FailureKind::Service,
            Outcome::RelayChainFailed(_) => self == FailureKind::RelayChain,
        }
    }
}

/// A step of a plan.
pub trait Step: Sized {
    /// In which way the step may fail.
    spec fn fails_in(self) -> FailureKind;

    /// In which way the step may fail.
    fn failure_kind(&self) -> (kind: FailureKind)
        ensures
            kind == self.fails_in(),
    ;
}

/// How far a plan has been carried out.
#[verifier::ext_equal]
pub struct Progress {
    /// The number of steps that have succeeded.
    pub position: nat,
    /// Whether the step after those has failed.
    pub failed: bool,
}

impl Progress {
    /// Nothing has been done yet.
    pub open spec fn start() -> Progress {
        Progress { position: 0, failed: false }
    }

    /// The progress once the next step has had the outcome `outcome`.
    pub open spec fn after<E>(self, outcome: Outcome<E>) -> Progress {
        if self.failed {
            self
        } else if outcome is Done {
            Progress { position: self.position + 1, failed: false }
        } else {
            Progress { position: self.position, failed: true }
        }
    }

    /// The progress once the next steps have had these outcomes, in this order.
    pub open spec fn after_all<E>(self, outcomes: Seq<Outcome<E>>) -> Progress
        decreases outcomes.len(),
    {
        if outcomes.len() == 0 {
            self
        } else {
            self.after_all(outcomes.drop_last()).after(outcomes.last())
        }
    }
}

/// Steps that are to be performed one after the other, and how many of them have been.
#[derive(Debug)]
pub struct Plan<S> {
    steps: Vec<S>,
    position: usize,
    failed: bool,
}

impl<S> Plan<S> {
    #[verifier::type_invariant]
    spec fn well_formed(self) -> bool {
        self.position <= self.steps@.len()
    }

    /// The steps, in order.
    pub closed spec fn steps(self) -> Seq<S> {
        self.steps@
    }

    /// How far the plan has been carried out.
    pub closed spec fn progress(self) -> Progress {
        Progress { position: self.position as nat, failed: self.failed }
    }

    /// The step that is to be performed next.
    pub open spec fn next(self) -> Option<S> {
        if !self.progress().failed && self.progress().position < self.steps().len() {
            Some(self.steps()[self.progress().position as int])
        } else {
            None
        }
    }

    /// A plan of which nothing has been done yet.
    pub fn new(steps: Vec<S>) -> (plan: Self)
        ensures
            plan.steps() == steps@,
            plan.progress() == Progress::start(),
    {
        Plan { steps, position: 0, failed: false }
    }

    /// The step that is to be performed next: none once a step has failed or all have succeeded.
    pub fn next_step(&self) -> (step: Option<&S>)
        ensures
            match step {
                Some(s) => self.next() == Some(*s) && !self.progress().failed
                    && self.progress().position < self.steps().len() && *s
                    == self.steps()[self.progress().position as int],
                None => self.next() is None && (self.progress().failed || self.progress().position
                    == self.steps().len()),
            },
    {
        proof {
            use_type_invariant(self);
        }
        if !self.failed && self.position < self.steps.len() {
            Some(&self.steps[self.position])
        } else {
            None
        }
    }

    /// Whether every step has succeeded.
    pub fn is_complete(&self) -> (complete: bool)
        ensures
            complete == (!self.progress().failed && self.progress().position
                == self.steps().len()),
    {
        !self.failed && self.position == self.steps.len()
    }
}

impl<S: Step> Plan<S> {
    /// Take note of the outcome of the next step, and return what it amounts to.
    pub fn complete_step<E>(&mut self, outcome: Outcome<E>) -> (result: Result<(), ServiceError<E>>)
        requires
            old(self).next() matches Some(step) && step.fails_in().allows(outcome),
        ensures
            final(self).steps() == old(self).steps(),
            final(self).progress() == old(self).progress().after(outcome),
            result == outcome.result(),
            result is Ok <==> outcome is Done,
            result is Err <==> final(self).progress().failed,
    {
        proof {
            use_type_invariant(&*self);
        }
        match outcome {
            Outcome::Done => {
                assert(self.position < self.steps.len());
                self.position = self.position + 1;
                Ok(())
            },
            Outcome::Failed(error) => {
                self.failed = true;
                Err(ServiceError::Service(error))
            },
            Outcome::RelayChainFailed(error) => {
                self.failed = true;
                match error {
                    RelayChainError::Sub(error) => Err(ServiceError::Service(error)),
                    RelayChainError::Other(text) => Err(ServiceError::Other(text)),
                }
            },
        }
    }
}

/// As long as all steps succeed, they are performed in their order, each of them once.
pub proof fn law_success_performs_every_step<E>(outcomes: Seq<Outcome<E>>)
    requires
        forall|i: int| 0 <= i < outcomes.len() ==> #[trigger] outcomes[i] is Done,
    ensures
        Progress::start().after_all(outcomes) == (Progress {
            position: outcomes.len(),
            failed: false,
        }),
    decreases outcomes.len(),
{
    if outcomes.len() > 0 {
        law_success_performs_every_step(outcomes.drop_last());
    }
}

/// Where some step fails, there is a first one that does.
pub proof fn lemma_first_failure<E>(outcomes: Seq<Outcome<E>>) -> (failing: int)
    requires
        exists|i: int| 0 <= i < outcomes.len() && #[trigger] outcomes[i] !is Done,
    ensures
        0 <= failing < outcomes.len(),
        outcomes[failing] !is Done,
        forall|i: int| 0 <= i < failing ==> #[trigger] outcomes[i] is Done,
    decreases outcomes.len(),
{
    let earlier = outcomes.drop_last();
    if exists|i: int| 0 <= i < earlier.len() && #[trigger] earlier[i] !is Done {
        let failing = lemma_first_failure(earlier);
        assert forall|i: int| 0 <= i < failing implies #[trigger] outcomes[i] is Done by {
            assert(earlier[i] is Done);
        }
        failing
    } else {
        assert forall|i: int| 0 <= i < outcomes.len() - 1 implies #[trigger] outcomes[i] is Done by {
            assert(earlier[i] is Done);
        }
        outcomes.len() - 1
    }
}

/// The first step that fails is the last one that is performed, whatever follows.
pub proof fn law_failure_stops<E>(outcomes: Seq<Outcome<E>>, failing: int)
    requires
        0 <= failing < outcomes.len(),
        outcomes[failing] !is Done,
        forall|i: int| 0 <= i < failing ==> #[trigger] outcomes[i] is Done,
    ensures
        Progress::start().after_all(outcomes) == (Progress {
            position: failing as nat,
            failed: true,
        }),
    decreases outcomes.len(),
{
    if failing == outcomes.len() - 1 {
        law_success_performs_every_step(outcomes.drop_last());
    } else {
        law_failure_stops(outcomes.drop_last(), failing);
    }
}

/// A step succeeds only if it is done. The error of a failed one is the very error that the service
/// layer or the relay chain node gave, and the words of the latter are passed on unchanged.
pub proof fn law_errors_are_passed_on<E>(error: E, text: String)
    ensures
        Outcome::<E>::Done.result() is Ok,
        Outcome::Failed(error).result() matches Err(ServiceError::Service(e)) && e == error,
        Outcome::RelayChainFailed(RelayChainError::Sub(error)).result() matches Err(
            ServiceError::Service(e),
        ) && e == error,
        Outcome::<E>::RelayChainFailed(RelayChainError::Other(text)).result() matches Err(
            ServiceError::Other(t),
        ) && t == text,
{
}

/// Every step may succeed, and a step fails in its own way or not at all.
pub proof fn law_steps_fail_in_their_own_way<E>(kind: FailureKind, outcome: Outcome<E>)
    ensures
        outcome is Done ==> kind.allows(outcome),
        outcome is Failed ==> (kind.allows(outcome) <==> kind == FailureKind::Service),
        outcome is RelayChainFailed ==> (kind.allows(outcome) <==> kind == FailureKind::RelayChain),
{
}

/// After as many successes as there are steps before it, a step is the next one. After a success of
/// every step there is none.
pub proof fn law_steps_come_in_order<S, E>(plan: Plan<S>, outcomes: Seq<Outcome<E>>)
    requires
        plan.progress() == Progress::start().after_all(outcomes),
        outcomes.len() <= plan.steps().len(),
        forall|i: int| 0 <= i < outcomes.len() ==> #[trigger] outcomes[i] is Done,
    ensures
        outcomes.len() < plan.steps().len() ==> plan.next() == Some(
            plan.steps()[outcomes.len() as int],
        ),
        outcomes.len() == plan.steps().len() ==> plan.next() is None,
{
    law_success_performs_every_step(outcomes);
}

/// After a failure there is no next step.
pub proof fn law_nothing_follows_a_failure<S, E>(plan: Plan<S>, outcomes: Seq<Outcome<E>>)
    requires
        plan.progress() == Progress::start().after_all(outcomes),
        exists|i: int| 0 <= i < outcomes.len() && #[trigger] outcomes[i] !is Done,
    ensures
        plan.next() is None,
{
    let failing = lemma_first_failure(outcomes);
    law_failure_stops(outcomes, failing);
}

} // verus!
