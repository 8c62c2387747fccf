//! The unit of work: a single-use transactional lifecycle around the
//! processing of exactly one message.

use crate::ddd::aggregate::ErrorMessage;
use crate::message::handler::MessageHandler;
use vstd::prelude::*;

verus! {

/// The possible phases of a unit of work, in lifecycle order.
#[derive(Debug, Clone, Copy, PartialEq, Eq, Structural)]
pub enum Phase {
    NotStarted,
    Started,
    PrepareCommit,
    Commit,
    Rollback,
    AfterCommit,
    Cleanup,
    Closed,
}

impl Phase {
    /// The phase's position in the lifecycle ordering.
    pub open spec fn spec_rank(self) -> int {
        match self {
            Phase::NotStarted => 0,
            Phase::Started => 1,
            Phase::PrepareCommit => 2,
            Phase::Commit => 3,
            Phase::Rollback => 4,
            Phase::AfterCommit => 5,
            Phase::Cleanup => 6,
            Phase::Closed => 7,
        }
    }

    /// The phase's position in the lifecycle ordering.
    pub fn rank(self) -> (r: u32)
        ensures
            r == self.spec_rank(),
    {
        match self {
            Phase::NotStarted => 0,
            Phase::Started => 1,
            Phase::PrepareCommit => 2,
            Phase::Commit => 3,
            Phase::Rollback => 4,
            Phase::AfterCommit => 5,
            Phase::Cleanup => 6,
            Phase::Closed => 7,
        }
    }
}

/// The phases a unit of work exposes, in order, when its handler
/// succeeds.
pub open spec fn commit_phases() -> Seq<Phase> {
    seq![
        Phase::NotStarted,
        Phase::Started,
        Phase::PrepareCommit,
        Phase::Commit,
        Phase::AfterCommit,
        Phase::Cleanup,
    ]
}

/// The phases a unit of work exposes, in order, when its handler fails.
pub open spec fn rollback_phases() -> Seq<Phase> {
    seq![Phase::NotStarted, Phase::Started, Phase::PrepareCommit, Phase::Rollback, Phase::Cleanup]
}

/// Law: both exposed phase sequences advance strictly through the
/// lifecycle ordering.
pub proof fn lemma_phase_order()
    ensures
        forall|i: int, j: int|
            0 <= i < j < commit_phases().len() ==> commit_phases()[i].spec_rank()
                < commit_phases()[j].spec_rank(),
        forall|i: int, j: int|
            0 <= i < j < rollback_phases().len() ==> rollback_phases()[i].spec_rank()
                < rollback_phases()[j].spec_rank(),
{
}

/// Misuse of the unit of work's lifecycle.
#[derive(Debug, PartialEq, Eq, Structural)]
pub enum UowError {
    AlreadyStarted,
}

/// Processes a single message over its life cycle: started once, it
/// drives the remaining phases to completion, committing on handler
/// success and rolling back on handler failure.
pub struct UnitOfWork<T, F> where F: Fn(Phase, String) {
    message: T,
    history: Vec<Phase>,
    consumers: Vec<F>,
    cause: Option<String>,
}

impl<T, F> UnitOfWork<T, F> where F: Fn(Phase, String) {
    #[verifier::type_invariant]
    spec fn wf(self) -> bool {
        forall|j: int, ph: Phase, c: String|
            0 <= j < self.consumers@.len() ==> #[trigger] call_requires(
                self.consumers@[j],
                (ph, c),
            )
    }

    /// The wrapped message.
    pub closed spec fn spec_message(&self) -> T {
        self.message
    }

    /// Every phase the unit of work has passed through, in order.
    pub closed spec fn spec_phases(&self) -> Seq<Phase> {
        self.history@
    }

    /// The current phase.
    pub open spec fn spec_phase(&self) -> Phase {
        if self.spec_phases().len() == 0 {
            Phase::NotStarted
        } else {
            self.spec_phases().last()
        }
    }

    /// The registered rollback consumers, in registration order.
    pub closed spec fn spec_consumers(&self) -> Seq<F> {
        self.consumers@
    }

    /// The rollback cause, if the unit of work rolled back.
    pub closed spec fn spec_cause(&self) -> Option<String> {
        self.cause
    }

    /// Creates a unit of work around one message, in phase `NotStarted`,
    /// with no rollback consumers.
    pub fn new(message: T) -> (r: Self)
        ensures
            r.spec_message() == message,
            r.spec_phases() =~= seq![Phase::NotStarted],
            r.spec_consumers() =~= Seq::<F>::empty(),
            r.spec_cause() is None,
    {
        let mut history: Vec<Phase> = Vec::new();
        history.push(Phase::NotStarted);
        UnitOfWork { message, history, consumers: Vec::new(), cause: None }
    }

    /// The current phase of the unit of work.
    pub fn phase(&self) -> (r: Phase)
        ensures
            r == self.spec_phase(),
    {
        if self.history.len() == 0 {
            Phase::NotStarted
        } else {
            self.history[self.history.len() - 1]
        }
    }

    /// Every phase the unit of work has passed through, in order.
    pub fn phases(&self) -> (r: Vec<Phase>)
        ensures
            r@ == self.spec_phases(),
    {
        let mut r: Vec<Phase> = Vec::new();
        let mut i: usize = 0;
        while i < self.history.len()
            invariant
                i <= self.history@.len(),
                r@ =~= self.history@.take(i as int),
            decreases self.history@.len() - i,
        {
            r.push(self.history[i]);
            proof {
                assert(r@ =~= self.history@.take(i + 1int));
            }
            i += 1;
        }
        proof {
            assert(self.history@.take(self.history@.len() as int) =~= self.history@);
        }
        r
    }

    /// The rollback cause, if the unit of work rolled back.
    pub fn cause(&self) -> (r: Option<String>)
        ensures
            match r {
                Some(c) => self.spec_cause() matches Some(c0) && c@ == c0@,
                None => self.spec_cause() is None,
            },
    {
        match &self.cause {
            Some(c) => Some(c.clone()),
            None => None,
        }
    }

    /// Registers a consumer to be notified, with the terminal phase and
    /// the cause, when the unit of work rolls back.
    pub fn on_rollback(&mut self, consumer: F)
        requires
            forall|ph: Phase, c: String| call_requires(consumer, (ph, c)),
        ensures
            final(self).spec_consumers() == old(self).spec_consumers().push(consumer),
            final(self).spec_message() == old(self).spec_message(),
            final(self).spec_phases() == old(self).spec_phases(),
            final(self).spec_cause() == old(self).spec_cause(),
    {
        proof {
            use_type_invariant(&*self);
        }
        let mut consumers: Vec<F> = Vec::new();
        core::mem::swap(&mut consumers, &mut self.consumers);
        consumers.push(consumer);
        core::mem::swap(&mut consumers, &mut self.consumers);
    }

    /// Appends a phase to the history.
    fn push_phase(&mut self, phase: Phase)
        ensures
            final(self).spec_phases() == old(self).spec_phases().push(phase),
            final(self).spec_message() == old(self).spec_message(),
            final(self).spec_consumers() == old(self).spec_consumers(),
            final(self).spec_cause() == old(self).spec_cause(),
    {
        proof {
            use_type_invariant(&*self);
        }
        let mut history: Vec<Phase> = Vec::new();
        core::mem::swap(&mut history, &mut self.history);
        history.push(phase);
        core::mem::swap(&mut history, &mut self.history);
    }

    /// Initiates the rollback: records the `Rollback` phase and the cause,
    /// and notifies every registered rollback consumer, in registration
    /// order, with the terminal phase and the failure cause.
    pub fn rollback(&mut self, cause: String)
        ensures
            final(self).spec_phases() == old(self).spec_phases().push(Phase::Rollback),
            final(self).spec_cause() == Some(cause),
            final(self).spec_message() == old(self).spec_message(),
            final(self).spec_consumers() == old(self).spec_consumers(),
            forall|j: int|
                0 <= j < old(self).spec_consumers().len() ==> #[trigger] call_ensures(
                    old(self).spec_consumers()[j],
                    (Phase::Rollback, cause),
                    (),
                ),
    {
        proof {
            use_type_invariant(&*self);
        }
        self.push_phase(Phase::Rollback);
        self.cause = Some(cause.clone());
        let mut i: usize = 0;
        while i < self.consumers.len()
            invariant
                i <= self.consumers@.len(),
                self.spec_consumers() == old(self).spec_consumers(),
                forall|j: int, ph: Phase, c: String|
                    0 <= j < self.consumers@.len() ==> #[trigger] call_requires(
                        self.consumers@[j],
                        (ph, c),
                    ),
                forall|j: int|
                    0 <= j < i ==> #[trigger] call_ensures(
                        self.consumers@[j],
                        (Phase::Rollback, cause),
                        (),
                    ),
            decreases self.consumers@.len() - i,
        {
            let notified_cause = cause.clone();
            (self.consumers[i])(Phase::Rollback, notified_cause);
            i += 1;
        }
    }

    /// The message being processed; a unit of work processes a single
    /// message over its life cycle.
    pub fn message(&self) -> (r: T) where T: Clone
        ensures
            vstd::pervasive::cloned::<T>(self.spec_message(), r),
    {
        self.message.clone()
    }

    /// Law: a unit of work is single-use and drives its whole lifecycle in
    /// one call. From `NotStarted` it exposes, in order, `Started` and
    /// `PrepareCommit`, invokes the handler on the wrapped message exactly
    /// once — committing (`Ok(true)`) on a successful outcome and rolling
    /// back (`Ok(false)`) on a failed one, notifying every registered
    /// rollback consumer with the cause — and finally `Cleanup`. Starting
    /// it in any other phase is a state-misuse error and changes nothing.
    pub fn begin<H: MessageHandler<T>>(&mut self, handler: &H) -> (r: Result<bool, UowError>) where
        H::Error: ErrorMessage,

        ensures
            (r == Err::<bool, UowError>(UowError::AlreadyStarted)) == (old(self).spec_phase()
                != Phase::NotStarted),
            r == Err::<bool, UowError>(UowError::AlreadyStarted) ==> *final(self) == *old(self),
            old(self).spec_phase() == Phase::NotStarted ==> exists|o: Result<(), H::Error>|
                #[trigger] handler.handle_post(&old(self).spec_message(), o) && ((o is Ok) == (r
                    == Ok::<bool, UowError>(true))),
            r == Ok::<bool, UowError>(false) ==> (final(self).spec_cause() matches Some(cause)
                && forall|j: int|
                0 <= j < old(self).spec_consumers().len() ==> #[trigger] call_ensures(
                    old(self).spec_consumers()[j],
                    (Phase::Rollback, cause),
                    (),
                )),
            r == Ok::<bool, UowError>(true) ==> final(self).spec_phases() == old(
                self,
            ).spec_phases() + seq![
                Phase::Started,
                Phase::PrepareCommit,
                Phase::Commit,
                Phase::AfterCommit,
                Phase::Cleanup,
            ] && final(self).spec_cause() == old(self).spec_cause(),
            r == Ok::<bool, UowError>(false) ==> final(self).spec_phases() == old(
                self,
            ).spec_phases() + seq![
                Phase::Started,
                Phase::PrepareCommit,
                Phase::Rollback,
                Phase::Cleanup,
            ] && final(self).spec_cause() is Some,
            old(self).spec_phases() =~= seq![Phase::NotStarted] && r == Ok::<bool, UowError>(true)
                ==> final(self).spec_phases() == commit_phases(),
            old(self).spec_phases() =~= seq![Phase::NotStarted] && r == Ok::<bool, UowError>(false)
                ==> final(self).spec_phases() == rollback_phases(),
            final(self).spec_message() == old(self).spec_message(),
            final(self).spec_consumers() == old(self).spec_consumers(),
    {
        let current = self.phase();
        if !matches!(current, Phase::NotStarted) {
            return Err(UowError::AlreadyStarted);
        }
        self.push_phase(Phase::Started);
        self.push_phase(Phase::PrepareCommit);
        let outcome = handler.handle(&self.message);
        proof {
            assert(handler.handle_post(&old(self).spec_message(), outcome));
        }
        match outcome {
            Ok(_) => {
                self.push_phase(Phase::Commit);
                self.push_phase(Phase::AfterCommit);
                self.push_phase(Phase::Cleanup);
                proof {
                    assert(self.spec_phases() =~= old(self).spec_phases() + seq![
                        Phase::Started,
                        Phase::PrepareCommit,
                        Phase::Commit,
                        Phase::AfterCommit,
                        Phase::Cleanup,
                    ]);
                }
                Ok(true)
            },
            Err(e) => {
                self.rollback(e.message());
                self.push_phase(Phase::Cleanup);
                proof {
                    assert(self.spec_phases() =~= old(self).spec_phases() + seq![
                        Phase::Started,
                        Phase::PrepareCommit,
                        Phase::Rollback,
                        Phase::Cleanup,
                    ]);
                }
                Ok(false)
            },
        }
    }
}

} // verus!
