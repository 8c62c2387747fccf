//! The event-sourced aggregate runtime: command validation produces
//! events, event application advances versioned state, and rehydration
//! folds an ordered history back into the current state.

use crate::ddd::event::DomainEvent;
use vstd::prelude::*;

verus! {

/// An error that can describe itself as text.
pub trait ErrorMessage: Sized {
    /// The description's mathematical value; an implementation that keeps
    /// this default says nothing useful about its text.
    open spec fn spec_message(&self) -> Seq<char> {
        Seq::empty()
    }

    /// Describes the error.
    fn message(&self) -> (r: String)
        ensures
            r@ == self.spec_message(),
    ;
}

/// Entities that track changes with incrementing versions.
pub trait Versioned: Sized {
    /// The current version, as a mathematical integer.
    spec fn spec_version(&self) -> int;

    /// Gets the current version.
    fn version(&self) -> (v: usize)
        ensures
            v == self.spec_version(),
    ;
}

/// An event-sourced aggregate: a consistency boundary whose state is
/// derived solely from an ordered sequence of events.
///
/// Only `handle` produces events; only `apply` consumes them.
pub trait Aggregate: Sized {
    /// The aggregate's validation-error taxonomy.
    type Error: ErrorMessage;

    /// The aggregate's versioned state.
    type State: Versioned;

    /// An intent; never persisted.
    type Command;

    /// An immutable fact; persisted and replayable.
    type Event: DomainEvent;

    /// Read-only dependency bag consulted during validation.
    type Service;

    /// The aggregate's version: incremented by exactly one per applied
    /// event.
    spec fn spec_version(&self) -> int;

    /// What `fresh` promises of the initial aggregate, beyond version 0.
    spec fn fresh_post(agg: Self) -> bool;

    /// What `handle` promises of its result for the given command.
    spec fn handle_post(
        &self,
        command: Self::Command,
        result: Result<Vec<Self::Event>, Self::Error>,
    ) -> bool;

    /// What `apply` promises of the next state, beyond the version
    /// increment.
    spec fn apply_post(self, event: Self::Event, next: Self) -> bool;

    /// The default aggregate, at version 0, from which history is
    /// replayed.
    fn fresh() -> (agg: Self)
        ensures
            agg.spec_version() == 0,
            Self::fresh_post(agg),
    ;

    /// Handles the given command: pure validation against the current
    /// state and the service context. Returns zero or more events to
    /// append, or a typed error; zero events is a legal, non-error
    /// outcome.
    fn handle(&self, command: Self::Command, service: &Self::Service) -> (r: Result<
        Vec<Self::Event>,
        Self::Error,
    >)
        ensures
            self.handle_post(command, r),
    ;

    /// Applies an event: consumes the prior state by value and returns
    /// the new state by value; deterministic, total and infallible.
    /// Increments the version by exactly one.
    fn apply(self, event: Self::Event) -> (next: Self)
        requires
            self.spec_version() < usize::MAX,
        ensures
            next.spec_version() == self.spec_version() + 1,
            self.apply_post(event, next),
    ;
}

/// Whether `trace` records a replay of `events`: it starts at a fresh
/// (version 0) aggregate and each following entry is related to its
/// predecessor by one event application.
pub open spec fn replay_trace<A: Aggregate>(events: Seq<A::Event>, trace: Seq<A>) -> bool {
    &&& trace.len() == events.len() + 1
    &&& trace[0].spec_version() == 0
    &&& A::fresh_post(trace[0])
    &&& forall|i: int|
        0 <= i < events.len() ==> (#[trigger] trace[i + 1]).spec_version() == trace[i].spec_version()
            + 1 && trace[i].apply_post(events[i], trace[i + 1])
}

/// Whether `agg` is a possible result of folding `apply` over `events`,
/// in order, starting from the fresh aggregate.
pub open spec fn replays_to<A: Aggregate>(events: Seq<A::Event>, agg: A) -> bool {
    exists|trace: Seq<A>| #[trigger] replay_trace(events, trace) && agg == trace.last()
}

/// Law: reconstructing state by folding `apply` over an ordered event
/// history of length `n`, starting from the fresh (version 0) aggregate,
/// yields an aggregate whose version is exactly `n`.
pub fn rehydrate<A: Aggregate>(events: Vec<A::Event>) -> (agg: A)
    ensures
        agg.spec_version() == events@.len(),
        replays_to(events@, agg),
{
    let ghost history = events@;
    let total = events.len();
    let mut rest = events;
    let mut agg = A::fresh();
    let ghost mut trace: Seq<A> = seq![agg];
    while rest.len() > 0
        invariant
            history.len() == total,
            rest@.len() <= history.len(),
            rest@ =~= history.skip(history.len() - rest@.len()),
            agg.spec_version() == history.len() - rest@.len(),
            trace.len() == history.len() - rest@.len() + 1,
            trace.last() == agg,
            trace[0].spec_version() == 0,
            A::fresh_post(trace[0]),
            forall|i: int|
                0 <= i < trace.len() - 1 ==> (#[trigger] trace[i + 1]).spec_version()
                    == trace[i].spec_version() + 1 && trace[i].apply_post(history[i], trace[i + 1]),
        decreases rest@.len(),
    {
        let ghost done = history.len() - rest@.len();
        let event = rest.remove(0);
        proof {
            assert(event == history[done]);
            assert(rest@ =~= history.skip(done + 1));
        }
        let ghost prev = agg;
        agg = agg.apply(event);
        proof {
            trace = trace.push(agg);
            assert forall|i: int| 0 <= i < trace.len() - 1 implies (#[trigger] trace[i
                + 1]).spec_version() == trace[i].spec_version() + 1 && trace[i].apply_post(
                history[i],
                trace[i + 1],
            ) by {
                if i == done {
                    assert(trace[i] == prev && trace[i + 1] == agg);
                } else {
                    assert(trace[i] == trace.drop_last()[i] && trace[i + 1] == trace.drop_last()[i
                        + 1]);
                }
            }
        }
    }
    proof {
        assert(replay_trace(history, trace));
        assert(trace.last() == agg);
    }
    agg
}

} // verus!
