//! Entry point of the aggregate test framework.

use crate::ddd::aggregate::{rehydrate, replays_to, Aggregate};
use crate::tester::executor::AggregateTestExecutor;
use vstd::prelude::*;

verus! {

/// Exercises an aggregate: configured with the aggregate's service, it
/// hands out executors seeded with a given event history.
pub struct TestFramework<A: Aggregate> {
    service: A::Service,
}

impl<A: Aggregate> TestFramework<A> {
    /// The configured service.
    pub closed spec fn spec_service(&self) -> A::Service {
        self.service
    }

    /// Creates a test framework using the provided service.
    pub fn with(service: A::Service) -> (r: Self)
        ensures
            r.spec_service() == service,
    {
        TestFramework { service }
    }

    /// Initiates an aggregate test with no previous events; the executor
    /// carries the framework's service.
    #[must_use]
    pub fn given_no_previous_events(self) -> (r: AggregateTestExecutor<A>)
        ensures
            r.spec_events() =~= Seq::<A::Event>::empty(),
            r.spec_service() == self.spec_service(),
    {
        AggregateTestExecutor::seeded(Vec::new(), self.service)
    }

    /// Initiates an aggregate test with a collection of previous events;
    /// the executor carries the framework's service.
    #[must_use]
    pub fn given(self, events: Vec<A::Event>) -> (r: AggregateTestExecutor<A>)
        ensures
            r.spec_events() == events@,
            r.spec_service() == self.spec_service(),
    {
        AggregateTestExecutor::seeded(events, self.service)
    }
}

/// Replays the event history from the fresh aggregate, then handles the
/// command on the rehydrated state: the result is the handling outcome of
/// an aggregate that the history replays to.
pub fn when<A: Aggregate>(
    events: Vec<A::Event>,
    command: A::Command,
    service: A::Service,
) -> (r: Result<Vec<A::Event>, A::Error>)
    ensures
        exists|agg: A| #[trigger] replays_to(events@, agg) && agg.handle_post(command, r),
{
    let ghost history = events@;
    let aggregate: A = rehydrate(events);
    let r = aggregate.handle(command, &service);
    proof {
        assert(replays_to(history, aggregate) && aggregate.handle_post(command, r));
    }
    r
}

} // verus!
