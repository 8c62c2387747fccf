//! Holds the initial event state of an aggregate and accepts a command.

use crate::ddd::aggregate::{replays_to, Aggregate};
use crate::tester::validator::AggregateResultValidator;
use vstd::prelude::*;

verus! {

/// An aggregate test that has been seeded with an event history and is
/// waiting for the command under test.
pub struct AggregateTestExecutor<A: Aggregate> {
    pub(crate) events: Vec<A::Event>,
    pub(crate) service: A::Service,
}

impl<A: Aggregate> AggregateTestExecutor<A> {
    /// The seeded event history.
    pub closed spec fn spec_events(&self) -> Seq<A::Event> {
        self.events@
    }

    /// The service handed to the aggregate under test.
    pub closed spec fn spec_service(&self) -> A::Service {
        self.service
    }

    pub(crate) fn seeded(events: Vec<A::Event>, service: A::Service) -> (r: Self)
        ensures
            r.spec_events() == events@,
            r.spec_service() == service,
    {
        AggregateTestExecutor { events, service }
    }

    /// Consumes a command and, using the state details previously passed,
    /// provides a validator object to test against.
    pub fn when(self, command: A::Command) -> (r: AggregateResultValidator<A>)
        ensures
            exists|agg: A| #[trigger] replays_to(self.spec_events(), agg) && agg.handle_post(
                command,
                r.spec_result(),
            ),
    {
        let ghost history = self.spec_events();
        let result = crate::tester::framework::when::<A>(self.events, command, self.service);
        let validator = AggregateResultValidator::new(result);
        proof {
            let agg = choose|agg: A| #[trigger] replays_to(history, agg) && agg.handle_post(
                command,
                result,
            );
            assert(replays_to(history, agg) && agg.handle_post(command, validator.spec_result()));
        }
        validator
    }
}

} // verus!
