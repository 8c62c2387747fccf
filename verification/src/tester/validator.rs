//! Validation object for the aggregate test framework.

use crate::ddd::aggregate::{Aggregate, ErrorMessage};
use vstd::prelude::*;
use vstd::std_specs::cmp::PartialEqSpec;

verus! {

/// Whether the handling result succeeded with exactly the expected
/// events, compared by the event type's own equality.
pub open spec fn events_match<A: Aggregate>(
    result: Result<Vec<A::Event>, A::Error>,
    expected: Seq<A::Event>,
) -> bool {
    match result {
        Ok(events) => events@.len() == expected.len() && forall|i: int|
            0 <= i < expected.len() ==> (#[trigger] events@[i]).eq_spec(&expected[i]),
        Err(_) => false,
    }
}

/// Holds the outcome of handling the command under test.
pub struct AggregateResultValidator<A: Aggregate> {
    pub(crate) result: Result<Vec<A::Event>, A::Error>,
}

impl<A: Aggregate> AggregateResultValidator<A> {
    /// The held outcome.
    pub closed spec fn spec_result(&self) -> Result<Vec<A::Event>, A::Error> {
        self.result
    }

    pub(crate) fn new(result: Result<Vec<A::Event>, A::Error>) -> (r: Self)
        ensures
            r.spec_result() == result,
    {
        AggregateResultValidator { result }
    }

    /// Whether the expected events have been produced by the command.
    pub fn then_expect_events(self, expected_events: Vec<A::Event>) -> (r: bool)
        ensures
            A::Event::obeys_eq_spec() ==> r == events_match::<A>(
                self.spec_result(),
                expected_events@,
            ),
    {
        let events = match self.result {
            Ok(events) => events,
            Err(_) => {
                return false;
            },
        };
        if events.len() != expected_events.len() {
            return false;
        }
        let mut i: usize = 0;
        while i < events.len()
            invariant
                i <= events@.len(),
                events@.len() == expected_events@.len(),
                self.spec_result() == Ok::<Vec<A::Event>, A::Error>(events),
                A::Event::obeys_eq_spec() ==> forall|j: int|
                    0 <= j < i ==> (#[trigger] events@[j]).eq_spec(&expected_events@[j]),
            decreases events@.len() - i,
        {
            if !(events[i] == expected_events[i]) {
                return false;
            }
            i += 1;
        }
        true
    }

    /// Whether the result is the expected error, compared by the error
    /// type's own equality.
    pub fn then_expect_error(self, expected_error: A::Error) -> (r: bool) where A::Error: PartialEq
        ensures
            A::Error::obeys_eq_spec() ==> r == (match self.spec_result() {
                Ok(_) => false,
                Err(e) => e.eq_spec(&expected_error),
            }),
    {
        match self.result {
            Ok(_) => false,
            Err(e) => e == expected_error,
        }
    }

    /// Whether the result is an error whose description equals the given
    /// message.
    pub fn then_expect_error_message(self, error_message: &str) -> (r: bool)
        ensures
            r == (match self.spec_result() {
                Ok(_) => false,
                Err(e) => e.spec_message() == error_message@,
            }),
    {
        match self.result {
            Ok(_) => false,
            Err(e) => e.message() == error_message.to_owned(),
        }
    }

    /// Returns the internal result for validation by the caller.
    pub fn inspect_result(self) -> (r: Result<Vec<A::Event>, A::Error>)
        ensures
            r == self.spec_result(),
    {
        self.result
    }
}

} // verus!
