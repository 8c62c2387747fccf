//! Dispatch table from a message value to a handler capability.

use crate::message::handler::MessageHandler;
use vstd::prelude::*;
use vstd::std_specs::cmp::PartialEqSpec;

verus! {

/// Maps each distinct message value to one handler; registering against an
/// equal message shadows the prior handler (the last registration wins).
pub struct HandlerRegistry<T, H> {
    handlers: Vec<(T, H)>,
}

impl<T: PartialEq, H: MessageHandler<T>> HandlerRegistry<T, H> {
    /// The registered entries, in registration order.
    pub closed spec fn spec_entries(&self) -> Seq<(T, H)> {
        self.handlers@
    }

    /// Whether some registered message equals the given one, by the
    /// message type's own equality.
    pub open spec fn spec_has_handler(&self, message: T) -> bool {
        exists|i: int|
            0 <= i < self.spec_entries().len() && (#[trigger] self.spec_entries()[i].0).eq_spec(
                &message,
            )
    }

    /// Whether entry `i` is the last registration whose message equals the
    /// given one — the one that wins dispatch.
    pub open spec fn spec_latest_match(&self, message: T, i: int) -> bool {
        &&& 0 <= i < self.spec_entries().len()
        &&& self.spec_entries()[i].0.eq_spec(&message)
        &&& forall|j: int|
            i < j < self.spec_entries().len() ==> !(#[trigger] self.spec_entries()[j].0).eq_spec(
                &message,
            )
    }

    /// Creates an empty registry.
    pub fn new() -> (r: Self)
        ensures
            r.spec_entries() =~= Seq::<(T, H)>::empty(),
    {
        HandlerRegistry { handlers: Vec::new() }
    }

    /// Registers a handler for the given message value; a later
    /// registration against an equal message wins.
    pub fn register(&mut self, message: T, handler: H)
        ensures
            final(self).spec_entries() == old(self).spec_entries().push((message, handler)),
    {
        self.handlers.push((message, handler));
    }

    /// Law: looking a message up by value, an absent registration is a
    /// silent success, never an error; a present registration's (latest)
    /// handler is invoked and its outcome returned unchanged.
    pub fn handle(&self, message: &T) -> (r: Result<(), H::Error>)
        ensures
            self.spec_entries().len() == 0 ==> r == Ok::<(), H::Error>(()),
            T::obeys_eq_spec() && !self.spec_has_handler(*message) ==> r == Ok::<(), H::Error>(()),
            T::obeys_eq_spec() && self.spec_has_handler(*message) ==> exists|i: int|
                #[trigger] self.spec_latest_match(*message, i) && self.spec_entries()[
                    i
                ].1.handle_post(message, r),
    {
        let mut i: usize = self.handlers.len();
        while i > 0
            invariant
                i <= self.handlers@.len(),
                T::obeys_eq_spec() ==> forall|j: int|
                    i <= j < self.handlers@.len() ==> !(#[trigger] self.handlers@[j].0).eq_spec(
                        message,
                    ),
            decreases i,
        {
            i = i - 1;
            if self.handlers[i].0 == *message {
                let r = self.handlers[i].1.handle(message);
                proof {
                    if T::obeys_eq_spec() {
                        assert(self.spec_latest_match(*message, i as int));
                    }
                }
                return r;
            }
        }
        Ok(())
    }
}

} // verus!
