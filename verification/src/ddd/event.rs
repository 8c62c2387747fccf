//! Domain events generated within a bounded context.

use vstd::prelude::*;

verus! {

/// A domain event: an immutable fact, persisted and replayable. When
/// domain events are sent across the network they travel inside a
/// message; a domain event is not itself an event message.
pub trait DomainEvent: core::fmt::Debug + Clone + PartialEq {

}

} // verus!
