//! Messages: an identified payload with metadata, plus the capabilities
//! that consume them.

use crate::ddd::entity::{Entity, EntityV};
use crate::ddd::metadata::{MetaData, ValueV};
use crate::message::payload::Payload;
use vstd::prelude::*;

pub mod consumer;
pub mod generic;
pub mod handler;
pub mod payload;
pub mod processor;

verus! {

/// A message: a payload with metadata. Typical messages are commands,
/// events and queries. Two messages with the same identifier are
/// representations of the same conceptual message, possibly with
/// different metadata.
pub trait Message: Sized {
    /// The identifier's mathematical value.
    spec fn spec_identifier(&self) -> EntityV;

    /// The metadata's mathematical value.
    spec fn spec_metadata(&self) -> Map<Seq<char>, ValueV>;

    /// The payload's mathematical value.
    spec fn spec_payload(&self) -> ValueV;

    /// The identifier of this message.
    fn identifier(&self) -> (r: Entity)
        ensures
            r@ == self.spec_identifier(),
    ;

    /// The metadata of this message: a collection of key-value pairs.
    fn metadata(&self) -> (r: MetaData)
        ensures
            r@ == self.spec_metadata(),
    ;

    /// The payload of this message: the application-specific information.
    fn payload(&self) -> (r: Payload)
        ensures
            r@ == self.spec_payload(),
    ;
}

} // verus!
