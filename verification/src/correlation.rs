//! Correlation policies: which metadata from a processed message is
//! attached to the messages generated while processing it.

use crate::ddd::metadata::{MetaData, ValueV};
use crate::message::Message;
use vstd::prelude::*;

pub mod multi;
pub mod originator;
pub mod simple;

verus! {

/// Decides which data from a message should be attached as correlation
/// data to the messages generated while processing that message.
pub trait CorrelationProvider<T: Message>: Sized {
    /// The correlation data derived from the message, as a map.
    spec fn spec_correlation_for(&self, message: T) -> Map<Seq<char>, ValueV>;

    /// Provides the entries to attach as correlation data to generated
    /// messages while processing the given message.
    fn correlation_for(&self, message: T) -> (r: MetaData)
        ensures
            r@ == self.spec_correlation_for(message),
    ;
}

} // verus!
