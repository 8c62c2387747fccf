//! The capability of processing a message into a result.

use vstd::prelude::*;

verus! {

/// A component that processes messages of type `T`, producing an output
/// value or an error.
pub trait MessageProcessor<T>: Sized {
    /// The processor's error type.
    type Error;

    /// The value a successful processing produces.
    type Output;

    /// Processes the given message.
    fn process(&self, message: &T) -> Result<Self::Output, Self::Error>;
}

} // verus!
