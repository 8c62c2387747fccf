//! The capability of handling a message.

use vstd::prelude::*;

verus! {

/// A component that handles messages of type `T`. Implementations decide
/// what handling means; the registry and the unit of work propagate their
/// outcome unchanged.
pub trait MessageHandler<T>: Sized {
    /// The handler's error type.
    type Error;

    /// What `handle` promises of its outcome for the given message; an
    /// implementation that keeps this default promises nothing.
    open spec fn handle_post(&self, message: &T, r: Result<(), Self::Error>) -> bool {
        true
    }

    /// Handles the given message.
    fn handle(&self, message: &T) -> (r: Result<(), Self::Error>)
        ensures
            self.handle_post(message, r),
    ;
}

} // verus!
