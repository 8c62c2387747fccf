//! The interceptor chain: manages the flow of a message through a chain
//! of interceptors and ultimately to the message handler.

use crate::message::Message;
use vstd::prelude::*;

verus! {

/// Interceptors continue processing by calling `proceed`; returning
/// without doing so blocks the message.
pub trait InterceptorChain<T: Message>: Sized {
    /// The chain's error type.
    type Error;

    /// Signals the chain to continue processing the message; yields the
    /// processed message.
    fn proceed(&self) -> Result<T, Self::Error>;
}

} // verus!
