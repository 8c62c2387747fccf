//! Message interceptors: components that inspect or modify messages as
//! they flow towards their handler.

use crate::message::Message;
use vstd::prelude::*;

pub mod chain;

verus! {

/// Invoked before a message is handled by its designated handler; the
/// interceptor decides whether handling continues by proceeding on the
/// chain.
pub trait MessageHandlerInterceptor<T: Message>: Sized {
    /// The interceptor's error type.
    type Error;

    /// Inspects or rewrites the message before it is handled.
    fn handle(&self, message: T) -> Result<T, Self::Error>;
}

} // verus!
