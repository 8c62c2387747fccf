//! The opaque structured value carried by a message; read-only after
//! construction.

use crate::ddd::metadata::{Value, ValueV};
use vstd::prelude::*;

verus! {

/// An application-specific payload value.
#[derive(Debug, PartialEq)]
pub struct Payload {
    inner: Value,
}

impl View for Payload {
    type V = ValueV;

    closed spec fn view(&self) -> ValueV {
        self.inner@
    }
}

impl Payload {
    /// Wraps a value as a payload.
    pub fn new(payload: Value) -> (r: Self)
        ensures
            r@ == payload@,
    {
        Payload { inner: payload }
    }

    /// The wrapped value.
    pub fn value(&self) -> (r: &Value)
        ensures
            r@ == self@,
    {
        &self.inner
    }
}

impl Clone for Payload {
    /// Clones preserve the payload's value.
    fn clone(&self) -> (r: Self)
        ensures
            r@ == self@,
    {
        Payload { inner: self.inner.clone() }
    }
}

} // verus!
