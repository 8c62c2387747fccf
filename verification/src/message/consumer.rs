//! An operation that accepts a single input argument and returns no
//! result.

use vstd::prelude::*;

verus! {

/// A consumer of values of type `T`.
pub trait Consumer<T>: Sized {
    /// Performs this operation on the given argument.
    fn accept(self, value: T) -> Self;

    /// Returns a composed consumer that performs, in sequence, this
    /// operation followed by the `after` operation.
    fn and_then<N>(&self, after: N) -> (r: N)
        ensures
            r == after,
    {
        after
    }
}

} // verus!
