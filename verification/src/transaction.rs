//! The transactional capability: commit-or-rollback envelopes handed out
//! by a manager.

use vstd::prelude::*;

verus! {

/// A unit that can be made permanent or undone.
pub trait Transaction: Sized {
    /// Makes the unit's effects permanent.
    fn commit(&self);

    /// Undoes the unit's effects.
    fn rollback(&self);
}

/// Hands out and drives transactions.
pub trait TransactionManager<T: Transaction>: Sized {
    /// Starts a new transaction.
    fn start(&self) -> T;

    /// Runs the given transaction to completion.
    fn execute(&self, transaction: T);

    /// Returns the current transaction, or the supplier's if none is
    /// running.
    fn fetch<F: FnOnce() -> T>(&self, supplier: F) -> (r: T)
        requires
            call_requires(supplier, ()),
    ;
}

} // verus!
