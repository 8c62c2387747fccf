//! A minimal finite-state-machine capability: a state consumes an input
//! and becomes the next state.

use vstd::prelude::*;

verus! {

/// A state that handles one input and yields the next state.
pub trait State: Sized {
    /// The input the state consumes.
    type Input;

    /// The state reached after handling.
    type Next;

    /// Handles the input, consuming this state.
    fn handle(self, input: Self::Input) -> Self::Next;
}

} // verus!
