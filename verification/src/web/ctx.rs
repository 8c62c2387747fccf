//! The authenticated request context.

use vstd::prelude::*;

verus! {

/// Identifies the user a request acts for.
#[derive(Debug, Clone, Copy, PartialEq, Eq, Structural)]
pub struct Ctx {
    user_id: u64,
}

impl Ctx {
    /// Builds a context for the given user.
    pub fn new(user_id: u64) -> (r: Self)
        ensures
            r.spec_user_id() == user_id,
    {
        Ctx { user_id }
    }

    /// The acting user's id.
    pub closed spec fn spec_user_id(&self) -> u64 {
        self.user_id
    }

    /// The acting user's id.
    pub fn user_id(&self) -> (r: u64)
        ensures
            r == self.spec_user_id(),
    {
        self.user_id
    }
}

} // verus!
