//! The account aggregate's validation-error taxonomy.

use crate::ddd::aggregate::ErrorMessage;
use vstd::prelude::*;

verus! {

/// A command was rejected during validation.
#[derive(Debug, Clone)]
pub enum Error {
    AccountMissingMemberId,
}

impl ErrorMessage for Error {
    open spec fn spec_message(&self) -> Seq<char> {
        "Account is missing member id"@
    }

    fn message(&self) -> (r: String) {
        "Account is missing member id".to_owned()
    }
}

impl PartialEq for Error {
    fn eq(&self, other: &Error) -> (r: bool) {
        match (self, other) {
            (Error::AccountMissingMemberId, Error::AccountMissingMemberId) => true,
        }
    }
}

impl vstd::std_specs::cmp::PartialEqSpecImpl for Error {
    open spec fn obeys_eq_spec() -> bool {
        true
    }

    open spec fn eq_spec(&self, other: &Error) -> bool {
        *self == *other
    }
}

} // verus!
