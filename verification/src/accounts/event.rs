//! The account aggregate's domain events.

use crate::accounts::aggregate::AccountType;
use crate::ddd::event::DomainEvent;
use vstd::prelude::*;

verus! {

/// A fact recorded about an account.
#[derive(Debug, Clone)]
pub enum AccountEvent {
    Opened { account_id: String, member_id: String, account_type: AccountType },
    Closed { id: String },
}

impl DomainEvent for AccountEvent {

}

impl PartialEq for AccountEvent {
    fn eq(&self, other: &AccountEvent) -> (r: bool) {
        match (self, other) {
            (
                AccountEvent::Opened { account_id: a1, member_id: m1, account_type: t1 },
                AccountEvent::Opened { account_id: a2, member_id: m2, account_type: t2 },
            ) => *a1 == *a2 && *m1 == *m2 && *t1 == *t2,
            (AccountEvent::Closed { id: i1 }, AccountEvent::Closed { id: i2 }) => *i1 == *i2,
            _ => false,
        }
    }
}

impl vstd::std_specs::cmp::PartialEqSpecImpl for AccountEvent {
    open spec fn obeys_eq_spec() -> bool {
        true
    }

    /// Events are equal when their fields carry the same text and type.
    open spec fn eq_spec(&self, other: &AccountEvent) -> bool {
        match (*self, *other) {
            (
                AccountEvent::Opened { account_id: a1, member_id: m1, account_type: t1 },
                AccountEvent::Opened { account_id: a2, member_id: m2, account_type: t2 },
            ) => a1@ == a2@ && m1@ == m2@ && t1 == t2,
            (AccountEvent::Closed { id: i1 }, AccountEvent::Closed { id: i2 }) => i1@ == i2@,
            _ => false,
        }
    }
}

} // verus!
