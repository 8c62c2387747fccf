//! The card domain's events.

use crate::card::payload::{
    CardActivatedPayload, CardDeactivatePayload, CardIssuedPayload, CardLostPayload,
};
use vstd::prelude::*;

verus! {

/// A fact recorded about a card.
#[derive(Debug, Clone, PartialEq)]
pub enum CardEvent {
    Issued(CardIssuedPayload),
    Activated(CardActivatedPayload),
    Deactivated(CardDeactivatePayload),
    Lost(CardLostPayload),
}

impl CardEvent {
    /// The name each event kind is stored under.
    pub open spec fn spec_event_type(&self) -> Seq<char> {
        match *self {
            CardEvent::Issued(_) => "Issued"@,
            CardEvent::Activated(_) => "Activated"@,
            CardEvent::Deactivated(_) => "Deactivated"@,
            CardEvent::Lost(_) => "Lost"@,
        }
    }

    /// The name this event is stored under.
    pub fn event_type(&self) -> (r: String)
        ensures
            r@ == self.spec_event_type(),
    {
        match self {
            CardEvent::Issued(_) => "Issued".to_owned(),
            CardEvent::Activated(_) => "Activated".to_owned(),
            CardEvent::Deactivated(_) => "Deactivated".to_owned(),
            CardEvent::Lost(_) => "Lost".to_owned(),
        }
    }

    /// The schema version events are stored with.
    pub fn event_version(&self) -> (r: String)
        ensures
            r@ == "1.0"@,
    {
        "1.0".to_owned()
    }
}

} // verus!
