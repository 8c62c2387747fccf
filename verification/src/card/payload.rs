//! Payloads of the card domain's commands and events.

use vstd::prelude::*;

verus! {

/// The product tier of a card.
#[derive(Debug, Clone, PartialEq, Eq, Structural)]
pub enum CardType {
    Platinum,
    Cash,
    Green,
}

// Command payloads

/// Asks for a card to be issued.
#[derive(Debug)]
pub struct IssueCardPayload {
    pub id: String,
    pub typ: CardType,
    pub number: String,
}

/// Asks for a card to be activated.
#[derive(Debug)]
pub struct ActivateCardPayload {
    pub id: String,
}

/// Asks for a card to be deactivated.
#[derive(Debug)]
pub struct DeactivateCardPayload {
    pub id: String,
}

/// Reports a card as lost.
#[derive(Debug)]
pub struct LoseCardPayload {
    pub id: String,
}

// Event payloads

/// Records that a card was issued.
#[derive(Debug, Clone, PartialEq)]
pub struct CardIssuedPayload {
    pub id: String,
    pub typ: CardType,
    pub number: String,
}

/// Records that a card was activated.
#[derive(Debug, Clone, PartialEq)]
pub struct CardActivatedPayload {
    pub id: String,
}

/// Records that a card was deactivated.
#[derive(Debug, Clone, PartialEq)]
pub struct CardDeactivatePayload {
    pub id: String,
}

/// Records that a card was lost.
#[derive(Debug, Clone, PartialEq)]
pub struct CardLostPayload {
    pub id: String,
}

} // verus!
