//! The card domain's commands.

use crate::card::payload::{
    ActivateCardPayload, DeactivateCardPayload, IssueCardPayload, LoseCardPayload,
};
use vstd::prelude::*;

verus! {

/// An intent concerning a card.
#[derive(Debug)]
pub enum CardCommand {
    Issue(IssueCardPayload),
    Activate(ActivateCardPayload),
    Deactivate(DeactivateCardPayload),
    Lose(LoseCardPayload),
}

} // verus!
