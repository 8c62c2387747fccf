//! The account aggregate's commands.

use crate::accounts::aggregate::AccountType;
use vstd::prelude::*;

verus! {

/// An intent concerning an account; commands are validated by the
/// aggregate and never persisted.
#[derive(Debug)]
pub enum AccountCommand {
    Open { account_id: Option<String>, member_id: String, account_type: AccountType },
    Close { account_id: String },
}

} // verus!
