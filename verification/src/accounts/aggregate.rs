//! The account aggregate: validates account commands against the current
//! state and applies account events to advance it.

use crate::accounts::command::AccountCommand;
use crate::accounts::error::Error;
use crate::accounts::event::AccountEvent;
use crate::ddd::aggregate::{Aggregate, Versioned};
use crate::util::fresh_uuid;
use vstd::prelude::*;

verus! {

/// The kind of account held.
#[derive(Debug, Default, Clone, PartialEq, Eq, Structural)]
pub enum AccountType {
    #[default]
    Checking,
    Savings,
}

/// Whether the account accepts activity.
#[derive(Debug, Default, Clone, PartialEq, Eq, Structural)]
pub enum AccountStatus {
    #[default]
    Open,
    Closed,
}

/// The account aggregate's versioned state.
#[derive(Debug)]
pub struct AccountState {
    pub id: String,
    pub account_type: AccountType,
    pub member_id: String,
    pub version: usize,
    pub status: AccountStatus,
}

impl Versioned for AccountState {
    open spec fn spec_version(&self) -> int {
        self.version as int
    }

    fn version(&self) -> (v: usize) {
        self.version
    }
}

/// The account aggregate.
#[derive(Debug)]
pub struct Account {
    pub state: AccountState,
}

impl Aggregate for Account {
    type Error = Error;

    type State = AccountState;

    type Command = AccountCommand;

    type Event = AccountEvent;

    type Service = ();

    open spec fn spec_version(&self) -> int {
        self.state.version as int
    }

    /// A fresh account has empty ids, the default type, and is open.
    open spec fn fresh_post(agg: Account) -> bool {
        &&& agg.state.id@ == Seq::<char>::empty()
        &&& agg.state.member_id@ == Seq::<char>::empty()
        &&& agg.state.account_type == AccountType::Checking
        &&& agg.state.status == AccountStatus::Open
        &&& agg.state.version == 0
    }

    /// Opening with an empty member id is rejected with the missing-member
    /// error and zero events. Opening with a valid member id yields
    /// exactly one `Opened` event carrying the given id, or a freshly
    /// generated non-empty id when none is given. Closing an open account
    /// yields exactly one `Closed` event; closing one already closed
    /// yields zero events and no error.
    open spec fn handle_post(
        &self,
        command: AccountCommand,
        result: Result<Vec<AccountEvent>, Error>,
    ) -> bool {
        match command {
            AccountCommand::Open { account_id, member_id, account_type } => {
                if member_id@.len() == 0 {
                    result == Err::<Vec<AccountEvent>, Error>(Error::AccountMissingMemberId)
                } else {
                    match result {
                        Ok(events) => events@.len() == 1 && match events@[0] {
                            AccountEvent::Opened {
                                account_id: aid,
                                member_id: mid,
                                account_type: at,
                            } => mid@ == member_id@ && at == account_type && match account_id {
                                Some(given) => aid@ == given@,
                                None => aid@.len() == 36,
                            },
                            AccountEvent::Closed { .. } => false,
                        },
                        Err(_) => false,
                    }
                }
            },
            AccountCommand::Close { account_id } => match result {
                Ok(events) => {
                    if self.state.status == AccountStatus::Open {
                        events@.len() == 1 && events@[0] == (AccountEvent::Closed {
                            id: account_id,
                        })
                    } else {
                        events@.len() == 0
                    }
                },
                Err(_) => false,
            },
        }
    }

    /// `Opened` installs the event's id, member and type and opens the
    /// account; `Closed` closes it; all other fields are kept.
    open spec fn apply_post(self, event: AccountEvent, next: Account) -> bool {
        next.state.version == self.state.version + 1 && match event {
            AccountEvent::Opened { account_id, member_id, account_type } => {
                &&& next.state.id@ == account_id@
                &&& next.state.member_id@ == member_id@
                &&& next.state.account_type == account_type
                &&& next.state.status == AccountStatus::Open
            },
            AccountEvent::Closed { id: _ } => {
                &&& next.state.id@ == self.state.id@
                &&& next.state.member_id@ == self.state.member_id@
                &&& next.state.account_type == self.state.account_type
                &&& next.state.status == AccountStatus::Closed
            },
        }
    }

    fn fresh() -> (agg: Account) {
        Account {
            state: AccountState {
                id: String::new(),
                account_type: AccountType::Checking,
                member_id: String::new(),
                version: 0,
                status: AccountStatus::Open,
            },
        }
    }

    fn handle(&self, command: AccountCommand, _service: &()) -> (r: Result<
        Vec<AccountEvent>,
        Error,
    >) {
        match command {
            AccountCommand::Open { account_id, member_id, account_type } => {
                if member_id.as_str().is_empty() {
                    return Err(Error::AccountMissingMemberId);
                }
                let id = match account_id {
                    Some(given) => given,
                    None => fresh_uuid(),
                };
                Ok(vec![AccountEvent::Opened { account_id: id, member_id, account_type }])
            },
            AccountCommand::Close { account_id } => {
                let mut events: Vec<AccountEvent> = Vec::new();
                if self.state.status == AccountStatus::Open {
                    events.push(AccountEvent::Closed { id: account_id });
                }
                Ok(events)
            },
        }
    }

    fn apply(self, event: AccountEvent) -> (next: Account) {
        let mut state = self.state;
        match event {
            AccountEvent::Opened { account_id, member_id, account_type } => {
                state.id = account_id;
                state.member_id = member_id;
                state.account_type = account_type;
                state.status = AccountStatus::Open;
            },
            AccountEvent::Closed { id: _ } => {
                state.status = AccountStatus::Closed;
            },
        }
        state.version = state.version + 1;
        Account { state }
    }
}

} // verus!
