use base::accounts::aggregate::{Account, AccountType};
use base::accounts::command::AccountCommand;
use base::accounts::error::Error;
use base::accounts::event::AccountEvent;
use base::ddd::aggregate::{rehydrate, Versioned};
use base::tester::framework::TestFramework;

#[test]
fn open_account() {
    let command = AccountCommand::Open {
        account_id: Some("1".to_owned()),
        member_id: "1".to_owned(),
        account_type: AccountType::Savings,
    };
    let expected: Vec<AccountEvent> = vec![AccountEvent::Opened {
        account_id: "1".to_owned(),
        member_id: "1".to_owned(),
        account_type: AccountType::Savings,
    }];

    assert!(TestFramework::<Account>::with(())
        .given_no_previous_events()
        .when(command)
        .then_expect_events(expected));
}

#[test]
fn open_account_missing_member_id_() {
    let command = AccountCommand::Open {
        account_id: Some("1".to_owned()),
        member_id: "".to_owned(),
        account_type: AccountType::Savings,
    };

    assert!(TestFramework::<Account>::with(())
        .given_no_previous_events()
        .when(command)
        .then_expect_error(Error::AccountMissingMemberId));
}

#[test]
fn test_close_account() {
    let previous_events = vec![AccountEvent::Opened {
        account_id: "1".to_owned(),
        member_id: Default::default(),
        account_type: Default::default(),
    }];
    let expected_events = vec![AccountEvent::Closed {
        id: "1".to_string(),
    }];

    assert!(TestFramework::<Account>::with(())
        .given(previous_events)
        .when(AccountCommand::Close {
            account_id: "1".to_string(),
        })
        .then_expect_events(expected_events));
}

#[test]
fn test_close_closed_account() {
    let previous_events = vec![
        AccountEvent::Opened {
            account_id: "1".to_owned(),
            member_id: Default::default(),
            account_type: Default::default(),
        },
        AccountEvent::Closed {
            id: "1".to_string(),
        },
    ];
    let expected_events = vec![];

    assert!(TestFramework::<Account>::with(())
        .given(previous_events)
        .when(AccountCommand::Close {
            account_id: "1".to_string(),
        })
        .then_expect_events(expected_events));
}

#[test]
fn open_account_without_id_generates_one() {
    let command = AccountCommand::Open {
        account_id: None,
        member_id: "m-9".to_owned(),
        account_type: AccountType::Checking,
    };

    let result = TestFramework::<Account>::with(())
        .given_no_previous_events()
        .when(command)
        .inspect_result();

    let events = result.expect("opening with a valid member id must succeed");
    assert_eq!(events.len(), 1);
    match &events[0] {
        AccountEvent::Opened {
            account_id,
            member_id,
            account_type,
        } => {
            assert!(!account_id.is_empty());
            assert_eq!(account_id.len(), 36);
            assert_eq!(member_id, "m-9");
            assert_eq!(*account_type, AccountType::Checking);
        }
        other => panic!("expected an Opened event, got {:?}", other),
    }
}

#[test]
fn open_missing_member_id_error_message() {
    let command = AccountCommand::Open {
        account_id: None,
        member_id: "".to_owned(),
        account_type: AccountType::Checking,
    };

    assert!(TestFramework::<Account>::with(())
        .given_no_previous_events()
        .when(command)
        .then_expect_error_message("Account is missing member id"));
}

#[test]
fn rehydration_version_equals_history_length() {
    let history = vec![
        AccountEvent::Opened {
            account_id: "1".to_owned(),
            member_id: "2".to_owned(),
            account_type: AccountType::Savings,
        },
        AccountEvent::Closed {
            id: "1".to_owned(),
        },
        AccountEvent::Opened {
            account_id: "1".to_owned(),
            member_id: "2".to_owned(),
            account_type: AccountType::Savings,
        },
    ];
    let n = history.len();

    let account: Account = rehydrate(history);

    assert_eq!(account.state.version(), n);
}

#[test]
fn rehydration_of_empty_history_is_version_zero() {
    let account: Account = rehydrate(Vec::new());

    assert_eq!(account.state.version(), 0);
}
