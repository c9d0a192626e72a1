use yodlee_cli::account;
use yodlee_cli::command::{AccountCommand, UserCommand};
use yodlee_cli::dispatch::{Action, Failure, Operation, ParameterField, RemoteCall, State};
use yodlee_cli::user;

#[test]
fn user_register_reads_document_first() {
    let (state, action) = user::process_command(UserCommand::Register { json_file: "new.json".to_string() });
    assert!(matches!(state, State::Reading(ref p) if p == "new.json"));
    assert!(matches!(action, Action::ReadDocument(ref p) if p == "new.json"));
}

#[test]
fn user_delete_calls_remote_once() {
    let (state, action) = user::process_command(UserCommand::Delete { login_name: "bob".to_string() });
    match state {
        State::Awaiting(p) => {
            assert_eq!(p.operation, Operation::DeleteUser);
            assert_eq!(p.login_name.as_deref(), Some("bob"));
            assert_eq!(p.account_id, None);
        }
        _ => panic!("expected to await the delete"),
    }
    assert!(matches!(action, Action::Call(RemoteCall::DeleteUser { login_name }) if login_name == "bob"));
}

#[test]
fn account_delete_remembers_account() {
    let (state, action) = account::process_command(AccountCommand::Delete {
        login_name: "alice".to_string(),
        account_id: "42".to_string(),
    });
    match state {
        State::Awaiting(p) => {
            assert_eq!(p.operation, Operation::DeleteAccount);
            assert_eq!(p.account_id.as_deref(), Some("42"));
        }
        _ => panic!("expected to await the delete"),
    }
    assert!(matches!(action, Action::Call(RemoteCall::DeleteAccount { .. })));
}

#[test]
fn account_history_needs_login_name() {
    let (state, action) = account::process_command(AccountCommand::History {
        login_name: String::new(),
        include_carry_forward: None,
        from_date: None,
        to_date: None,
        interval: None,
        account_reconcile_type: None,
        skip: None,
        top: None,
        account_id: None,
    });
    assert!(matches!(state, State::Finished));
    assert!(matches!(action, Action::Fail(Failure::Parameter(ParameterField::LoginName))));
}
