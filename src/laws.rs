use vstd::prelude::*;
use crate::command::{AccountCommand, Command, UserCommand};
use crate::dispatch::{
    begins, dispatches, listing, pending, steps_to, Action, Event, Failure, Operation, Output,
    Pending, RemoteCall, RemoteError, Reply, State,
};
use crate::payload::{is_json_text, InputError};
use crate::session::{first_missing, StartupValues};

verus! {

/// A run whose startup values leave any one of the five out never asks for
/// a session: it ends at once with a configuration failure.
pub proof fn missing_value_opens_no_session(v: StartupValues, command: Command, s: State, a: Action)
    requires
        v.api_endpoint is None || v.api_version is None || v.admin_login_name is None
            || v.client_id is None || v.client_secret is None,
        begins(v, command, s, a),
    ensures
        a !is OpenSession,
        s is Finished,
        a matches Action::Fail(Failure::Config(f)) && first_missing(v) == Some(f),
{
}

/// A listing of accounts for which the remote API returned no records, left
/// out or empty, shows an empty sequence and is no failure.
pub proof fn no_accounts_show_empty(
    login_name: String,
    records: Option<Vec<serde_json::Value>>,
    s: State,
    a: Action,
)
    requires
        listing(records).len() == 0,
        steps_to(
            State::Awaiting(pending(Operation::GetAccounts, Some(login_name), None)),
            Event::Replied(Reply::Records(records)),
            s,
            a,
        ),
    ensures
        a matches Action::Show(Output::Records(v)) && v@.len() == 0,
{
}

/// The history query carries every field of the command exactly as given:
/// a field left out stays out.
pub proof fn history_fields_pass_through(
    login_name: String,
    include_carry_forward: Option<bool>,
    from_date: Option<String>,
    to_date: Option<String>,
    interval: Option<String>,
    account_reconcile_type: Option<String>,
    skip: Option<u32>,
    top: Option<u32>,
    account_id: Option<String>,
    s: State,
    a: Action,
)
    requires
        login_name@.len() > 0,
        dispatches(
            Command::Account(
                AccountCommand::History {
                    login_name,
                    include_carry_forward,
                    from_date,
                    to_date,
                    interval,
                    account_reconcile_type,
                    skip,
                    top,
                    account_id,
                },
            ),
            s,
            a,
        ),
    ensures
        a matches Action::Call(RemoteCall::GetHistoricalBalances { login_name: l, query: q }) && {
            &&& l == login_name
            &&& q.include_carry_forward == include_carry_forward
            &&& q.from_date == from_date
            &&& q.to_date == to_date
            &&& q.interval == interval
            &&& q.account_reconcile_type == account_reconcile_type
            &&& q.skip == skip
            &&& q.top == top
            &&& q.account_id == account_id
        },
{
}

/// A registration first reads its document; when that cannot be read the
/// run ends with an input failure and no remote call is made.
pub proof fn unreadable_document_calls_nothing(
    json_file: String,
    reason: String,
    s1: State,
    a1: Action,
    s2: State,
    a2: Action,
)
    requires
        dispatches(Command::User(UserCommand::Register { json_file }), s1, a1),
        steps_to(s1, Event::DocumentUnreadable(reason), s2, a2),
    ensures
        a1 == Action::ReadDocument(json_file),
        a2 == Action::Fail(Failure::Input(InputError::Unreadable { path: json_file, reason })),
        s2 is Finished,
{
}

/// A document that is not well-formed JSON ends the run with an input
/// failure; only a well-formed one reaches the remote API, where a rejection
/// would be a remote failure.
pub proof fn malformed_document_is_input_error(path: String, text: String, s: State, a: Action)
    requires
        steps_to(State::Reading(path), Event::DocumentRead(text), s, a),
    ensures
        !is_json_text(text@) ==> a == Action::Fail(
            Failure::Input(InputError::Malformed { path }),
        ),
        is_json_text(text@) <==> a is Call,
{
}

/// Records returned for a listing are shown all, in the order returned.
pub proof fn records_keep_remote_order(
    p: Pending,
    records: Vec<serde_json::Value>,
    s: State,
    a: Action,
)
    requires
        p.operation == Operation::GetAccounts || p.operation == Operation::GetHistoricalBalances,
        steps_to(State::Awaiting(p), Event::Replied(Reply::Records(Some(records))), s, a),
    ensures
        a matches Action::Show(Output::Records(v)) && v@ == records@,
{
}

/// A delete that the remote API refuses, for instance because the resource
/// is already gone, ends the run with that remote error, naming the call it
/// answered, and never with a confirmation.
pub proof fn refused_delete_is_surfaced(p: Pending, message: String, s: State, a: Action)
    requires
        p.operation == Operation::DeleteUser || p.operation == Operation::DeleteAccount,
        steps_to(State::Awaiting(p), Event::RemoteFailed(message), s, a),
    ensures
        a !is Show,
        a == Action::Fail(
            Failure::Remote(
                RemoteError {
                    operation: p.operation,
                    login_name: p.login_name,
                    account_id: p.account_id,
                    message,
                },
            ),
        ),
{
}

} // verus!
