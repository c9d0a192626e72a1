use vstd::prelude::*;
use crate::account;
use crate::command::{AccountCommand, Command, HistoricalBalanceQuery, UserCommand};
use crate::user;
use crate::payload::{is_json_text, registration_payload, InputError};
use crate::session::{credentials_from, credentials_of, first_missing, Credentials, CredentialField, StartupValues};

verus! {

/// The remote operations, one per command.
#[derive(PartialEq, Eq, Structural, Clone, Copy, Debug)]
pub enum Operation {
    RegisterUser,
    GetUser,
    DeleteUser,
    GetAccounts,
    DeleteAccount,
    GetHistoricalBalances,
}

/// One remote call with its parameters, to be made through the open session.
pub enum RemoteCall {
    RegisterUser { payload: serde_json::Value },
    GetUser { login_name: String },
    DeleteUser { login_name: String },
    GetAccounts { login_name: String },
    DeleteAccount { login_name: String, account_id: String },
    GetHistoricalBalances { login_name: String, query: HistoricalBalanceQuery },
}

/// What is remembered of a call while its reply is awaited.
pub struct Pending {
    pub operation: Operation,
    pub login_name: Option<String>,
    pub account_id: Option<String>,
}

/// What the remote API answered to a call that succeeded.
pub enum Reply {
    /// A user's representation.
    Document(serde_json::Value),
    /// A collection of records, which the remote API may leave out.
    Records(Option<Vec<serde_json::Value>>),
    /// A confirmation without a body.
    Done,
}

/// What is shown of a successful run.
pub enum Output {
    Document(serde_json::Value),
    Records(Vec<serde_json::Value>),
    UserDeleted { login_name: String },
    AccountDeleted { login_name: String, account_id: String },
}

/// A command field that the remote call needs non-empty.
#[derive(PartialEq, Eq, Structural, Clone, Copy, Debug)]
pub enum ParameterField {
    LoginName,
    AccountId,
}

/// A failure reported by the remote API, with the call it answered.
pub struct RemoteError {
    pub operation: Operation,
    pub login_name: Option<String>,
    pub account_id: Option<String>,
    pub message: String,
}

/// Why a run ends without output.
pub enum Failure {
    /// A startup value is absent or empty; no session was attempted.
    Config(CredentialField),
    /// The session could not be opened.
    Auth(String),
    /// The registration document is unreadable or malformed.
    Input(InputError),
    /// A command field is empty where the remote call needs a value.
    Parameter(ParameterField),
    /// The remote call failed.
    Remote(RemoteError),
    /// An event came that the run was not waiting for.
    OutOfOrder,
}

/// What the caller is to do next.
pub enum Action {
    OpenSession(Credentials),
    ReadDocument(String),
    Call(RemoteCall),
    Show(Output),
    Fail(Failure),
}

/// What the caller reports back after doing an action.
pub enum Event {
    SessionOpened,
    SessionRefused(String),
    DocumentRead(String),
    DocumentUnreadable(String),
    Replied(Reply),
    RemoteFailed(String),
}

/// Where a run stands.
pub enum State {
    /// Waiting for the session, with the command to dispatch once it is open.
    Connecting(Command),
    /// Waiting for the text of the registration document at this path.
    Reading(String),
    /// Waiting for the reply to the one remote call.
    Awaiting(Pending),
    /// Done: nothing more is awaited.
    Finished,
}

pub open spec fn blank(s: String) -> bool {
    s@.len() == 0
}

pub open spec fn fails_with(s: State, a: Action, f: Failure) -> bool {
    s == State::Finished && a == Action::Fail(f)
}

pub open spec fn calls(s: State, a: Action, p: Pending, c: RemoteCall) -> bool {
    s == State::Awaiting(p) && a == Action::Call(c)
}

pub open spec fn pending(op: Operation, login_name: Option<String>, account_id: Option<String>) -> Pending {
    Pending { operation: op, login_name, account_id }
}

/// How a run starts: with the session when every startup value is supplied,
/// else with a configuration failure naming the first one missing.
pub open spec fn begins(v: StartupValues, command: Command, s: State, a: Action) -> bool {
    match first_missing(v) {
        Some(f) => fails_with(s, a, Failure::Config(f)),
        None => s == State::Connecting(command) && a == Action::OpenSession(credentials_of(v)),
    }
}

/// What a command turns into once the session is open: the document read
/// for a registration, else the one remote call with the command's fields
/// as they are, unless a field that the call needs is empty.
pub open spec fn dispatches(command: Command, s: State, a: Action) -> bool {
    match command {
        Command::User(UserCommand::Register { json_file }) => s == State::Reading(json_file) && a
            == Action::ReadDocument(json_file),
        Command::User(UserCommand::Get { login_name }) => if blank(login_name) {
            fails_with(s, a, Failure::Parameter(ParameterField::LoginName))
        } else {
            calls(
                s,
                a,
                pending(Operation::GetUser, Some(login_name), None),
                RemoteCall::GetUser { login_name },
            )
        },
        Command::User(UserCommand::Delete { login_name }) => if blank(login_name) {
            fails_with(s, a, Failure::Parameter(ParameterField::LoginName))
        } else {
            calls(
                s,
                a,
                pending(Operation::DeleteUser, Some(login_name), None),
                RemoteCall::DeleteUser { login_name },
            )
        },
        Command::Account(AccountCommand::Get { login_name }) => if blank(login_name) {
            fails_with(s, a, Failure::Parameter(ParameterField::LoginName))
        } else {
            calls(
                s,
                a,
                pending(Operation::GetAccounts, Some(login_name), None),
                RemoteCall::GetAccounts { login_name },
            )
        },
        Command::Account(AccountCommand::Delete { login_name, account_id }) => if blank(login_name) {
            fails_with(s, a, Failure::Parameter(ParameterField::LoginName))
        } else if blank(account_id) {
            fails_with(s, a, Failure::Parameter(ParameterField::AccountId))
        } else {
            calls(
                s,
                a,
                pending(Operation::DeleteAccount, Some(login_name), Some(account_id)),
                RemoteCall::DeleteAccount { login_name, account_id },
            )
        },
        Command::Account(
            AccountCommand::History {
                login_name,
                include_carry_forward,
                from_date,
                to_date,
                interval,
                account_reconcile_type,
                skip,
                top,
                account_id,
            },
        ) => if blank(login_name) {
            fails_with(s, a, Failure::Parameter(ParameterField::LoginName))
        } else {
            calls(
                s,
                a,
                pending(Operation::GetHistoricalBalances, Some(login_name), None),
                RemoteCall::GetHistoricalBalances {
                    login_name,
                    query: HistoricalBalanceQuery {
                        include_carry_forward,
                        from_date,
                        to_date,
                        interval,
                        account_reconcile_type,
                        skip,
                        top,
                        account_id,
                    },
                },
            )
        },
    }
}

/// The records of a reply: those given, in their order, or none where the
/// collection was left out.
pub open spec fn listing(records: Option<Vec<serde_json::Value>>) -> Seq<serde_json::Value> {
    match records {
        Some(v) => v@,
        None => Seq::empty(),
    }
}

/// What a reply to the awaited call shows.
pub open spec fn concludes(p: Pending, reply: Reply, s: State, a: Action) -> bool {
    match reply {
        Reply::Document(d) => if p.operation == Operation::GetUser || p.operation
            == Operation::RegisterUser {
            s == State::Finished && a == Action::Show(Output::Document(d))
        } else {
            fails_with(s, a, Failure::OutOfOrder)
        },
        Reply::Records(r) => if p.operation == Operation::GetAccounts || p.operation
            == Operation::GetHistoricalBalances {
            &&& s == State::Finished
            &&& a matches Action::Show(Output::Records(v))
            &&& v@ == listing(r)
        } else {
            fails_with(s, a, Failure::OutOfOrder)
        },
        Reply::Done => if p.operation == Operation::DeleteUser && p.login_name is Some {
            s == State::Finished && a == Action::Show(
                Output::UserDeleted { login_name: p.login_name->0 },
            )
        } else if p.operation == Operation::DeleteAccount && p.login_name is Some
            && p.account_id is Some {
            s == State::Finished && a == Action::Show(
                Output::AccountDeleted { login_name: p.login_name->0, account_id: p.account_id->0 },
            )
        } else {
            fails_with(s, a, Failure::OutOfOrder)
        },
    }
}

/// The failure that a remote error on the awaited call ends the run with.
pub open spec fn remote_failure(p: Pending, message: String) -> Failure {
    Failure::Remote(
        RemoteError {
            operation: p.operation,
            login_name: p.login_name,
            account_id: p.account_id,
            message,
        },
    )
}

/// One step of a run. Every event that the state does not await ends the
/// run as out of order.
pub open spec fn steps_to(state: State, event: Event, s: State, a: Action) -> bool {
    match state {
        State::Connecting(command) => match event {
            Event::SessionOpened => dispatches(command, s, a),
            Event::SessionRefused(m) => fails_with(s, a, Failure::Auth(m)),
            _ => fails_with(s, a, Failure::OutOfOrder),
        },
        State::Reading(path) => match event {
            Event::DocumentRead(text) => if is_json_text(text@) {
                &&& s == State::Awaiting(pending(Operation::RegisterUser, None, None))
                &&& a matches Action::Call(RemoteCall::RegisterUser { .. })
            } else {
                fails_with(s, a, Failure::Input(InputError::Malformed { path }))
            },
            Event::DocumentUnreadable(reason) => fails_with(
                s,
                a,
                Failure::Input(InputError::Unreadable { path, reason }),
            ),
            _ => fails_with(s, a, Failure::OutOfOrder),
        },
        State::Awaiting(p) => match event {
            Event::Replied(reply) => concludes(p, reply, s, a),
            Event::RemoteFailed(m) => fails_with(s, a, remote_failure(p, m)),
            _ => fails_with(s, a, Failure::OutOfOrder),
        },
        State::Finished => fails_with(s, a, Failure::OutOfOrder),
    }
}

pub(crate) fn fail(f: Failure) -> (r: (State, Action))
    ensures
        fails_with(r.0, r.1, f),
{
    (State::Finished, Action::Fail(f))
}

/// Starts a run: checks the startup values, then asks for the session.
pub fn begin(values: StartupValues, command: Command) -> (r: (State, Action))
    ensures
        begins(values, command, r.0, r.1),
{
    match credentials_from(values) {
        Ok(c) => (State::Connecting(command), Action::OpenSession(c)),
        Err(f) => fail(Failure::Config(f)),
    }
}

pub(crate) fn await_call(op: Operation, login_name: &String, account_id: Option<&String>, call: RemoteCall) -> (r: (
    State,
    Action,
))
    ensures
        calls(
            r.0,
            r.1,
            pending(
                op,
                Some(*login_name),
                match account_id {
                    Some(id) => Some(*id),
                    None => None,
                },
            ),
            call,
        ),
{
    let account_id = match account_id {
        Some(id) => Some(id.clone()),
        None => None,
    };
    let p = Pending { operation: op, login_name: Some(login_name.clone()), account_id };
    (State::Awaiting(p), Action::Call(call))
}

/// Turns a command into its first action once the session is open, by its
/// resource group.
pub fn dispatch(command: Command) -> (r: (State, Action))
    ensures
        dispatches(command, r.0, r.1),
{
    match command {
        Command::User(c) => user::process_command(c),
        Command::Account(c) => account::process_command(c),
    }
}

/// The records to show: those of the reply in their order, or an empty
/// sequence where the remote API left the collection out.
pub fn records_or_empty(records: Option<Vec<serde_json::Value>>) -> (r: Vec<serde_json::Value>)
    ensures
        r@ == listing(records),
{
    match records {
        Some(v) => v,
        None => Vec::new(),
    }
}

/// Turns the reply to the awaited call into what is shown.
pub fn conclude(p: Pending, reply: Reply) -> (r: (State, Action))
    ensures
        concludes(p, reply, r.0, r.1),
{
    match reply {
        Reply::Document(d) => {
            if p.operation == Operation::GetUser || p.operation == Operation::RegisterUser {
                (State::Finished, Action::Show(Output::Document(d)))
            } else {
                fail(Failure::OutOfOrder)
            }
        },
        Reply::Records(r) => {
            if p.operation == Operation::GetAccounts || p.operation
                == Operation::GetHistoricalBalances {
                (State::Finished, Action::Show(Output::Records(records_or_empty(r))))
            } else {
                fail(Failure::OutOfOrder)
            }
        },
        Reply::Done => {
            let Pending { operation, login_name, account_id } = p;
            match (operation, login_name, account_id) {
                (Operation::DeleteUser, Some(login_name), _) => (
                    State::Finished,
                    Action::Show(Output::UserDeleted { login_name }),
                ),
                (Operation::DeleteAccount, Some(login_name), Some(account_id)) => (
                    State::Finished,
                    Action::Show(Output::AccountDeleted { login_name, account_id }),
                ),
                _ => fail(Failure::OutOfOrder),
            }
        },
    }
}

/// Moves a run one step on, from its state and the event that the last
/// action brought.
pub fn step(state: State, event: Event) -> (r: (State, Action))
    ensures
        steps_to(state, event, r.0, r.1),
{
    match state {
        State::Connecting(command) => match event {
            Event::SessionOpened => dispatch(command),
            Event::SessionRefused(m) => fail(Failure::Auth(m)),
            _ => fail(Failure::OutOfOrder),
        },
        State::Reading(path) => match event {
            Event::DocumentRead(text) => match registration_payload(path, text) {
                Ok(payload) => (
                    State::Awaiting(
                        Pending { operation: Operation::RegisterUser, login_name: None, account_id: None },
                    ),
                    Action::Call(RemoteCall::RegisterUser { payload }),
                ),
                Err(e) => fail(Failure::Input(e)),
            },
            Event::DocumentUnreadable(reason) => fail(
                Failure::Input(InputError::Unreadable { path, reason }),
            ),
            _ => fail(Failure::OutOfOrder),
        },
        State::Awaiting(p) => match event {
            Event::Replied(reply) => conclude(p, reply),
            Event::RemoteFailed(message) => {
                let Pending { operation, login_name, account_id } = p;
                fail(Failure::Remote(RemoteError { operation, login_name, account_id, message }))
            },
            _ => fail(Failure::OutOfOrder),
        },
        State::Finished => fail(Failure::OutOfOrder),
    }
}

} // verus!
