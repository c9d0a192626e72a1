use vstd::prelude::*;
use crate::command::{Command, UserCommand};
use crate::dispatch::{await_call, dispatches, fail, Action, Failure, Operation, ParameterField, RemoteCall, State};

verus! {

/// The first action of a user command once the session is open: the
/// registration document is read first; every other command is one remote
/// call, unless its login name is empty.
pub fn process_command(command: UserCommand) -> (r: (State, Action))
    ensures
        dispatches(Command::User(command), r.0, r.1),
{
    match command {
        UserCommand::Register { json_file } => {
            let path = json_file.clone();
            (State::Reading(path), Action::ReadDocument(json_file))
        },
        UserCommand::Get { login_name } => {
            if login_name.as_str().is_empty() {
                return fail(Failure::Parameter(ParameterField::LoginName));
            }
            let l = login_name.clone();
            await_call(Operation::GetUser, &l, None, RemoteCall::GetUser { login_name })
        },
        UserCommand::Delete { login_name } => {
            if login_name.as_str().is_empty() {
                return fail(Failure::Parameter(ParameterField::LoginName));
            }
            let l = login_name.clone();
            await_call(Operation::DeleteUser, &l, None, RemoteCall::DeleteUser { login_name })
        },
    }
}

} // verus!
