use vstd::prelude::*;
use crate::command::{AccountCommand, Command, HistoricalBalanceQuery};
use crate::dispatch::{await_call, dispatches, fail, Action, Failure, Operation, ParameterField, RemoteCall, State};

verus! {

/// The first action of an account command once the session is open: one
/// remote call with the command's fields passed through, unless a field the
/// call needs is empty.
pub fn process_command(command: AccountCommand) -> (r: (State, Action))
    ensures
        dispatches(Command::Account(command), r.0, r.1),
{
    match command {
        AccountCommand::Get { login_name } => {
            if login_name.as_str().is_empty() {
                return fail(Failure::Parameter(ParameterField::LoginName));
            }
            let l = login_name.clone();
            await_call(Operation::GetAccounts, &l, None, RemoteCall::GetAccounts { login_name })
        },
        AccountCommand::Delete { login_name, account_id } => {
            if login_name.as_str().is_empty() {
                return fail(Failure::Parameter(ParameterField::LoginName));
            }
            if account_id.as_str().is_empty() {
                return fail(Failure::Parameter(ParameterField::AccountId));
            }
            let l = login_name.clone();
            let id = account_id.clone();
            await_call(
                Operation::DeleteAccount,
                &l,
                Some(&id),
                RemoteCall::DeleteAccount { login_name, account_id },
            )
        },
        AccountCommand::History {
            login_name,
            include_carry_forward,
            from_date,
            to_date,
            interval,
            account_reconcile_type,
            skip,
            top,
            account_id,
        } => {
            if login_name.as_str().is_empty() {
                return fail(Failure::Parameter(ParameterField::LoginName));
            }
            let l = login_name.clone();
            let query = HistoricalBalanceQuery {
                include_carry_forward,
                from_date,
                to_date,
                interval,
                account_reconcile_type,
                skip,
                top,
                account_id,
            };
            await_call(
                Operation::GetHistoricalBalances,
                &l,
                None,
                RemoteCall::GetHistoricalBalances { login_name, query },
            )
        },
    }
}

} // verus!
