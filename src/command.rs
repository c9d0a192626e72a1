use vstd::prelude::*;

verus! {

/// Operations on the accounts that a user holds.
pub enum AccountCommand {
    /// List the accounts held by a user.
    Get { login_name: String },
    /// Delete one account of a user.
    Delete { login_name: String, account_id: String },
    /// List the history of account balances. Every optional field left out
    /// lets the remote API choose its default.
    History {
        login_name: String,
        include_carry_forward: Option<bool>,
        /// YYYY-MM-DD
        from_date: Option<String>,
        /// YYYY-MM-DD
        to_date: Option<String>,
        /// `d` (daily), `w` (weekly) or `m` (monthly)
        interval: Option<String>,
        /// `UNRECONCILED` or `RECONCILED`
        account_reconcile_type: Option<String>,
        /// Records to skip (remote minimum: 0).
        skip: Option<u32>,
        /// Records to fetch (remote maximum: 500).
        top: Option<u32>,
        account_id: Option<String>,
    },
}

/// Operations on users.
pub enum UserCommand {
    /// Register a user from a JSON document on disk; only the login name is
    /// required in it.
    Register { json_file: String },
    /// Get a user's details.
    Get { login_name: String },
    /// Delete a user.
    Delete { login_name: String },
}

/// One invocation: a command of one of the two resource groups.
pub enum Command {
    User(UserCommand),
    Account(AccountCommand),
}

/// The filter of a historical-balance request. Each field is passed to the
/// remote API as given; `None` means the remote default.
pub struct HistoricalBalanceQuery {
    pub include_carry_forward: Option<bool>,
    pub from_date: Option<String>,
    pub to_date: Option<String>,
    pub interval: Option<String>,
    pub account_reconcile_type: Option<String>,
    pub skip: Option<u32>,
    pub top: Option<u32>,
    pub account_id: Option<String>,
}

} // verus!
