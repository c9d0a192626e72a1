use vstd::prelude::*;

verus! {

/// The five startup values, as far as they were supplied.
pub struct StartupValues {
    pub api_endpoint: Option<String>,
    pub api_version: Option<String>,
    pub admin_login_name: Option<String>,
    pub client_id: Option<String>,
    pub client_secret: Option<String>,
}

/// What a session is opened with: all five values present and non-empty.
pub struct Credentials {
    pub api_endpoint: String,
    pub api_version: String,
    pub admin_login_name: String,
    pub client_id: String,
    pub client_secret: String,
}

/// Names one of the five startup values.
#[derive(PartialEq, Eq, Structural, Clone, Copy, Debug)]
pub enum CredentialField {
    ApiEndpoint,
    ApiVersion,
    AdminLoginName,
    ClientId,
    ClientSecret,
}

/// A value was supplied and is not the empty string.
pub open spec fn supplied(v: Option<String>) -> bool {
    v matches Some(s) && s@.len() > 0
}

/// The first of the five values, in the order of `StartupValues`, that is
/// absent or empty; `None` when all are supplied.
pub open spec fn first_missing(v: StartupValues) -> Option<CredentialField> {
    if !supplied(v.api_endpoint) {
        Some(CredentialField::ApiEndpoint)
    } else if !supplied(v.api_version) {
        Some(CredentialField::ApiVersion)
    } else if !supplied(v.admin_login_name) {
        Some(CredentialField::AdminLoginName)
    } else if !supplied(v.client_id) {
        Some(CredentialField::ClientId)
    } else if !supplied(v.client_secret) {
        Some(CredentialField::ClientSecret)
    } else {
        None
    }
}

/// The credentials that a complete set of startup values stands for.
pub open spec fn credentials_of(v: StartupValues) -> Credentials
    recommends
        first_missing(v) is None,
{
    Credentials {
        api_endpoint: v.api_endpoint->0,
        api_version: v.api_version->0,
        admin_login_name: v.admin_login_name->0,
        client_id: v.client_id->0,
        client_secret: v.client_secret->0,
    }
}

fn take_supplied(v: Option<String>) -> (r: Option<String>)
    ensures
        supplied(v) ==> r == v,
        !supplied(v) ==> r is None,
{
    match v {
        Some(s) => {
            if s.as_str().is_empty() {
                None
            } else {
                Some(s)
            }
        },
        None => None,
    }
}

/// Checks the startup values before any session is attempted: `Err` names
/// the first value that is absent or empty, `Ok` carries all five unchanged.
pub fn credentials_from(v: StartupValues) -> (r: Result<Credentials, CredentialField>)
    ensures
        first_missing(v) matches Some(f) ==> r == Err::<Credentials, CredentialField>(f),
        first_missing(v) is None ==> r == Ok::<Credentials, CredentialField>(credentials_of(v)),
{
    let StartupValues { api_endpoint, api_version, admin_login_name, client_id, client_secret } = v;
    let api_endpoint = match take_supplied(api_endpoint) {
        Some(s) => s,
        None => return Err(CredentialField::ApiEndpoint),
    };
    let api_version = match take_supplied(api_version) {
        Some(s) => s,
        None => return Err(CredentialField::ApiVersion),
    };
    let admin_login_name = match take_supplied(admin_login_name) {
        Some(s) => s,
        None => return Err(CredentialField::AdminLoginName),
    };
    let client_id = match take_supplied(client_id) {
        Some(s) => s,
        None => return Err(CredentialField::ClientId),
    };
    let client_secret = match take_supplied(client_secret) {
        Some(s) => s,
        None => return Err(CredentialField::ClientSecret),
    };
    Ok(Credentials { api_endpoint, api_version, admin_login_name, client_id, client_secret })
}

} // verus!
