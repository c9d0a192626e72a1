use yodlee_cli::session::{credentials_from, CredentialField, StartupValues};

fn values(e: &str, v: &str, a: &str, c: &str, s: &str) -> StartupValues {
    let some = |x: &str| if x == "-" { None } else { Some(x.to_string()) };
    StartupValues {
        api_endpoint: some(e),
        api_version: some(v),
        admin_login_name: some(a),
        client_id: some(c),
        client_secret: some(s),
    }
}

#[test]
fn first_missing_value_is_named() {
    assert!(matches!(credentials_from(values("-", "-", "a", "c", "s")), Err(CredentialField::ApiEndpoint)));
    assert!(matches!(credentials_from(values("e", "", "-", "c", "s")), Err(CredentialField::ApiVersion)));
    assert!(matches!(credentials_from(values("e", "v", "", "c", "s")), Err(CredentialField::AdminLoginName)));
    assert!(matches!(credentials_from(values("e", "v", "a", "-", "")), Err(CredentialField::ClientId)));
    assert!(matches!(credentials_from(values("e", "v", "a", "c", "-")), Err(CredentialField::ClientSecret)));
}

#[test]
fn complete_values_are_kept() {
    let c = credentials_from(values("e", "v", "a", "c", "s")).ok().unwrap();
    assert_eq!(
        (c.api_endpoint.as_str(), c.api_version.as_str(), c.admin_login_name.as_str(), c.client_id.as_str(), c.client_secret.as_str()),
        ("e", "v", "a", "c", "s")
    );
}
