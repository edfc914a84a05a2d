use gcdevproxy::auth::{BasicAuthorization, InvalidAuthorizationHeader};

#[test]
fn a_basic_authorization_is_read() {
    let auth = BasicAuthorization::from_str("Basic dXNlcjpwYXNz").ok().unwrap();
    assert_eq!(auth.username(), "user");
    assert_eq!(auth.password(), "pass");
}

#[test]
fn the_scheme_is_read_in_any_case_and_the_payload_is_trimmed() {
    let auth = BasicAuthorization::from_str("bAsIc \t dXNlcjpwYXNz  ").ok().unwrap();
    assert_eq!(auth.username(), "user");
    assert_eq!(auth.password(), "pass");
    let auth = BasicAuthorization::from_str("BASIC\tY2FtMTprOmV5\u{2003}").ok().unwrap();
    assert_eq!(auth.username(), "cam1");
    assert_eq!(auth.password(), "k:ey");
}

#[test]
fn an_empty_password_is_accepted() {
    let auth = BasicAuthorization::from_str("Basic dXNlcjo=").ok().unwrap();
    assert_eq!(auth.username(), "user");
    assert_eq!(auth.password(), "");
}

#[test]
fn other_headers_are_refused() {
    assert!(BasicAuthorization::from_str("").is_err());
    assert!(BasicAuthorization::from_str("Basic").is_err());
    assert!(BasicAuthorization::from_str("Bearer dXNlcjpwYXNz").is_err());
    assert!(BasicAuthorization::from_str(" Basic dXNlcjpwYXNz").is_err());
    // Not Base64.
    assert!(BasicAuthorization::from_str("Basic user:pass").is_err());
    // Base64 of "userpass": no colon.
    assert!(BasicAuthorization::from_str("Basic dXNlcnBhc3M=").is_err());
    // Base64 of the bytes ff 3a ff: no UTF-8.
    assert!(BasicAuthorization::from_str("Basic /zr/").is_err());
}

#[test]
fn credentials_keep_what_they_were_made_of() {
    let auth = BasicAuthorization::new("cam1", "secret");
    assert_eq!(auth.username(), "cam1");
    assert_eq!(auth.password(), "secret");
    assert_eq!(InvalidAuthorizationHeader.message(), "invalid authorization header");
}
