use base64::Engine;

use reqcli::auth::{basic_auth_header, join_credentials, resolve_auth, user_needs_password};
use reqcli::cli::AuthMethod;
use reqcli::error::Error;

#[test]
fn user_with_colon_needs_no_password() {
    assert!(!user_needs_password("user:pass"));
    assert!(user_needs_password("user"));
    assert!(!user_needs_password(":"));
}

#[test]
fn basic_header_matches_standard_base64() {
    let header = basic_auth_header("user:pass");
    assert_eq!(header, "Basic dXNlcjpwYXNz");
    let expected = format!(
        "Basic {}",
        base64::prelude::BASE64_STANDARD.encode("user:pass".as_bytes())
    );
    assert_eq!(header, expected);
}

#[test]
fn basic_header_is_padded() {
    // One input byte encodes to four characters with two `=` pads.
    assert_eq!(basic_auth_header("a"), "Basic YQ==");
}

#[test]
fn resolve_inline_credentials_without_prompt() {
    let auth = AuthMethod { auth: None, user: Some("user:pass".to_string()) };
    // No password was prompted for, and none is needed.
    let header = resolve_auth(&auth, None).unwrap().unwrap();
    assert_eq!(header, "Basic dXNlcjpwYXNz");
}

#[test]
fn resolve_with_prompted_password() {
    let auth = AuthMethod { auth: None, user: Some("user".to_string()) };
    let password = "pass".to_string();
    let header = resolve_auth(&auth, Some(&password)).unwrap().unwrap();
    assert_eq!(header, "Basic dXNlcjpwYXNz");
}

#[test]
fn resolve_fails_when_prompt_failed() {
    let auth = AuthMethod { auth: None, user: Some("user".to_string()) };
    assert_eq!(resolve_auth(&auth, None), Err(Error::IoError));
}

#[test]
fn shorthand_value_passes_through_unchanged() {
    let auth = AuthMethod { auth: Some("Bearer token123".to_string()), user: None };
    let header = resolve_auth(&auth, None).unwrap().unwrap();
    assert_eq!(header, "Bearer token123");
}

#[test]
fn no_auth_flags_mean_no_header() {
    let auth = AuthMethod { auth: None, user: None };
    assert_eq!(resolve_auth(&auth, None).unwrap(), None);
}

#[test]
fn credentials_join_with_colon() {
    assert_eq!(join_credentials("user", "p:ss"), "user:p:ss");
}
