use eventstore_core::auth::{authorization_header, basic_auth_header, effective_credentials, ADMIN_DEADLINE_MS};
use eventstore_core::types::Credentials;

fn creds(l: &[u8], p: &[u8]) -> Credentials {
    Credentials { login: l.to_vec(), password: p.to_vec() }
}

#[test]
fn basic_auth_of_admin() {
    assert_eq!(basic_auth_header(&creds(b"admin", b"changeit")), "Basic YWRtaW46Y2hhbmdlaXQ=");
}

#[test]
fn basic_auth_of_empty_credentials() {
    assert_eq!(basic_auth_header(&creds(b"", b"")), "Basic Og==");
}

#[test]
fn basic_auth_of_invalid_utf8_uses_replacement() {
    // 0xff becomes U+FFFD (ef bf bd) before encoding: "\u{fffd}:" is 4 bytes.
    assert_eq!(basic_auth_header(&creds(&[0xff], b"")), "Basic 77+9Og==");
}

#[test]
fn no_header_without_credentials() {
    assert_eq!(authorization_header(&None), None);
    assert_eq!(authorization_header(&Some(creds(b"a", b"b"))), Some("Basic YTpi".to_string()));
}

#[test]
fn options_credentials_win_over_default() {
    let r = effective_credentials(Some(creds(b"a", b"b")), Some(creds(b"c", b"d"))).unwrap();
    assert_eq!(r.login, b"a".to_vec());
    let r = effective_credentials(None, Some(creds(b"c", b"d"))).unwrap();
    assert_eq!(r.login, b"c".to_vec());
    assert!(effective_credentials(None, None).is_none());
    assert_eq!(ADMIN_DEADLINE_MS, 2000);
}
