use eventstore_core::package::{Pkg, CMD_AUTHENTICATE, CMD_HEARTBEAT_REQUEST, PKG_MANDATORY_SIZE};
use eventstore_core::types::{Credentials, Uuid};

#[test]
fn package_size_counts_payload_and_credentials() {
    let mut p = Pkg::new(0x10, Uuid { value: 1 });
    assert_eq!(p.size(), PKG_MANDATORY_SIZE);
    p.set_payload(vec![0; 5]);
    assert_eq!(p.size(), 23);
    p.set_credentials(Credentials { login: b"admin".to_vec(), password: b"changeit".to_vec() });
    assert_eq!(p.size(), 23 + 5 + 8 + 2);
}

#[test]
fn package_constructors() {
    let h = Pkg::heartbeat_request();
    assert_eq!(h.cmd, CMD_HEARTBEAT_REQUEST);
    assert!(h.payload.is_empty() && h.creds_opt.is_none());
    let a = Pkg::authenticate(Credentials { login: b"a".to_vec(), password: b"b".to_vec() });
    assert_eq!(a.cmd, CMD_AUTHENTICATE);
    assert_eq!(a.size(), 18 + 4);
    assert_ne!(h.correlation, a.correlation);
    let c = a.copy_headers_only();
    assert_eq!((c.cmd, c.correlation), (a.cmd, a.correlation));
    assert!(c.creds_opt.is_none() && c.payload.is_empty());
}
