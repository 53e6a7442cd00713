use eventstore_core::options::{
    CreateProjectionOptions, DeleteProjectionOptions, DeleteStreamOptions, GetResultProjectionOptions,
    GetStateProjectionOptions, UpdateProjectionOptions,
};
use eventstore_core::types::{Credentials, ExpectedRevision};

fn creds() -> Credentials {
    Credentials { login: b"admin".to_vec(), password: b"changeit".to_vec() }
}

#[test]
fn delete_stream_options_builders() {
    let o = DeleteStreamOptions::default();
    assert_eq!(o.version, ExpectedRevision::Any);
    assert!(o.credentials.is_none());
    let o = o.expected_revision(ExpectedRevision::Exact(4)).authenticated(creds());
    assert_eq!(o.version, ExpectedRevision::Exact(4));
    assert_eq!(o.credentials.unwrap().login, b"admin".to_vec());
}

#[test]
fn create_projection_options_builders() {
    let o = CreateProjectionOptions::new();
    assert!(!o.track_emitted_streams && !o.emit && o.credentials.is_none());
    let o = o.track_emitted_streams(true).emit(true).authenticated(creds());
    assert!(o.track_emitted_streams && o.emit && o.credentials.is_some());
    let d = CreateProjectionOptions::default();
    assert!(!d.emit);
}

#[test]
fn update_projection_options_builders() {
    let o = UpdateProjectionOptions::new();
    assert_eq!(o.emit, None);
    let o = o.emit(false).authenticated(creds());
    assert_eq!(o.emit, Some(false));
    assert!(o.credentials.is_some());
}

#[test]
fn delete_projection_options_builders() {
    let o = DeleteProjectionOptions::new().delete_emitted_streams(true).delete_checkpoint_stream(true);
    assert!(o.delete_emitted_streams && !o.delete_state_stream && o.delete_checkpoint_stream);
    let o = o.delete_state_stream(true).authenticated(creds());
    assert!(o.delete_state_stream && o.credentials.is_some());
}

#[test]
fn projection_state_and_result_partition() {
    let o = GetStateProjectionOptions::new();
    assert_eq!(o.partition, "");
    let o = o.partition("p-1").authenticated(creds());
    assert_eq!(o.partition, "p-1");
    assert!(o.credentials.is_some());
    let r = GetResultProjectionOptions::default().partition("q");
    assert_eq!(r.partition, "q");
    assert!(r.authenticated(creds()).credentials.is_some());
}
