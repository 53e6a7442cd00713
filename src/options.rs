//! Options of the commands.
use vstd::prelude::*;

use crate::types::{
    Credentials, ExpectedRevision, PersistentSubscriptionSettings, Position, ReadDirection,
    RetryOptions, StreamPosition, SubscriptionFilter,
};

verus! {

/// Options of the delete stream command.
#[derive(Clone, Debug)]
pub struct DeleteStreamOptions {
    pub version: ExpectedRevision,
    pub credentials: Option<Credentials>,
}

impl Default for DeleteStreamOptions {
    fn default() -> (r: Self)
        ensures
            r.version == ExpectedRevision::Any,
            r.credentials is None,
    {
        DeleteStreamOptions { version: ExpectedRevision::Any, credentials: None }
    }
}

impl DeleteStreamOptions {
    /// Performs the command with the given credentials.
    pub fn authenticated(self, credentials: Credentials) -> (r: Self)
        ensures
            r.credentials == Some(credentials),
            r.version == self.version,
    {
        DeleteStreamOptions { credentials: Some(credentials), ..self }
    }

    /// Asks the server to check that the stream is at the given expected
    /// revision. Default: `ExpectedRevision::Any`.
    pub fn expected_revision(self, version: ExpectedRevision) -> (r: Self)
        ensures
            r.version == version,
            r.credentials == self.credentials,
    {
        DeleteStreamOptions { version, ..self }
    }
}

/// Options of the tombstone stream command.
#[derive(Clone, Debug)]
pub struct TombstoneStreamOptions {
    pub version: ExpectedRevision,
    pub credentials: Option<Credentials>,
}

/// Options of the append command.
#[derive(Clone, Debug)]
pub struct AppendToStreamOptions {
    pub version: ExpectedRevision,
    pub credentials: Option<Credentials>,
}

/// Options of the batch-append session.
#[derive(Clone, Debug)]
pub struct BatchAppendOptions {
    pub credentials: Option<Credentials>,
}

/// Options of a one-shot read of one stream.
#[derive(Clone, Debug)]
pub struct ReadStreamOptions {
    pub direction: ReadDirection,
    pub position: StreamPosition<u64>,
    pub resolve_link_tos: bool,
    pub credentials: Option<Credentials>,
}

/// Options of a one-shot read of the global log.
#[derive(Clone, Debug)]
pub struct ReadAllOptions {
    pub direction: ReadDirection,
    pub position: StreamPosition<Position>,
    pub resolve_link_tos: bool,
    pub credentials: Option<Credentials>,
}

/// Options of a catch-up subscription to one stream.
#[derive(Clone, Debug)]
pub struct SubscribeToStreamOptions {
    pub position: StreamPosition<u64>,
    pub resolve_link_tos: bool,
    pub retry: Option<RetryOptions>,
    pub credentials: Option<Credentials>,
}

/// Options of a catch-up subscription to the global log.
#[derive(Clone, Debug)]
pub struct SubscribeToAllOptions {
    pub position: StreamPosition<Position>,
    pub resolve_link_tos: bool,
    pub retry: Option<RetryOptions>,
    pub filter: Option<SubscriptionFilter>,
    pub credentials: Option<Credentials>,
}

/// Options of a persistent subscription to one stream.
#[derive(Clone, Debug)]
pub struct PersistentSubscriptionOptions {
    pub setts: PersistentSubscriptionSettings<u64>,
    pub credentials: Option<Credentials>,
}

/// Options of a persistent subscription to the global log.
#[derive(Clone, Debug)]
pub struct PersistentSubscriptionToAllOptions {
    pub setts: PersistentSubscriptionSettings<Position>,
    pub filter: Option<SubscriptionFilter>,
    pub credentials: Option<Credentials>,
}

/// Options of the command that deletes a persistent subscription.
#[derive(Clone, Debug)]
pub struct DeletePersistentSubscriptionOptions {
    pub credentials: Option<Credentials>,
}

/// Options of a persistent-subscription session.
#[derive(Clone, Debug)]
pub struct SubscribeToPersistentSubscriptionOptions {
    pub buffer_size: usize,
    pub credentials: Option<Credentials>,
}

/// Options of the create projection command.
#[derive(Clone, Debug)]
pub struct CreateProjectionOptions {
    pub credentials: Option<Credentials>,
    pub track_emitted_streams: bool,
    pub emit: bool,
}

impl Default for CreateProjectionOptions {
    fn default() -> (r: Self)
        ensures
            r.credentials is None,
            r.track_emitted_streams == false,
            r.emit == false,
    {
        CreateProjectionOptions::new()
    }
}

impl CreateProjectionOptions {
    pub fn new() -> (r: Self)
        ensures
            r.credentials is None,
            r.track_emitted_streams == false,
            r.emit == false,
    {
        CreateProjectionOptions { credentials: None, track_emitted_streams: false, emit: false }
    }

    pub fn authenticated(self, value: Credentials) -> (r: Self)
        ensures
            r.credentials == Some(value),
            r.track_emitted_streams == self.track_emitted_streams,
            r.emit == self.emit,
    {
        CreateProjectionOptions { credentials: Some(value), ..self }
    }

    pub fn track_emitted_streams(self, track_emitted_streams: bool) -> (r: Self)
        ensures
            r.track_emitted_streams == track_emitted_streams,
            r.credentials == self.credentials,
            r.emit == self.emit,
    {
        CreateProjectionOptions { track_emitted_streams: track_emitted_streams, ..self }
    }

    pub fn emit(self, emit: bool) -> (r: Self)
        ensures
            r.emit == emit,
            r.credentials == self.credentials,
            r.track_emitted_streams == self.track_emitted_streams,
    {
        CreateProjectionOptions { emit: emit, ..self }
    }
}

/// Options of the update projection command.
#[derive(Clone, Debug)]
pub struct UpdateProjectionOptions {
    pub credentials: Option<Credentials>,
    pub emit: Option<bool>,
}

impl Default for UpdateProjectionOptions {
    fn default() -> (r: Self)
        ensures
            r.credentials is None,
            r.emit is None,
    {
        UpdateProjectionOptions::new()
    }
}

impl UpdateProjectionOptions {
    pub fn new() -> (r: Self)
        ensures
            r.credentials is None,
            r.emit is None,
    {
        UpdateProjectionOptions { credentials: None, emit: None }
    }

    pub fn authenticated(self, value: Credentials) -> (r: Self)
        ensures
            r.credentials == Some(value),
            r.emit == self.emit,
    {
        UpdateProjectionOptions { credentials: Some(value), ..self }
    }

    pub fn emit(self, emit: bool) -> (r: Self)
        ensures
            r.emit == Some(emit),
            r.credentials == self.credentials,
    {
        UpdateProjectionOptions { emit: Some(emit), ..self }
    }
}

/// Options of the delete projection command.
#[derive(Clone, Debug)]
pub struct DeleteProjectionOptions {
    pub credentials: Option<Credentials>,
    pub delete_emitted_streams: bool,
    pub delete_state_stream: bool,
    pub delete_checkpoint_stream: bool,
}

impl Default for DeleteProjectionOptions {
    fn default() -> (r: Self)
        ensures
            r.credentials is None,
            r.delete_emitted_streams == false,
            r.delete_state_stream == false,
            r.delete_checkpoint_stream == false,
    {
        DeleteProjectionOptions::new()
    }
}

impl DeleteProjectionOptions {
    pub fn new() -> (r: Self)
        ensures
            r.credentials is None,
            r.delete_emitted_streams == false,
            r.delete_state_stream == false,
            r.delete_checkpoint_stream == false,
    {
        DeleteProjectionOptions { credentials: None, delete_emitted_streams: false, delete_state_stream: false, delete_checkpoint_stream: false }
    }

    pub fn authenticated(self, value: Credentials) -> (r: Self)
        ensures
            r.credentials == Some(value),
            r.delete_emitted_streams == self.delete_emitted_streams,
            r.delete_state_stream == self.delete_state_stream,
            r.delete_checkpoint_stream == self.delete_checkpoint_stream,
    {
        DeleteProjectionOptions { credentials: Some(value), ..self }
    }

    pub fn delete_emitted_streams(self, delete_emitted_streams: bool) -> (r: Self)
        ensures
            r.delete_emitted_streams == delete_emitted_streams,
            r.credentials == self.credentials,
            r.delete_state_stream == self.delete_state_stream,
            r.delete_checkpoint_stream == self.delete_checkpoint_stream,
    {
        DeleteProjectionOptions { delete_emitted_streams: delete_emitted_streams, ..self }
    }

    pub fn delete_state_stream(self, delete_state_stream: bool) -> (r: Self)
        ensures
            r.delete_state_stream == delete_state_stream,
            r.credentials == self.credentials,
            r.delete_emitted_streams == self.delete_emitted_streams,
            r.delete_checkpoint_stream == self.delete_checkpoint_stream,
    {
        DeleteProjectionOptions { delete_state_stream: delete_state_stream, ..self }
    }

    pub fn delete_checkpoint_stream(self, delete_checkpoint_stream: bool) -> (r: Self)
        ensures
            r.delete_checkpoint_stream == delete_checkpoint_stream,
            r.credentials == self.credentials,
            r.delete_emitted_streams == self.delete_emitted_streams,
            r.delete_state_stream == self.delete_state_stream,
    {
        DeleteProjectionOptions { delete_checkpoint_stream: delete_checkpoint_stream, ..self }
    }
}

/// Options of the command that reads a projection's state.
#[derive(Clone, Debug)]
pub struct GetStateProjectionOptions {
    pub credentials: Option<Credentials>,
    pub partition: String,
}

impl Default for GetStateProjectionOptions {
    fn default() -> (r: Self)
        ensures
            r.credentials is None,
            r.partition@ == Seq::<char>::empty(),
    {
        GetStateProjectionOptions::new()
    }
}

impl GetStateProjectionOptions {
    pub fn new() -> (r: Self)
        ensures
            r.credentials is None,
            r.partition@ == Seq::<char>::empty(),
    {
        GetStateProjectionOptions { credentials: None, partition: String::new() }
    }

    pub fn authenticated(self, value: Credentials) -> (r: Self)
        ensures
            r.credentials == Some(value),
            r.partition == self.partition,
    {
        GetStateProjectionOptions { credentials: Some(value), ..self }
    }

    pub fn partition(self, value: &str) -> (r: Self)
        ensures
            r.partition@ == value@,
            r.credentials == self.credentials,
    {
        GetStateProjectionOptions { partition: String::from_str(value), ..self }
    }
}

/// Options of the command that reads a projection's result.
#[derive(Clone, Debug)]
pub struct GetResultProjectionOptions {
    pub credentials: Option<Credentials>,
    pub partition: String,
}

impl Default for GetResultProjectionOptions {
    fn default() -> (r: Self)
        ensures
            r.credentials is None,
            r.partition@ == Seq::<char>::empty(),
    {
        GetResultProjectionOptions::new()
    }
}

impl GetResultProjectionOptions {
    pub fn new() -> (r: Self)
        ensures
            r.credentials is None,
            r.partition@ == Seq::<char>::empty(),
    {
        GetResultProjectionOptions { credentials: None, partition: String::new() }
    }

    pub fn authenticated(self, value: Credentials) -> (r: Self)
        ensures
            r.credentials == Some(value),
            r.partition == self.partition,
    {
        GetResultProjectionOptions { credentials: Some(value), ..self }
    }

    pub fn partition(self, value: &str) -> (r: Self)
        ensures
            r.partition@ == value@,
            r.credentials == self.credentials,
    {
        GetResultProjectionOptions { partition: String::from_str(value), ..self }
    }
}

} // verus!
