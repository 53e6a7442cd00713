//! Domain records of the event store.
use vstd::prelude::*;

verus! {

/// A 128-bit UUID, held as its big-endian integer value.
#[derive(Clone, Copy, Debug, PartialEq, Eq, Structural)]
pub struct Uuid {
    pub value: u128,
}

/// Identity of an event.
pub type EventId = Uuid;

/// Global log coordinate.
#[derive(Clone, Copy, Debug, PartialEq, Eq, Structural)]
pub struct Position {
    pub commit: u64,
    pub prepare: u64,
}

/// Total order on positions: by commit, ties broken by prepare.
pub open spec fn position_lt(a: Position, b: Position) -> bool {
    a.commit < b.commit || (a.commit == b.commit && a.prepare < b.prepare)
}

impl Position {
    pub fn start() -> (r: Position)
        ensures
            r.commit == 0 && r.prepare == 0,
    {
        Position { commit: 0, prepare: 0 }
    }

    pub fn end() -> (r: Position)
        ensures
            r.commit == u64::MAX && r.prepare == u64::MAX,
    {
        Position { commit: u64::MAX, prepare: u64::MAX }
    }

    /// Whether `self` comes strictly before `other` in the global log.
    pub fn is_before(&self, other: &Position) -> (r: bool)
        ensures
            r == position_lt(*self, *other),
    {
        self.commit < other.commit || (self.commit == other.commit && self.prepare < other.prepare)
    }
}

/// Where a read or a subscription starts.
#[derive(Clone, Copy, Debug, PartialEq, Eq, Structural)]
pub enum StreamPosition<A> {
    Start,
    End,
    Position(A),
}

/// Direction of a one-shot read.
#[derive(Clone, Copy, Debug, PartialEq, Eq, Structural)]
pub enum ReadDirection {
    Forward,
    Backward,
}

/// Optimistic-concurrency expectation on a stream.
#[derive(Clone, Copy, Debug, PartialEq, Eq, Structural)]
pub enum ExpectedRevision {
    Any,
    NoStream,
    StreamExists,
    Exact(u64),
}

/// The revision that a stream actually had when an expectation failed.
#[derive(Clone, Copy, Debug, PartialEq, Eq, Structural)]
pub enum CurrentRevision {
    NoStream,
    Current(u64),
}

/// Login and password sent as basic authentication.
#[derive(Clone, Debug)]
pub struct Credentials {
    pub login: Vec<u8>,
    pub password: Vec<u8>,
}

/// Metadata of an event: string keys and values, in the order given.
pub type Metadata = Vec<(String, String)>;

/// The view of a metadata list: pairs of character sequences.
pub open spec fn metadata_view(m: Metadata) -> Seq<(Seq<char>, Seq<char>)> {
    m@.map_values(|p: (String, String)| (p.0@, p.1@))
}

/// The value of the first entry whose key is `k`.
pub open spec fn metadata_lookup(m: Seq<(Seq<char>, Seq<char>)>, k: Seq<char>) -> Option<Seq<char>>
    decreases m.len(),
{
    if m.len() == 0 {
        None
    } else if m[0].0 == k {
        Some(m[0].1)
    } else {
        metadata_lookup(m.drop_first(), k)
    }
}

/// An event to be appended. Its type and content type are carried in its
/// metadata, under `type` and `content-type`.
#[derive(Clone, Debug)]
pub struct EventData {
    pub id: Option<EventId>,
    pub metadata: Metadata,
    pub custom_metadata: Option<Vec<u8>>,
    pub payload: Vec<u8>,
}

/// Metadata that names an event type and a content type, and nothing else.
pub open spec fn typed_metadata(m: Seq<(Seq<char>, Seq<char>)>, event_type: Seq<char>, content_type: Seq<char>) -> bool {
    &&& m.len() == 2
    &&& metadata_lookup(m, "type"@) == Some(event_type)
    &&& metadata_lookup(m, "content-type"@) == Some(content_type)
}

impl EventData {
    fn typed(event_type: String, content_type: String, payload: Vec<u8>) -> (r: EventData)
        ensures
            typed_metadata(metadata_view(r.metadata), event_type@, content_type@),
            r.id is None,
            r.custom_metadata is None,
            r.payload@ == payload@,
    {
        let ghost t = event_type@;
        let ghost c = content_type@;
        let metadata = vec![(String::from_str("type"), event_type), (String::from_str("content-type"), content_type)];
        proof {
            reveal_strlit("type");
            reveal_strlit("content-type");
            reveal_with_fuel(metadata_lookup, 3);
            let m = metadata_view(metadata);
            assert(m[0] == ("type"@, t));
            assert(m[1] == ("content-type"@, c));
            assert("type"@ != "content-type"@) by {
                assert("type"@.len() != "content-type"@.len());
            }
            assert(m.drop_first()[0] == ("content-type"@, c));
        }
        EventData { id: None, metadata, custom_metadata: None, payload }
    }

    /// An event whose payload is JSON.
    pub fn json(event_type: String, payload: Vec<u8>) -> (r: EventData)
        ensures
            typed_metadata(metadata_view(r.metadata), event_type@, "application/json"@),
            r.id is None,
            r.custom_metadata is None,
            r.payload@ == payload@,
    {
        EventData::typed(event_type, String::from_str("application/json"), payload)
    }

    /// An event whose payload is opaque bytes.
    pub fn binary(event_type: String, payload: Vec<u8>) -> (r: EventData)
        ensures
            typed_metadata(metadata_view(r.metadata), event_type@, "application/octet-stream"@),
            r.id is None,
            r.custom_metadata is None,
            r.payload@ == payload@,
    {
        EventData::typed(event_type, String::from_str("application/octet-stream"), payload)
    }

    /// The same event with a chosen id.
    pub fn id(self, id: EventId) -> (r: EventData)
        ensures
            r.id == Some(id),
            r.metadata == self.metadata,
            r.custom_metadata == self.custom_metadata,
            r.payload == self.payload,
    {
        EventData { id: Some(id), ..self }
    }

    /// The same event with custom metadata.
    pub fn custom_metadata(self, custom_metadata: Vec<u8>) -> (r: EventData)
        ensures
            r.id == self.id,
            r.metadata == self.metadata,
            r.custom_metadata == Some(custom_metadata),
            r.payload == self.payload,
    {
        EventData { custom_metadata: Some(custom_metadata), ..self }
    }
}

/// An event as read back from the store.
#[derive(Clone, Debug)]
pub struct RecordedEvent {
    pub id: EventId,
    pub stream_id: String,
    pub revision: u64,
    pub position: Position,
    pub event_type: String,
    pub is_json: bool,
    pub metadata: Metadata,
    pub custom_metadata: Vec<u8>,
    pub data: Vec<u8>,
}

/// An event with the link through which it was reached, if any.
#[derive(Clone, Debug)]
pub struct ResolvedEvent {
    pub event: Option<RecordedEvent>,
    pub link: Option<RecordedEvent>,
    pub commit_position: Option<u64>,
}

/// The original event: `event` where present, else `link`.
pub open spec fn original_event(e: ResolvedEvent) -> Option<RecordedEvent> {
    if e.event is Some {
        e.event
    } else {
        e.link
    }
}

impl ResolvedEvent {
    /// Whether the event was reached through a link.
    pub fn is_resolved(&self) -> (r: bool)
        ensures
            r == (self.link is Some),
    {
        self.link.is_some()
    }

    /// The original event: `event` where present, else `link`.
    pub fn get_original_event(&self) -> (r: Option<&RecordedEvent>)
        ensures
            r matches Some(x) ==> original_event(*self) == Some(*x),
            r is None <==> original_event(*self) is None,
    {
        match &self.event {
            Some(e) => Some(e),
            None => match &self.link {
                Some(l) => Some(l),
                None => None,
            },
        }
    }
}

/// An event delivered by a persistent subscription.
#[derive(Clone, Debug)]
pub struct PersistentSubEvent {
    pub event: ResolvedEvent,
    pub retry_count: u64,
}

/// What a subscription hands to its caller.
#[derive(Clone, Debug)]
pub enum SubEvent<A> {
    Confirmed(String),
    EventAppeared(A),
    CaughtUp,
    FellBehind,
    Checkpoint(Position),
}

/// Outcome of a successful append.
#[derive(Clone, Copy, Debug, PartialEq, Eq, Structural)]
pub struct WriteResult {
    pub next_expected_version: u64,
    pub position: Position,
}

/// Outcome of an append whose expectation did not hold.
#[derive(Clone, Copy, Debug, PartialEq, Eq, Structural)]
pub struct WrongExpectedVersion {
    pub current: CurrentRevision,
    pub expected: ExpectedRevision,
}

/// How often, and how far apart, a catch-up subscription reopens its read.
#[derive(Clone, Copy, Debug, PartialEq, Eq, Structural)]
pub struct RetryOptions {
    pub limit: u64,
    pub delay_ms: u64,
}

/// Server-side filter of a subscription to the global log.
#[derive(Clone, Debug)]
pub struct SubscriptionFilter {
    pub based_on_stream: bool,
    pub prefixes: Vec<String>,
    pub regex: Option<String>,
    pub max: Option<u32>,
}

/// What the server does with an event that was not acknowledged.
#[derive(Clone, Copy, Debug, PartialEq, Eq, Structural)]
pub enum NakAction {
    Unknown,
    Park,
    Retry,
    Skip,
    Stop,
}

/// How a persistent subscription shares events among its consumers.
#[derive(Clone, Copy, Debug, PartialEq, Eq, Structural)]
pub enum SystemConsumerStrategy {
    DispatchToSingle,
    RoundRobin,
    Pinned,
}

/// Settings of a persistent subscription; durations are in milliseconds.
#[derive(Clone, Copy, Debug, PartialEq, Eq, Structural)]
pub struct PersistentSubscriptionSettings<A> {
    pub resolve_link_tos: bool,
    pub extra_statistics: bool,
    pub message_timeout_ms: u64,
    pub max_retry_count: i32,
    pub checkpoint_after_ms: u64,
    pub checkpoint_lower_bound: i32,
    pub checkpoint_upper_bound: i32,
    pub max_subscriber_count: i32,
    pub live_buffer_size: i32,
    pub read_batch_size: i32,
    pub history_buffer_size: i32,
    pub start_from: StreamPosition<A>,
    pub consumer_strategy_name: SystemConsumerStrategy,
}

/// Errors of the client.
#[derive(Clone, Debug)]
pub enum Error {
    /// A status returned by the server or the transport.
    Grpc { code: i32, message: String },
    /// The stream that was read does not exist.
    ResourceNotFound,
    /// An expectation on a stream's revision did not hold.
    WrongExpectedVersion { current: CurrentRevision, expected: ExpectedRevision },
    /// The credentials were refused.
    AccessDenied,
    /// A message broke the protocol, e.g. a required field was missing.
    Internal,
}

/// Status code of a refused permission.
pub const PERMISSION_DENIED: i32 = 7;

/// Status code of a failed authentication.
pub const UNAUTHENTICATED: i32 = 16;

impl Error {
    /// The error of a failed call's status.
    pub open spec fn from_status_spec(code: i32, message: String) -> Error {
        if code == PERMISSION_DENIED || code == UNAUTHENTICATED {
            Error::AccessDenied
        } else {
            Error::Grpc { code, message }
        }
    }

    /// The error of a failed call's status: an authentication or permission
    /// failure is `AccessDenied`, any other status is kept as it came.
    pub fn from_status(code: i32, message: String) -> (r: Error)
        ensures
            r == Error::from_status_spec(code, message),
    {
        if code == PERMISSION_DENIED || code == UNAUTHENTICATED {
            Error::AccessDenied
        } else {
            Error::Grpc { code, message }
        }
    }
}

} // verus!
