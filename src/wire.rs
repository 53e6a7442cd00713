//! Messages as they travel between client and server.
use vstd::prelude::*;

use crate::types::{CurrentRevision, ExpectedRevision, Metadata, Position};

verus! {

/// The two representations of a UUID on the wire.
#[derive(Clone, Debug, PartialEq, Eq)]
pub enum UuidValue {
    Structured { most_significant_bits: i64, least_significant_bits: i64 },
    String(String),
}

/// A UUID on the wire; the value may be missing.
#[derive(Clone, Debug, PartialEq, Eq)]
pub struct WireUuid {
    pub value: Option<UuidValue>,
}

/// A stream name, as opaque bytes.
#[derive(Clone, Debug, PartialEq, Eq)]
pub struct StreamIdentifier {
    pub stream_name: Vec<u8>,
}

/// One event proposed for appending.
#[derive(Clone, Debug, PartialEq, Eq)]
pub struct ProposedMessage {
    pub id: Option<WireUuid>,
    pub metadata: Metadata,
    pub custom_metadata: Vec<u8>,
    pub data: Vec<u8>,
}

/// A frame of the client-streaming append call.
#[derive(Clone, Debug, PartialEq, Eq)]
pub enum AppendReq {
    Options { stream_identifier: StreamIdentifier, expected_stream_revision: ExpectedRevision },
    ProposedMessage(ProposedMessage),
}

/// A log position, or the sentinel for none.
#[derive(Clone, Copy, Debug, PartialEq, Eq)]
pub enum PositionOption {
    Position(Position),
    NoPosition,
}

/// The result carried by an append response.
#[derive(Clone, Debug, PartialEq, Eq)]
pub enum AppendResult {
    Success { current_revision_option: Option<CurrentRevision>, position_option: Option<PositionOption> },
    WrongExpectedVersion {
        current_revision_option: Option<CurrentRevision>,
        expected_revision_option: Option<ExpectedRevision>,
    },
}

/// The response of the append call.
#[derive(Clone, Debug, PartialEq, Eq)]
pub struct AppendResp {
    pub result: Option<AppendResult>,
}

/// A recorded event as the server sends it.
#[derive(Clone, Debug, PartialEq, Eq)]
pub struct WireRecordedEvent {
    pub id: Option<WireUuid>,
    pub stream_identifier: Option<StreamIdentifier>,
    pub stream_revision: u64,
    pub prepare_position: u64,
    pub commit_position: u64,
    pub metadata: Metadata,
    pub custom_metadata: Vec<u8>,
    pub data: Vec<u8>,
}

/// The commit position of a read event, or the sentinel for none.
#[derive(Clone, Copy, Debug, PartialEq, Eq)]
pub enum ReadEventPosition {
    CommitPosition(u64),
    NoPosition,
}

/// An event frame of a read or a catch-up subscription.
#[derive(Clone, Debug, PartialEq, Eq)]
pub struct ReadEvent {
    pub event: Option<WireRecordedEvent>,
    pub link: Option<WireRecordedEvent>,
    pub position: Option<ReadEventPosition>,
}

/// The content of a read response frame.
#[derive(Clone, Debug, PartialEq, Eq)]
pub enum ReadContent {
    Event(ReadEvent),
    Confirmation { subscription_id: String },
    Checkpoint { commit_position: u64, prepare_position: u64 },
    StreamNotFound { stream_identifier: Option<StreamIdentifier> },
}

/// A frame of a read response.
#[derive(Clone, Debug, PartialEq, Eq)]
pub struct ReadResp {
    pub content: Option<ReadContent>,
}

/// Where a read of one stream starts.
#[derive(Clone, Copy, Debug, PartialEq, Eq)]
pub enum RevisionOption {
    Revision(u64),
    Start,
    End,
}

/// Where a read of the global log starts.
#[derive(Clone, Copy, Debug, PartialEq, Eq)]
pub enum AllOption {
    Position(Position),
    Start,
    End,
}

/// The target of a read: one stream, or the global log.
#[derive(Clone, Debug, PartialEq, Eq)]
pub enum StreamOption {
    Stream { stream_identifier: StreamIdentifier, revision_option: RevisionOption },
    All { all_option: AllOption },
}

/// A filter expression: a regular expression and a list of prefixes.
#[derive(Clone, Debug, PartialEq, Eq)]
pub struct FilterExpression {
    pub regex: String,
    pub prefix: Vec<String>,
}

/// What a filter expression is matched against.
#[derive(Clone, Debug, PartialEq, Eq)]
pub enum Filter {
    StreamIdentifier(FilterExpression),
    EventType(FilterExpression),
}

/// The window of a filtered read.
#[derive(Clone, Copy, Debug, PartialEq, Eq)]
pub enum Window {
    Max(u32),
    Count,
}

/// A server-side filter.
#[derive(Clone, Debug, PartialEq, Eq)]
pub struct FilterOptions {
    pub filter: Filter,
    pub window: Window,
    pub checkpoint_interval_multiplier: u32,
}

/// A filter, or none.
#[derive(Clone, Debug, PartialEq, Eq)]
pub enum FilterOption {
    Filter(FilterOptions),
    NoFilter,
}

/// How many events a read asks for: a count, or an unbounded subscription.
#[derive(Clone, Copy, Debug, PartialEq, Eq)]
pub enum CountOption {
    Count(u64),
    Subscription,
}

/// The representation in which the server is to send UUIDs.
#[derive(Clone, Copy, Debug, PartialEq, Eq)]
pub enum UuidOption {
    Structured,
    String,
}

/// The request of a read or a catch-up subscription.
#[derive(Clone, Debug, PartialEq, Eq)]
pub struct ReadReq {
    pub stream_option: StreamOption,
    pub resolve_links: bool,
    pub filter_option: FilterOption,
    pub count_option: CountOption,
    pub uuid_option: UuidOption,
    pub read_direction: i32,
}

/// The request of a delete or a tombstone.
#[derive(Clone, Debug, PartialEq, Eq)]
pub struct DeleteReq {
    pub stream_identifier: StreamIdentifier,
    pub expected_stream_revision: ExpectedRevision,
}

/// The response of a delete or a tombstone.
#[derive(Clone, Copy, Debug, PartialEq, Eq)]
pub struct DeleteResp {
    pub position_option: Option<PositionOption>,
}

/// One submission of the batch-append session.
#[derive(Clone, Debug, PartialEq, Eq)]
pub struct BatchAppendReq {
    pub correlation_id: WireUuid,
    pub stream_identifier: StreamIdentifier,
    pub expected_stream_position: ExpectedRevision,
    pub proposed_messages: Vec<ProposedMessage>,
    pub is_final: bool,
}

/// The result of one submission of the batch-append session.
#[derive(Clone, Debug, PartialEq, Eq)]
pub enum BatchResult {
    Success { current_revision_option: Option<CurrentRevision>, position_option: Option<PositionOption> },
    Error { code: i32, message: String },
}

/// A response of the batch-append session.
#[derive(Clone, Debug, PartialEq, Eq)]
pub struct BatchAppendResp {
    pub correlation_id: Option<WireUuid>,
    pub stream_identifier: Option<StreamIdentifier>,
    pub result: Option<BatchResult>,
    pub expected_stream_position: Option<ExpectedRevision>,
}

/// Settings of a persistent subscription as the server takes them.
#[derive(Clone, Copy, Debug, PartialEq, Eq)]
pub struct WireSubscriptionSettings {
    pub resolve_links: bool,
    /// The start revision in the field that older servers read.
    pub revision: u64,
    pub extra_statistics: bool,
    pub message_timeout_ms: i32,
    pub max_retry_count: i32,
    pub checkpoint_after_ms: i32,
    pub min_checkpoint_count: i32,
    pub max_checkpoint_count: i32,
    pub max_subscriber_count: i32,
    pub live_buffer_size: i32,
    pub read_batch_size: i32,
    pub history_buffer_size: i32,
    pub named_consumer_strategy: i32,
}

/// The target and start of a persistent subscription. The update request
/// carries no filter.
#[derive(Clone, Debug, PartialEq, Eq)]
pub enum SubscriptionStreamOption {
    Stream { stream_identifier: StreamIdentifier, revision_option: RevisionOption },
    All { filter_option: Option<FilterOption>, all_option: AllOption },
}

/// The body of the create and of the update request of a persistent
/// subscription.
#[derive(Clone, Debug, PartialEq, Eq)]
pub struct SubscriptionConfigReq {
    pub stream_option: SubscriptionStreamOption,
    pub stream_identifier: StreamIdentifier,
    pub group_name: String,
    pub settings: WireSubscriptionSettings,
}

/// The stream of a persistent subscription, or the global log.
#[derive(Clone, Debug, PartialEq, Eq)]
pub enum SubscriptionTarget {
    Stream(StreamIdentifier),
    All,
}

/// The request that deletes a persistent subscription.
#[derive(Clone, Debug, PartialEq, Eq)]
pub struct SubscriptionDeleteReq {
    pub stream_option: SubscriptionTarget,
    pub group_name: String,
}

/// A frame that the client sends on a persistent-subscription session.
#[derive(Clone, Debug, PartialEq, Eq)]
pub enum PersistentReadReq {
    Options { stream_option: SubscriptionTarget, group_name: String, buffer_size: i32, uuid_option: UuidOption },
    Ack { id: Vec<u8>, ids: Vec<WireUuid> },
    Nack { id: Vec<u8>, ids: Vec<WireUuid>, action: i32, reason: String },
}

/// How often an event of a persistent subscription was retried.
#[derive(Clone, Copy, Debug, PartialEq, Eq)]
pub enum RetryCountOption {
    RetryCount(i32),
    NoRetryCount,
}

/// An event frame of a persistent subscription.
#[derive(Clone, Debug, PartialEq, Eq)]
pub struct PersistentReadEvent {
    pub event: Option<WireRecordedEvent>,
    pub link: Option<WireRecordedEvent>,
    pub position: Option<ReadEventPosition>,
    pub count: Option<RetryCountOption>,
}

/// The content of a frame that the server sends on a persistent-subscription
/// session.
#[derive(Clone, Debug, PartialEq, Eq)]
pub enum PersistentReadContent {
    Event(PersistentReadEvent),
    SubscriptionConfirmation { subscription_id: String },
}

/// A frame that the server sends on a persistent-subscription session.
#[derive(Clone, Debug, PartialEq, Eq)]
pub struct PersistentReadResp {
    pub content: Option<PersistentReadContent>,
}

} // verus!
