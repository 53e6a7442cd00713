//! Persistent subscriptions: settings, administration requests, and the
//! session in which the server pushes events and the client acknowledges
//! them.
use vstd::prelude::*;
use vstd::utf8::*;

use crate::append::stream_identifier;
use crate::codec::{
    convert_persistent_proto_read_event, encode_filter, filter_encodes, is_text_uuid,
    persistent_event_ok, persistent_from_wire, to_proto_uuid,
};
use crate::options::{
    PersistentSubscriptionOptions, PersistentSubscriptionToAllOptions,
    SubscribeToPersistentSubscriptionOptions,
};
use crate::read::{all_option, all_option_of, revision_option, revision_option_of};
use crate::types::{
    Error, NakAction, PersistentSubEvent, PersistentSubscriptionSettings, Position, StreamPosition,
    SubEvent, SystemConsumerStrategy, Uuid,
};
use crate::wire::{
    FilterOption, PersistentReadContent, PersistentReadReq, PersistentReadResp, StreamIdentifier,
    SubscriptionConfigReq, SubscriptionDeleteReq, SubscriptionStreamOption, SubscriptionTarget,
    UuidOption, WireSubscriptionSettings, WireUuid,
};

verus! {

/// A start position of a persistent subscription, and its value in the
/// revision field that servers before version 22 read.
pub trait PsPosition: Copy {
    spec fn deprecated_value_spec(self) -> Option<u64>;

    fn to_deprecated_value(self) -> (r: Option<u64>)
        ensures
            r == self.deprecated_value_spec(),
    ;
}

impl PsPosition for u64 {
    open spec fn deprecated_value_spec(self) -> Option<u64> {
        Some(self)
    }

    fn to_deprecated_value(self) -> (r: Option<u64>) {
        Some(self)
    }
}

/// A position in the global log has no revision; servers that read the
/// revision field ignore it for the global log.
impl PsPosition for Position {
    open spec fn deprecated_value_spec(self) -> Option<u64> {
        None
    }

    fn to_deprecated_value(self) -> (r: Option<u64>) {
        None
    }
}

/// The legacy revision value of a start position: 0 from the start, the
/// largest value from the end, the revision itself, or 0 for a log position.
pub open spec fn deprecated_revision<A: PsPosition>(value: StreamPosition<A>) -> u64 {
    match value {
        StreamPosition::Start => 0,
        StreamPosition::End => u64::MAX,
        StreamPosition::Position(a) => match a.deprecated_value_spec() {
            Some(v) => v,
            None => 0,
        },
    }
}

/// The legacy revision value of a start position.
pub fn ps_to_deprecated_revision_value<A: PsPosition>(value: StreamPosition<A>) -> (r: u64)
    ensures
        r == deprecated_revision(value),
{
    match value {
        StreamPosition::Start => 0,
        StreamPosition::End => u64::MAX,
        StreamPosition::Position(a) => match a.to_deprecated_value() {
            Some(v) => v,
            None => 0,
        },
    }
}

/// The wire code of a consumer strategy.
pub open spec fn strategy_code(s: SystemConsumerStrategy) -> i32 {
    match s {
        SystemConsumerStrategy::DispatchToSingle => 0,
        SystemConsumerStrategy::RoundRobin => 1,
        SystemConsumerStrategy::Pinned => 2,
    }
}

/// Whether `w` is the wire form of the settings `s`: durations as
/// milliseconds (cut to 32 bits, as a cast does), the start position in the
/// legacy revision field too, every count as it is.
pub open spec fn settings_encode<A: PsPosition>(s: PersistentSubscriptionSettings<A>, w: WireSubscriptionSettings) -> bool {
    &&& w.resolve_links == s.resolve_link_tos
    &&& w.revision == deprecated_revision(s.start_from)
    &&& w.extra_statistics == s.extra_statistics
    &&& w.message_timeout_ms == s.message_timeout_ms as i32
    &&& w.max_retry_count == s.max_retry_count
    &&& w.checkpoint_after_ms == s.checkpoint_after_ms as i32
    &&& w.min_checkpoint_count == s.checkpoint_lower_bound
    &&& w.max_checkpoint_count == s.checkpoint_upper_bound
    &&& w.max_subscriber_count == s.max_subscriber_count
    &&& w.live_buffer_size == s.live_buffer_size
    &&& w.read_batch_size == s.read_batch_size
    &&& w.history_buffer_size == s.history_buffer_size
    &&& w.named_consumer_strategy == strategy_code(s.consumer_strategy_name)
}

/// The wire form of persistent-subscription settings, for the create and
/// the update request alike.
pub fn convert_settings<A: PsPosition>(settings: PersistentSubscriptionSettings<A>) -> (r: WireSubscriptionSettings)
    ensures
        settings_encode(settings, r),
{
    let named_consumer_strategy: i32 = match settings.consumer_strategy_name {
        SystemConsumerStrategy::DispatchToSingle => 0,
        SystemConsumerStrategy::RoundRobin => 1,
        SystemConsumerStrategy::Pinned => 2,
    };
    WireSubscriptionSettings {
        resolve_links: settings.resolve_link_tos,
        revision: ps_to_deprecated_revision_value(settings.start_from),
        extra_statistics: settings.extra_statistics,
        message_timeout_ms: settings.message_timeout_ms as i32,
        max_retry_count: settings.max_retry_count,
        checkpoint_after_ms: settings.checkpoint_after_ms as i32,
        min_checkpoint_count: settings.checkpoint_lower_bound,
        max_checkpoint_count: settings.checkpoint_upper_bound,
        max_subscriber_count: settings.max_subscriber_count,
        live_buffer_size: settings.live_buffer_size,
        read_batch_size: settings.read_batch_size,
        history_buffer_size: settings.history_buffer_size,
        named_consumer_strategy,
    }
}

/// Whether `r` is a create or update request of the group `group` with
/// the target and start `o` and the settings `s`.
pub open spec fn config_request_of<A: PsPosition>(
    r: SubscriptionConfigReq,
    stream: Seq<char>,
    group: Seq<char>,
    o: SubscriptionStreamOption,
    s: PersistentSubscriptionSettings<A>,
) -> bool {
    &&& r.stream_option == o
    &&& r.stream_identifier.stream_name@ == encode_utf8(stream)
    &&& r.group_name@ == group
    &&& settings_encode(s, r.settings)
}

fn config_request<A: PsPosition>(
    stream: &str,
    group: &str,
    stream_option: SubscriptionStreamOption,
    settings: PersistentSubscriptionSettings<A>,
) -> (r: SubscriptionConfigReq)
    ensures
        config_request_of(r, stream@, group@, stream_option, settings),
{
    SubscriptionConfigReq {
        stream_option,
        stream_identifier: stream_identifier(stream),
        group_name: String::from_str(group),
        settings: convert_settings(settings),
    }
}

impl PersistentSubscriptionOptions {
    /// The target and start of a subscription to one stream.
    pub fn to_create_options(&self, stream_identifier: StreamIdentifier) -> (r: SubscriptionStreamOption)
        ensures
            r == (SubscriptionStreamOption::Stream {
                stream_identifier,
                revision_option: revision_option_of(self.setts.start_from),
            }),
    {
        SubscriptionStreamOption::Stream { stream_identifier, revision_option: revision_option(self.setts.start_from) }
    }

    /// The target and start of a subscription to one stream, for an update.
    pub fn to_update_options(&self, stream_identifier: StreamIdentifier) -> (r: SubscriptionStreamOption)
        ensures
            r == (SubscriptionStreamOption::Stream {
                stream_identifier,
                revision_option: revision_option_of(self.setts.start_from),
            }),
    {
        self.to_create_options(stream_identifier)
    }

    /// The request that creates the group `group` on `stream`.
    pub fn create_request(&self, stream: &str, group: &str) -> (r: SubscriptionConfigReq)
        ensures
            r.stream_option matches SubscriptionStreamOption::Stream { stream_identifier, revision_option }
                && stream_identifier.stream_name@ == encode_utf8(stream@)
                && revision_option == revision_option_of(self.setts.start_from),
            r.stream_identifier.stream_name@ == encode_utf8(stream@),
            r.group_name@ == group@,
            settings_encode(self.setts, r.settings),
    {
        config_request(stream, group, self.to_create_options(stream_identifier(stream)), self.setts)
    }

    /// The request that updates the group `group` on `stream`.
    pub fn update_request(&self, stream: &str, group: &str) -> (r: SubscriptionConfigReq)
        ensures
            r.stream_option matches SubscriptionStreamOption::Stream { stream_identifier, revision_option }
                && stream_identifier.stream_name@ == encode_utf8(stream@)
                && revision_option == revision_option_of(self.setts.start_from),
            r.stream_identifier.stream_name@ == encode_utf8(stream@),
            r.group_name@ == group@,
            settings_encode(self.setts, r.settings),
    {
        config_request(stream, group, self.to_update_options(stream_identifier(stream)), self.setts)
    }
}

impl PersistentSubscriptionToAllOptions {
    /// The target, start and filter of a subscription to the global log.
    pub fn to_create_options(&self, stream_identifier: StreamIdentifier) -> (r: SubscriptionStreamOption)
        ensures
            r matches SubscriptionStreamOption::All { filter_option, all_option }
                && all_option == all_option_of(self.setts.start_from)
                && match self.filter {
                Some(f) => filter_option matches Some(FilterOption::Filter(o)) && filter_encodes(f, o),
                None => filter_option == Some(FilterOption::NoFilter),
            },
    {
        let filter_option = match &self.filter {
            Some(f) => FilterOption::Filter(encode_filter(f)),
            None => FilterOption::NoFilter,
        };
        SubscriptionStreamOption::All { filter_option: Some(filter_option), all_option: all_option(self.setts.start_from) }
    }

    /// The target and start of a subscription to the global log, for an
    /// update, which carries no filter.
    pub fn to_update_options(&self, stream_identifier: StreamIdentifier) -> (r: SubscriptionStreamOption)
        ensures
            r == (SubscriptionStreamOption::All {
                filter_option: None,
                all_option: all_option_of(self.setts.start_from),
            }),
    {
        SubscriptionStreamOption::All { filter_option: None, all_option: all_option(self.setts.start_from) }
    }

    /// The request that creates the group `group` on the global log.
    pub fn create_request(&self, stream: &str, group: &str) -> (r: SubscriptionConfigReq)
        ensures
            r.stream_option matches SubscriptionStreamOption::All { filter_option, all_option }
                && all_option == all_option_of(self.setts.start_from)
                && match self.filter {
                Some(f) => filter_option matches Some(FilterOption::Filter(o)) && filter_encodes(f, o),
                None => filter_option == Some(FilterOption::NoFilter),
            },
            r.stream_identifier.stream_name@ == encode_utf8(stream@),
            r.group_name@ == group@,
            settings_encode(self.setts, r.settings),
    {
        config_request(stream, group, self.to_create_options(stream_identifier(stream)), self.setts)
    }

    /// The request that updates the group `group` on the global log.
    pub fn update_request(&self, stream: &str, group: &str) -> (r: SubscriptionConfigReq)
        ensures
            r.stream_option == (SubscriptionStreamOption::All {
                filter_option: None,
                all_option: all_option_of(self.setts.start_from),
            }),
            r.stream_identifier.stream_name@ == encode_utf8(stream@),
            r.group_name@ == group@,
            settings_encode(self.setts, r.settings),
    {
        config_request(stream, group, self.to_update_options(stream_identifier(stream)), self.setts)
    }
}

/// Whether `t` names the global log where `to_all` holds, else `stream`.
pub open spec fn targets(t: SubscriptionTarget, stream: Seq<char>, to_all: bool) -> bool {
    if to_all {
        t is All
    } else {
        t matches SubscriptionTarget::Stream(si) && si.stream_name@ == encode_utf8(stream)
    }
}

/// The stream of a persistent subscription, or the global log.
fn subscription_target(stream_id: &str, to_all: bool) -> (r: SubscriptionTarget)
    ensures
        targets(r, stream_id@, to_all),
{
    if to_all {
        SubscriptionTarget::All
    } else {
        SubscriptionTarget::Stream(stream_identifier(stream_id))
    }
}

/// The request that deletes the group `group_name` of `stream_id`, or of
/// the global log.
pub fn delete_persistent_subscription_request(stream_id: &str, group_name: &str, to_all: bool) -> (r: SubscriptionDeleteReq)
    ensures
        targets(r.stream_option, stream_id@, to_all),
        r.group_name@ == group_name@,
{
    SubscriptionDeleteReq { stream_option: subscription_target(stream_id, to_all), group_name: String::from_str(group_name) }
}

/// The options frame that opens a persistent-subscription session.
pub fn persistent_options_frame(
    stream_id: &str,
    group_name: &str,
    options: &SubscribeToPersistentSubscriptionOptions,
    to_all: bool,
) -> (r: PersistentReadReq)
    ensures
        r matches PersistentReadReq::Options { stream_option, group_name: g, buffer_size, uuid_option }
            && targets(stream_option, stream_id@, to_all) && g@ == group_name@
            && buffer_size == options.buffer_size as i32 && uuid_option == UuidOption::String,
{
    PersistentReadReq::Options {
        stream_option: subscription_target(stream_id, to_all),
        group_name: String::from_str(group_name),
        buffer_size: options.buffer_size as i32,
        uuid_option: UuidOption::String,
    }
}

/// Whether `w` carries the ids `ids` as text, in the same order.
pub open spec fn ids_as_text(w: Seq<WireUuid>, ids: Seq<Uuid>) -> bool {
    &&& w.len() == ids.len()
    &&& forall|i: int| 0 <= i < ids.len() ==> is_text_uuid(#[trigger] w[i], ids[i].value)
}

/// The ids of events in their wire form, in order.
fn ids_to_proto(ids: &Vec<Uuid>) -> (r: Vec<WireUuid>)
    ensures
        ids_as_text(r@, ids@),
{
    let mut r: Vec<WireUuid> = Vec::new();
    let mut i: usize = 0;
    while i < ids.len()
        invariant
            0 <= i <= ids@.len(),
            r@.len() == i,
            forall|j: int| 0 <= j < i ==> is_text_uuid(#[trigger] r@[j], ids@[j].value),
        decreases ids@.len() - i,
    {
        r.push(to_proto_uuid(ids[i]));
        i += 1;
    }
    r
}

/// The ids that a run of frames acknowledges, frame after frame.
pub open spec fn acked_ids(frames: Seq<PersistentReadReq>) -> Seq<WireUuid>
    decreases frames.len(),
{
    if frames.len() == 0 {
        Seq::empty()
    } else {
        acked_ids(frames.drop_last()) + match frames.last() {
            PersistentReadReq::Ack { ids, .. } => ids@,
            _ => Seq::empty(),
        }
    }
}

/// The ids of a run of acknowledgements, one after the other.
pub open spec fn flatten_ids(acks: Seq<Seq<Uuid>>) -> Seq<Uuid>
    decreases acks.len(),
{
    if acks.len() == 0 {
        Seq::empty()
    } else {
        flatten_ids(acks.drop_last()) + acks.last()
    }
}

proof fn lemma_ids_as_text_concat(w1: Seq<WireUuid>, i1: Seq<Uuid>, w2: Seq<WireUuid>, i2: Seq<Uuid>)
    requires
        ids_as_text(w1, i1),
        ids_as_text(w2, i2),
    ensures
        ids_as_text(w1 + w2, i1 + i2),
{
    let w = w1 + w2;
    let i = i1 + i2;
    assert forall|k: int| 0 <= k < i.len() implies is_text_uuid(#[trigger] w[k], i[k].value) by {
        if k < i1.len() {
            assert(w[k] == w1[k] && i[k] == i1[k]);
        } else {
            assert(w[k] == w2[k - w1.len()] && i[k] == i2[k - i1.len()]);
        }
    }
}

/// Acknowledgement order: when the acks of `acks` are sent one after the
/// other on a session's control channel, which delivers frames in the order
/// sent, the server reads the acknowledged ids in the order they were
/// submitted, each in text form.
pub proof fn lemma_ack_order(acks: Seq<Seq<Uuid>>, frames: Seq<PersistentReadReq>)
    requires
        frames.len() == acks.len(),
        forall|k: int|
            0 <= k < frames.len() ==> (#[trigger] frames[k] matches PersistentReadReq::Ack { ids, .. } && ids_as_text(
                ids@,
                acks[k],
            )),
    ensures
        ids_as_text(acked_ids(frames), flatten_ids(acks)),
    decreases frames.len(),
{
    if frames.len() > 0 {
        let n = frames.len() - 1;
        assert(frames[n] matches PersistentReadReq::Ack { .. });
        lemma_ack_order(acks.drop_last(), frames.drop_last());
        let last_ids = frames.last()->Ack_ids@;
        lemma_ids_as_text_concat(acked_ids(frames.drop_last()), flatten_ids(acks.drop_last()), last_ids, acks.last());
    }
}

/// The wire code of a negative-acknowledgement action.
pub open spec fn nak_code(a: NakAction) -> i32 {
    match a {
        NakAction::Unknown => 0,
        NakAction::Park => 1,
        NakAction::Retry => 2,
        NakAction::Skip => 3,
        NakAction::Stop => 4,
    }
}

/// The frame that acknowledges `ids`, in the order given; the legacy byte
/// id stays empty.
pub fn ack_frame(ids: &Vec<Uuid>) -> (r: PersistentReadReq)
    ensures
        r matches PersistentReadReq::Ack { id, ids: w } && id@.len() == 0 && ids_as_text(w@, ids@),
{
    PersistentReadReq::Ack { id: Vec::new(), ids: ids_to_proto(ids) }
}

/// The frame that refuses `ids`, in the order given, with an action and a
/// reason; the legacy byte id stays empty.
pub fn nack_frame(ids: &Vec<Uuid>, action: NakAction, reason: &str) -> (r: PersistentReadReq)
    ensures
        r matches PersistentReadReq::Nack { id, ids: w, action: a, reason: why } && id@.len() == 0
            && ids_as_text(w@, ids@) && a == nak_code(action) && why@ == reason@,
{
    let code: i32 = match action {
        NakAction::Unknown => 0,
        NakAction::Park => 1,
        NakAction::Retry => 2,
        NakAction::Skip => 3,
        NakAction::Stop => 4,
    };
    PersistentReadReq::Nack { id: Vec::new(), ids: ids_to_proto(ids), action: code, reason: String::from_str(reason) }
}

/// What the transport hands a persistent-subscription session next.
#[derive(Clone, Debug)]
pub enum SessionInput {
    /// A frame from the server.
    Frame(PersistentReadResp),
    /// The server closed the stream.
    End,
    /// The call failed with a status; `exception` is the value of the
    /// `exception` entry of its metadata, if any.
    Failed { code: i32, message: String, exception: Option<String> },
}

/// What the session does with its input.
#[derive(Clone, Debug)]
pub enum SessionOutput {
    /// Hand this to the reader.
    Yield(SubEvent<PersistentSubEvent>),
    /// End the reader's sequence without error.
    Close,
    /// End the reader's sequence with this error.
    Fail(Error),
}

/// The metadata value by which the server says it dropped the subscription.
pub open spec fn dropped_exception() -> Seq<char> {
    "persistent-subscription-dropped"@
}

/// The session's step: events and confirmations are handed out; a drop
/// announced in the status metadata, or the end of the stream, closes the
/// sequence cleanly; any other failure ends it with its error.
pub fn persistent_session_step(input: SessionInput) -> (r: SessionOutput)
    ensures
        match input {
            SessionInput::End => r is Close,
            SessionInput::Failed { code, message, exception } => if exception matches Some(x) && x@
                == dropped_exception() {
                r is Close
            } else {
                r matches SessionOutput::Fail(e) && e == Error::from_status_spec(code, message)
            },
            SessionInput::Frame(resp) => match resp.content {
                None => r matches SessionOutput::Fail(e) && e is Internal,
                Some(PersistentReadContent::SubscriptionConfirmation { subscription_id }) => r matches SessionOutput::Yield(
                    SubEvent::Confirmed(id),
                ) && id == subscription_id,
                Some(PersistentReadContent::Event(ev)) => if persistent_event_ok(ev) {
                    r matches SessionOutput::Yield(SubEvent::EventAppeared(e)) && persistent_from_wire(ev, e)
                } else {
                    r matches SessionOutput::Fail(e) && e is Internal
                },
            },
        },
{
    match input {
        SessionInput::End => SessionOutput::Close,
        SessionInput::Failed { code, message, exception } => {
            let dropped = String::from_str("persistent-subscription-dropped");
            let is_drop = match &exception {
                Some(x) => *x == dropped,
                None => false,
            };
            if is_drop {
                SessionOutput::Close
            } else {
                SessionOutput::Fail(Error::from_status(code, message))
            }
        },
        SessionInput::Frame(resp) => match resp.content {
            None => SessionOutput::Fail(Error::Internal),
            Some(PersistentReadContent::SubscriptionConfirmation { subscription_id }) => SessionOutput::Yield(
                SubEvent::Confirmed(subscription_id),
            ),
            Some(PersistentReadContent::Event(ev)) => match convert_persistent_proto_read_event(ev) {
                Ok(e) => SessionOutput::Yield(SubEvent::EventAppeared(e)),
                Err(e) => SessionOutput::Fail(e),
            },
        },
    }
}

/// The event of a subscription item, if it is one.
pub fn appeared_event<A>(item: SubEvent<A>) -> (r: Option<A>)
    ensures
        match item {
            SubEvent::EventAppeared(e) => r == Some(e),
            _ => r is None,
        },
{
    match item {
        SubEvent::EventAppeared(e) => Some(e),
        _ => None,
    }
}

} // verus!
