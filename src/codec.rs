//! Conversions between wire messages and domain records.
use vstd::prelude::*;
use vstd::utf8::*;

use crate::ids::{
    from_halves_spec, is_v4, new_v4, parse_uuid, uuid_from_halves, uuid_parsed, uuid_text,
    uuid_to_string,
};
use crate::text::utf8_string;
use crate::types::{
    metadata_lookup, metadata_view, Error, EventData, Metadata, PersistentSubEvent, Position,
    RecordedEvent, ResolvedEvent, SubscriptionFilter, Uuid,
};
use crate::wire::{
    AppendReq, Filter, FilterExpression, FilterOptions, PersistentReadEvent, ProposedMessage,
    ReadEvent, ReadEventPosition, RetryCountOption, UuidValue, Window, WireRecordedEvent, WireUuid,
};

verus! {

/// The value of the entry of `m` whose key is `key`.
pub fn metadata_get(m: &Metadata, key: &String) -> (r: Option<String>)
    ensures
        r is None <==> metadata_lookup(metadata_view(*m), key@) is None,
        r matches Some(v) ==> metadata_lookup(metadata_view(*m), key@) == Some(v@),
{
    let ghost s = metadata_view(*m);
    let mut i: usize = 0;
    assert(s.skip(0) =~= s);
    while i < m.len()
        invariant
            0 <= i <= m@.len(),
            s == metadata_view(*m),
            metadata_lookup(s, key@) == metadata_lookup(s.skip(i as int), key@),
        decreases m@.len() - i,
    {
        assert(s.skip(i as int)[0] == s[i as int]);
        if m[i].0 == *key {
            return Some(m[i].1.clone());
        }
        assert(s.skip(i as int).drop_first() =~= s.skip(i + 1));
        i += 1;
    }
    assert(s.skip(i as int).len() == 0);
    None
}

/// The value that a wire UUID stands for, if it stands for one.
pub open spec fn wire_uuid_value(w: WireUuid) -> Option<u128> {
    match w.value {
        None => None,
        Some(UuidValue::Structured { most_significant_bits, least_significant_bits }) => Some(
            from_halves_spec(most_significant_bits, least_significant_bits),
        ),
        Some(UuidValue::String(s)) => uuid_parsed(s@),
    }
}

/// Whether `w` carries `v` in text form.
pub open spec fn is_text_uuid(w: WireUuid, v: u128) -> bool {
    w.value matches Some(UuidValue::String(s)) && s@ == uuid_text(v)
}

/// Reads a UUID in either wire representation.
pub fn raw_uuid_to_uuid(src: WireUuid) -> (r: Result<Uuid, Error>)
    ensures
        r is Ok <==> wire_uuid_value(src) is Some,
        r matches Ok(u) ==> wire_uuid_value(src) == Some(u.value),
        r matches Err(e) ==> e is Internal,
{
    match src.value {
        None => Err(Error::Internal),
        Some(UuidValue::Structured { most_significant_bits, least_significant_bits }) => Ok(
            uuid_from_halves(most_significant_bits, least_significant_bits),
        ),
        Some(UuidValue::String(s)) => match parse_uuid(s.as_str()) {
            Some(u) => Ok(u),
            None => Err(Error::Internal),
        },
    }
}

/// The text representation of a UUID on the wire.
pub fn to_proto_uuid(id: Uuid) -> (r: WireUuid)
    ensures
        is_text_uuid(r, id.value),
        wire_uuid_value(r) == Some(id.value),
{
    WireUuid { value: Some(UuidValue::String(uuid_to_string(id))) }
}

/// Whether `m` is the proposed message of `e` under the id `id`: the id in
/// text form, the metadata as given, the custom metadata (empty if absent)
/// and the payload.
pub open spec fn proposed_from(e: EventData, id: u128, m: ProposedMessage) -> bool {
    &&& m.id matches Some(w) && is_text_uuid(w, id)
    &&& metadata_view(m.metadata) == metadata_view(e.metadata)
    &&& m.custom_metadata@ == match e.custom_metadata {
        Some(c) => c@,
        None => Seq::<u8>::empty(),
    }
    &&& m.data@ == e.payload@
}

/// Whether `id` is a valid choice of identity for `e`: the one it carries,
/// else a fresh version-4 value.
pub open spec fn id_for(e: EventData, id: u128) -> bool {
    match e.id {
        Some(given) => id == given.value,
        None => is_v4(id),
    }
}

/// Whether `m` carries an id that is a valid choice for `e`, with `e`'s content.
pub open spec fn proposes(e: EventData, m: ProposedMessage) -> bool {
    m.id matches Some(w) && wire_uuid_value(w) matches Some(v) && id_for(e, v) && proposed_from(e, v, m)
}

/// The proposed message of an event, as the batch-append session sends it.
pub fn convert_event_data_to_batch_proposed_message(event: EventData) -> (r: ProposedMessage)
    ensures
        proposes(event, r),
{
    let ghost e = event;
    let id = match event.id {
        Some(id) => id,
        None => new_v4(),
    };
    let custom_metadata = match event.custom_metadata {
        Some(c) => c,
        None => Vec::new(),
    };
    let r = ProposedMessage {
        id: Some(to_proto_uuid(id)),
        metadata: event.metadata,
        custom_metadata,
        data: event.payload,
    };
    assert(proposed_from(e, id.value, r));
    r
}

/// The append frame that proposes an event.
pub fn convert_event_data(event: EventData) -> (r: AppendReq)
    ensures
        r matches AppendReq::ProposedMessage(m) && proposes(event, m),
{
    AppendReq::ProposedMessage(convert_event_data_to_batch_proposed_message(event))
}

/// Whether a wire recorded event can be read: it carries a valid id and a
/// stream name in UTF-8.
pub open spec fn wire_recorded_ok(w: WireRecordedEvent) -> bool {
    &&& w.id matches Some(id) && wire_uuid_value(id) is Some
    &&& w.stream_identifier matches Some(si) && valid_utf8(si.stream_name@)
}

/// The event type that metadata names, with a placeholder where it names none.
pub open spec fn event_type_of(m: Seq<(Seq<char>, Seq<char>)>) -> Seq<char> {
    match metadata_lookup(m, "type"@) {
        Some(t) => t,
        None => "<no-event-type-provided>"@,
    }
}

/// Whether metadata says that the payload is JSON.
pub open spec fn is_json_of(m: Seq<(Seq<char>, Seq<char>)>) -> bool {
    metadata_lookup(m, "content-type"@) == Some("application/json"@)
}

/// Whether `r` is the domain record of a readable wire event `w`.
pub open spec fn recorded_from_wire(w: WireRecordedEvent, r: RecordedEvent) -> bool {
    &&& w.id matches Some(id) && wire_uuid_value(id) == Some(r.id.value)
    &&& w.stream_identifier matches Some(si) && r.stream_id@ == decode_utf8(si.stream_name@)
    &&& r.revision == w.stream_revision
    &&& r.position == Position { commit: w.commit_position, prepare: w.prepare_position }
    &&& r.event_type@ == event_type_of(metadata_view(w.metadata))
    &&& r.is_json == is_json_of(metadata_view(w.metadata))
    &&& metadata_view(r.metadata) == metadata_view(w.metadata)
    &&& r.custom_metadata@ == w.custom_metadata@
    &&& r.data@ == w.data@
}

/// Reads a recorded event; a missing or invalid id or stream name is a
/// protocol violation.
pub fn convert_proto_recorded_event(event: WireRecordedEvent) -> (r: Result<RecordedEvent, Error>)
    ensures
        r is Ok <==> wire_recorded_ok(event),
        r matches Ok(rec) ==> recorded_from_wire(event, rec),
        r matches Err(e) ==> e is Internal,
{
    let id = match event.id {
        Some(id) => match raw_uuid_to_uuid(id) {
            Ok(id) => id,
            Err(e) => return Err(e),
        },
        None => return Err(Error::Internal),
    };
    let stream_id = match event.stream_identifier {
        Some(si) => match utf8_string(si.stream_name) {
            Some(s) => s,
            None => return Err(Error::Internal),
        },
        None => return Err(Error::Internal),
    };
    let type_key = String::from_str("type");
    let content_type_key = String::from_str("content-type");
    let event_type = match metadata_get(&event.metadata, &type_key) {
        Some(t) => t,
        None => String::from_str("<no-event-type-provided>"),
    };
    let json = String::from_str("application/json");
    let is_json = match metadata_get(&event.metadata, &content_type_key) {
        Some(ct) => ct == json,
        None => false,
    };
    Ok(
        RecordedEvent {
            id,
            stream_id,
            revision: event.stream_revision,
            position: Position { commit: event.commit_position, prepare: event.prepare_position },
            event_type,
            is_json,
            metadata: event.metadata,
            custom_metadata: event.custom_metadata,
            data: event.data,
        },
    )
}

/// Whether an optional wire event can be read.
pub open spec fn opt_recorded_ok(w: Option<WireRecordedEvent>) -> bool {
    w matches Some(e) ==> wire_recorded_ok(e)
}

/// Whether `r` is the reading of the optional wire event `w`.
pub open spec fn opt_recorded_from_wire(w: Option<WireRecordedEvent>, r: Option<RecordedEvent>) -> bool {
    match (w, r) {
        (None, None) => true,
        (Some(we), Some(re)) => recorded_from_wire(we, re),
        _ => false,
    }
}

/// Reads an optional recorded event.
fn convert_opt_recorded_event(event: Option<WireRecordedEvent>) -> (r: Result<Option<RecordedEvent>, Error>)
    ensures
        r is Ok <==> opt_recorded_ok(event),
        r matches Ok(rec) ==> opt_recorded_from_wire(event, rec),
        r matches Err(e) ==> e is Internal,
{
    match event {
        None => Ok(None),
        Some(e) => match convert_proto_recorded_event(e) {
            Ok(rec) => Ok(Some(rec)),
            Err(e) => Err(e),
        },
    }
}

/// The commit position of a read event, where it has one.
pub open spec fn commit_position_of(p: Option<ReadEventPosition>) -> Option<u64> {
    match p {
        Some(ReadEventPosition::CommitPosition(c)) => Some(c),
        _ => None,
    }
}

/// Whether a read event frame can be read.
pub open spec fn read_event_ok(w: ReadEvent) -> bool {
    opt_recorded_ok(w.event) && opt_recorded_ok(w.link)
}

/// Whether `r` is the reading of the read event frame `w`.
pub open spec fn resolved_from_wire(w: ReadEvent, r: ResolvedEvent) -> bool {
    &&& opt_recorded_from_wire(w.event, r.event)
    &&& opt_recorded_from_wire(w.link, r.link)
    &&& r.commit_position == commit_position_of(w.position)
}

/// Reads an event frame of a read or a catch-up subscription.
pub fn convert_proto_read_event(event: ReadEvent) -> (r: Result<ResolvedEvent, Error>)
    ensures
        r is Ok <==> read_event_ok(event),
        r matches Ok(res) ==> resolved_from_wire(event, res),
        r matches Err(e) ==> e is Internal,
{
    let commit_position = match event.position {
        Some(ReadEventPosition::CommitPosition(c)) => Some(c),
        _ => None,
    };
    let ev = match convert_opt_recorded_event(event.event) {
        Ok(e) => e,
        Err(e) => return Err(e),
    };
    let link = match convert_opt_recorded_event(event.link) {
        Ok(l) => l,
        Err(e) => return Err(e),
    };
    Ok(ResolvedEvent { event: ev, link, commit_position })
}

/// The retry count of a persistent-subscription event, 0 where absent.
pub open spec fn retry_count_of(c: Option<RetryCountOption>) -> u64 {
    match c {
        Some(RetryCountOption::RetryCount(n)) => n as u64,
        _ => 0,
    }
}

/// Whether a persistent-subscription event frame can be read.
pub open spec fn persistent_event_ok(w: PersistentReadEvent) -> bool {
    opt_recorded_ok(w.event) && opt_recorded_ok(w.link)
}

/// Whether `r` is the reading of the persistent-subscription event frame `w`.
pub open spec fn persistent_from_wire(w: PersistentReadEvent, r: PersistentSubEvent) -> bool {
    &&& opt_recorded_from_wire(w.event, r.event.event)
    &&& opt_recorded_from_wire(w.link, r.event.link)
    &&& r.event.commit_position == commit_position_of(w.position)
    &&& r.retry_count == retry_count_of(w.count)
}

/// Reads an event frame of a persistent subscription.
pub fn convert_persistent_proto_read_event(event: PersistentReadEvent) -> (r: Result<PersistentSubEvent, Error>)
    ensures
        r is Ok <==> persistent_event_ok(event),
        r matches Ok(res) ==> persistent_from_wire(event, res),
        r matches Err(e) ==> e is Internal,
{
    let commit_position = match event.position {
        Some(ReadEventPosition::CommitPosition(c)) => Some(c),
        _ => None,
    };
    let retry_count: u64 = match event.count {
        Some(RetryCountOption::RetryCount(n)) => n as u64,
        _ => 0,
    };
    let ev = match convert_opt_recorded_event(event.event) {
        Ok(e) => e,
        Err(e) => return Err(e),
    };
    let link = match convert_opt_recorded_event(event.link) {
        Ok(l) => l,
        Err(e) => return Err(e),
    };
    Ok(PersistentSubEvent { event: ResolvedEvent { event: ev, link, commit_position }, retry_count })
}

/// The views of a list of strings.
pub open spec fn strings_view(v: Seq<String>) -> Seq<Seq<char>> {
    v.map_values(|s: String| s@)
}

/// A copy of a list of strings.
pub fn clone_strings(v: &Vec<String>) -> (r: Vec<String>)
    ensures
        strings_view(r@) == strings_view(v@),
{
    let mut r: Vec<String> = Vec::new();
    let mut i: usize = 0;
    while i < v.len()
        invariant
            0 <= i <= v@.len(),
            strings_view(r@) == strings_view(v@.take(i as int)),
        decreases v@.len() - i,
    {
        let ghost before = r@;
        let c = v[i].clone();
        r.push(c);
        assert(v@.take(i + 1) =~= v@.take(i as int).push(v@[i as int]));
        assert(strings_view(r@) =~= strings_view(before).push(c@));
        assert(strings_view(v@.take(i + 1)) =~= strings_view(v@.take(i as int)).push(v@[i as int]@));
        i += 1;
    }
    assert(v@.take(i as int) =~= v@);
    r
}

/// Whether `o` is the wire form of the filter `f`: the expression (regex,
/// empty where none is given, and prefixes) applies to stream names or to
/// event types as `f` says, the window is `f`'s maximum or unbounded, and
/// the checkpoint interval multiplier is 1.
pub open spec fn filter_encodes(f: SubscriptionFilter, o: FilterOptions) -> bool {
    let expr = match o.filter {
        Filter::StreamIdentifier(e) => e,
        Filter::EventType(e) => e,
    };
    &&& (o.filter is StreamIdentifier <==> f.based_on_stream)
    &&& expr.regex@ == match f.regex {
        Some(r) => r@,
        None => Seq::<char>::empty(),
    }
    &&& strings_view(expr.prefix@) == strings_view(f.prefixes@)
    &&& o.window == match f.max {
        Some(m) => Window::Max(m),
        None => Window::Count,
    }
    &&& o.checkpoint_interval_multiplier == 1
}

fn filter_options(based_on_stream: bool, regex: String, prefix: Vec<String>, max: Option<u32>) -> (r: FilterOptions)
    ensures
        r.filter is StreamIdentifier <==> based_on_stream,
        r.filter matches Filter::StreamIdentifier(e) ==> e.regex == regex && e.prefix == prefix,
        r.filter matches Filter::EventType(e) ==> e.regex == regex && e.prefix == prefix,
        r.window == match max {
            Some(m) => Window::Max(m),
            None => Window::Count,
        },
        r.checkpoint_interval_multiplier == 1,
{
    let window = match max {
        Some(m) => Window::Max(m),
        None => Window::Count,
    };
    let expr = FilterExpression { regex, prefix };
    let filter = if based_on_stream {
        Filter::StreamIdentifier(expr)
    } else {
        Filter::EventType(expr)
    };
    FilterOptions { filter, window, checkpoint_interval_multiplier: 1 }
}

/// Whether two filters say the same.
pub open spec fn same_filter(a: SubscriptionFilter, b: SubscriptionFilter) -> bool {
    &&& a.based_on_stream == b.based_on_stream
    &&& strings_view(a.prefixes@) == strings_view(b.prefixes@)
    &&& match (a.regex, b.regex) {
        (None, None) => true,
        (Some(x), Some(y)) => x@ == y@,
        _ => false,
    }
    &&& a.max == b.max
}

/// A copy of an optional filter.
pub fn clone_filter(f: &Option<SubscriptionFilter>) -> (r: Option<SubscriptionFilter>)
    ensures
        r is Some <==> f is Some,
        r matches Some(c) ==> same_filter(f->Some_0, c),
{
    match f {
        None => None,
        Some(f) => {
            let regex = match &f.regex {
                Some(x) => Some(x.clone()),
                None => None,
            };
            Some(
                SubscriptionFilter {
                    based_on_stream: f.based_on_stream,
                    prefixes: clone_strings(&f.prefixes),
                    regex,
                    max: f.max,
                },
            )
        },
    }
}

/// The wire form of a subscription filter, leaving the filter in place.
pub(crate) fn encode_filter(filter: &SubscriptionFilter) -> (r: FilterOptions)
    ensures
        filter_encodes(*filter, r),
{
    let regex = match &filter.regex {
        Some(r) => r.clone(),
        None => String::new(),
    };
    filter_options(filter.based_on_stream, regex, clone_strings(&filter.prefixes), filter.max)
}

/// The wire form of a subscription filter, for a catch-up subscription.
pub fn filter_into_proto(filter: SubscriptionFilter) -> (r: FilterOptions)
    ensures
        filter_encodes(filter, r),
{
    let regex = match filter.regex {
        Some(r) => r,
        None => String::new(),
    };
    filter_options(filter.based_on_stream, regex, filter.prefixes, filter.max)
}

/// The wire form of a subscription filter, for a persistent subscription to
/// the global log.
pub fn ps_create_filter_into_proto(filter: &SubscriptionFilter) -> (r: FilterOptions)
    ensures
        filter_encodes(*filter, r),
{
    encode_filter(filter)
}

/// Whether the server stored the proposed message `m` as the wire event `w`:
/// same id, metadata, custom metadata and payload.
pub open spec fn stored_as(m: ProposedMessage, w: WireRecordedEvent) -> bool {
    &&& w.id == m.id
    &&& metadata_view(w.metadata) == metadata_view(m.metadata)
    &&& w.custom_metadata@ == m.custom_metadata@
    &&& w.data@ == m.data@
}

/// Id stability: an event read back from what the server stored of its
/// proposed message carries the id that the event was given, or, where it
/// was given none, the version-4 id that the client drew for it; and it
/// carries the event's payload and metadata.
pub proof fn lemma_id_stability(e: EventData, m: ProposedMessage, w: WireRecordedEvent, rec: RecordedEvent)
    requires
        proposes(e, m),
        stored_as(m, w),
        recorded_from_wire(w, rec),
    ensures
        e.id matches Some(given) ==> rec.id == given,
        e.id is None ==> is_v4(rec.id.value),
        rec.data@ == e.payload@,
        metadata_view(rec.metadata) == metadata_view(e.metadata),
{
    let v = wire_uuid_value(m.id->Some_0)->Some_0;
    assert(rec.id.value == v);
    if let Some(given) = e.id {
        assert(rec.id == given);
    }
}

} // verus!
