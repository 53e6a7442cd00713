use eventstore_core::append::stream_identifier;
use eventstore_core::options::{DeleteStreamOptions, ReadAllOptions, ReadStreamOptions, TombstoneStreamOptions};
use eventstore_core::read::{
    decode_delete_response, delete_stream_request, read_all_request, read_step, read_stream_request,
    tombstone_stream_request, ReadStep,
};
use eventstore_core::types::{Error, ExpectedRevision, Position, ReadDirection, StreamPosition};
use eventstore_core::wire::{
    AllOption, CountOption, DeleteResp, FilterOption, PositionOption, ReadContent, ReadEvent, ReadResp,
    RevisionOption, StreamOption, UuidOption, UuidValue, WireRecordedEvent, WireUuid,
};

#[test]
fn read_stream_request_fields() {
    let o = ReadStreamOptions { direction: ReadDirection::Backward, position: StreamPosition::Position(7), resolve_link_tos: true, credentials: None };
    let r = read_stream_request(&o, "s-1", 10);
    assert_eq!(r.stream_option, StreamOption::Stream { stream_identifier: stream_identifier("s-1"), revision_option: RevisionOption::Revision(7) });
    assert_eq!(r.count_option, CountOption::Count(10));
    assert_eq!(r.read_direction, 1);
    assert!(r.resolve_links);
    assert_eq!(r.filter_option, FilterOption::NoFilter);
    assert_eq!(r.uuid_option, UuidOption::String);
}

#[test]
fn read_all_request_fields() {
    let o = ReadAllOptions { direction: ReadDirection::Forward, position: StreamPosition::Start, resolve_link_tos: false, credentials: None };
    let r = read_all_request(&o, 3);
    assert_eq!(r.stream_option, StreamOption::All { all_option: AllOption::Start });
    assert_eq!(r.read_direction, 0);
    let o = ReadAllOptions { direction: ReadDirection::Forward, position: StreamPosition::Position(Position { commit: 4, prepare: 2 }), resolve_link_tos: false, credentials: None };
    let r = read_all_request(&o, 3);
    assert_eq!(r.stream_option, StreamOption::All { all_option: AllOption::Position(Position { commit: 4, prepare: 2 }) });
}

#[test]
fn scenario_read_missing_stream() {
    let frame = ReadResp { content: Some(ReadContent::StreamNotFound { stream_identifier: Some(stream_identifier("missing")) }) };
    assert!(matches!(read_step(Some(frame)), Err(Error::ResourceNotFound)));
}

#[test]
fn read_step_skips_checkpoints_and_ends() {
    let frame = ReadResp { content: Some(ReadContent::Checkpoint { commit_position: 1, prepare_position: 1 }) };
    assert!(matches!(read_step(Some(frame)), Ok(ReadStep::Skip)));
    assert!(matches!(read_step(None), Ok(ReadStep::End)));
    assert!(matches!(read_step(Some(ReadResp { content: None })), Err(Error::Internal)));
}

#[test]
fn read_step_hands_out_events() {
    let w = WireRecordedEvent {
        id: Some(WireUuid { value: Some(UuidValue::Structured { most_significant_bits: 0, least_significant_bits: 5 }) }),
        stream_identifier: Some(stream_identifier("s")),
        stream_revision: 0,
        prepare_position: 0,
        commit_position: 0,
        metadata: vec![],
        custom_metadata: vec![],
        data: b"x".to_vec(),
    };
    let frame = ReadResp { content: Some(ReadContent::Event(ReadEvent { event: Some(w), link: None, position: None })) };
    match read_step(Some(frame)) {
        Ok(ReadStep::Event(e)) => assert_eq!(e.event.unwrap().data, b"x".to_vec()),
        other => panic!("unexpected step {:?}", other),
    }
}

#[test]
fn delete_and_tombstone_requests() {
    let d = DeleteStreamOptions::default().expected_revision(ExpectedRevision::Exact(3));
    let r = delete_stream_request("s", &d);
    assert_eq!(r.expected_stream_revision, ExpectedRevision::Exact(3));
    assert_eq!(r.stream_identifier, stream_identifier("s"));
    let t = TombstoneStreamOptions { version: ExpectedRevision::StreamExists, credentials: None };
    assert_eq!(tombstone_stream_request("s", &t).expected_stream_revision, ExpectedRevision::StreamExists);
}

#[test]
fn delete_response_position() {
    let p = Position { commit: 9, prepare: 8 };
    assert_eq!(decode_delete_response(DeleteResp { position_option: Some(PositionOption::Position(p)) }), Some(p));
    assert_eq!(decode_delete_response(DeleteResp { position_option: Some(PositionOption::NoPosition) }), None);
    assert_eq!(decode_delete_response(DeleteResp { position_option: None }), None);
}
