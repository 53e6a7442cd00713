use eventstore_core::append::{append_request_frames, decode_append_response, stream_identifier};
use eventstore_core::codec::convert_proto_recorded_event;
use eventstore_core::options::AppendToStreamOptions;
use eventstore_core::types::{
    CurrentRevision, Error, EventData, ExpectedRevision, Position, WriteResult, WrongExpectedVersion,
};
use eventstore_core::wire::{AppendReq, AppendResp, AppendResult, PositionOption, WireRecordedEvent};

fn opts(version: ExpectedRevision) -> AppendToStreamOptions {
    AppendToStreamOptions { version, credentials: None }
}

#[test]
fn append_frames_options_first_then_events_in_order() {
    let events = vec![
        EventData::json("t".to_string(), b"A".to_vec()),
        EventData::json("t".to_string(), b"B".to_vec()),
    ];
    let frames = append_request_frames("s-1", &opts(ExpectedRevision::NoStream), events);
    assert_eq!(frames.len(), 3);
    assert_eq!(
        frames[0],
        AppendReq::Options { stream_identifier: stream_identifier("s-1"), expected_stream_revision: ExpectedRevision::NoStream }
    );
    let data: Vec<Vec<u8>> = frames[1..]
        .iter()
        .map(|f| match f {
            AppendReq::ProposedMessage(m) => m.data.clone(),
            other => panic!("unexpected frame {:?}", other),
        })
        .collect();
    assert_eq!(data, vec![b"A".to_vec(), b"B".to_vec()]);
}

#[test]
fn append_of_no_events_is_options_only() {
    let frames = append_request_frames("s", &opts(ExpectedRevision::Any), vec![]);
    assert_eq!(frames.len(), 1);
}

#[test]
fn scenario_append_then_read_back() {
    // The server stores each proposed message at the next revision of the
    // fresh stream and reports the last revision.
    let events = vec![
        EventData::json("t".to_string(), b"A".to_vec()),
        EventData::json("t".to_string(), b"B".to_vec()),
    ];
    let frames = append_request_frames("s-1", &opts(ExpectedRevision::NoStream), events);
    let stored: Vec<WireRecordedEvent> = frames[1..]
        .iter()
        .enumerate()
        .map(|(i, f)| match f {
            AppendReq::ProposedMessage(m) => WireRecordedEvent {
                id: m.id.clone(),
                stream_identifier: Some(stream_identifier("s-1")),
                stream_revision: i as u64,
                prepare_position: 100 + i as u64,
                commit_position: 100 + i as u64,
                metadata: m.metadata.clone(),
                custom_metadata: m.custom_metadata.clone(),
                data: m.data.clone(),
            },
            other => panic!("unexpected frame {:?}", other),
        })
        .collect();
    let resp = AppendResp {
        result: Some(AppendResult::Success {
            current_revision_option: Some(CurrentRevision::Current(1)),
            position_option: Some(PositionOption::Position(Position { commit: 101, prepare: 101 })),
        }),
    };
    let w = decode_append_response(resp).unwrap().unwrap();
    assert_eq!(w.next_expected_version, 1);
    let read: Vec<_> = stored.into_iter().map(|w| convert_proto_recorded_event(w).unwrap()).collect();
    assert_eq!(read.iter().map(|r| r.revision).collect::<Vec<_>>(), vec![0, 1]);
    assert_eq!(read.iter().map(|r| r.data.clone()).collect::<Vec<_>>(), vec![b"A".to_vec(), b"B".to_vec()]);
    assert!(read.iter().all(|r| r.event_type == "t" && r.is_json));
}

#[test]
fn scenario_conflict_on_missing_stream() {
    let frames = append_request_frames("s-2", &opts(ExpectedRevision::Exact(5)), vec![EventData::json("t".to_string(), vec![])]);
    assert!(matches!(frames[0], AppendReq::Options { expected_stream_revision: ExpectedRevision::Exact(5), .. }));
    let resp = AppendResp {
        result: Some(AppendResult::WrongExpectedVersion {
            current_revision_option: Some(CurrentRevision::NoStream),
            expected_revision_option: Some(ExpectedRevision::Exact(5)),
        }),
    };
    let r = decode_append_response(resp).unwrap();
    assert_eq!(r, Err(WrongExpectedVersion { current: CurrentRevision::NoStream, expected: ExpectedRevision::Exact(5) }));
}

#[test]
fn conflict_on_existing_stream() {
    let resp = AppendResp {
        result: Some(AppendResult::WrongExpectedVersion {
            current_revision_option: Some(CurrentRevision::Current(2)),
            expected_revision_option: Some(ExpectedRevision::Exact(7)),
        }),
    };
    let r = decode_append_response(resp).unwrap();
    assert_eq!(r, Err(WrongExpectedVersion { current: CurrentRevision::Current(2), expected: ExpectedRevision::Exact(7) }));
}

#[test]
fn success_without_position_is_start() {
    for p in [None, Some(PositionOption::NoPosition)] {
        let resp = AppendResp {
            result: Some(AppendResult::Success { current_revision_option: Some(CurrentRevision::NoStream), position_option: p }),
        };
        let r = decode_append_response(resp).unwrap();
        assert_eq!(r, Ok(WriteResult { next_expected_version: 0, position: Position::start() }));
    }
}

#[test]
fn broken_append_response_is_internal() {
    assert!(matches!(decode_append_response(AppendResp { result: None }), Err(Error::Internal)));
    let resp = AppendResp { result: Some(AppendResult::Success { current_revision_option: None, position_option: None }) };
    assert!(matches!(decode_append_response(resp), Err(Error::Internal)));
    let resp = AppendResp {
        result: Some(AppendResult::WrongExpectedVersion { current_revision_option: None, expected_revision_option: Some(ExpectedRevision::Any) }),
    };
    assert!(matches!(decode_append_response(resp), Err(Error::Internal)));
}

#[test]
fn stream_name_as_utf8_bytes() {
    assert_eq!(stream_identifier("s-é").stream_name, vec![b's', b'-', 0xc3, 0xa9]);
}
