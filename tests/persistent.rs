use eventstore_core::append::stream_identifier;
use eventstore_core::codec::to_proto_uuid;
use eventstore_core::options::{PersistentSubscriptionOptions, PersistentSubscriptionToAllOptions, SubscribeToPersistentSubscriptionOptions};
use eventstore_core::persistent::{
    ack_frame, appeared_event, convert_settings, delete_persistent_subscription_request, nack_frame,
    persistent_options_frame, persistent_session_step, ps_to_deprecated_revision_value, SessionInput,
    SessionOutput,
};
use eventstore_core::types::{
    Error, NakAction, PersistentSubscriptionSettings, Position, StreamPosition, SubEvent, SubscriptionFilter,
    SystemConsumerStrategy, Uuid,
};
use eventstore_core::wire::{
    AllOption, FilterOption, PersistentReadContent, PersistentReadEvent, PersistentReadReq, PersistentReadResp,
    RevisionOption, SubscriptionStreamOption, SubscriptionTarget, UuidOption, UuidValue, WireRecordedEvent, WireUuid,
};

fn settings<A>(start_from: StreamPosition<A>) -> PersistentSubscriptionSettings<A> {
    PersistentSubscriptionSettings {
        resolve_link_tos: true,
        extra_statistics: false,
        message_timeout_ms: 30_000,
        max_retry_count: 10,
        checkpoint_after_ms: 2_000,
        checkpoint_lower_bound: 10,
        checkpoint_upper_bound: 1_000,
        max_subscriber_count: 0,
        live_buffer_size: 500,
        read_batch_size: 20,
        history_buffer_size: 500,
        start_from,
        consumer_strategy_name: SystemConsumerStrategy::Pinned,
    }
}

#[test]
fn legacy_revision_values() {
    assert_eq!(ps_to_deprecated_revision_value::<u64>(StreamPosition::Start), 0);
    assert_eq!(ps_to_deprecated_revision_value::<u64>(StreamPosition::End), u64::MAX);
    assert_eq!(ps_to_deprecated_revision_value(StreamPosition::Position(5u64)), 5);
    assert_eq!(ps_to_deprecated_revision_value(StreamPosition::Position(Position { commit: 9, prepare: 9 })), 0);
}

#[test]
fn settings_to_wire() {
    let w = convert_settings(settings(StreamPosition::Position(42u64)));
    assert_eq!(w.revision, 42);
    assert_eq!(w.message_timeout_ms, 30_000);
    assert_eq!(w.checkpoint_after_ms, 2_000);
    assert_eq!(w.min_checkpoint_count, 10);
    assert_eq!(w.max_checkpoint_count, 1_000);
    assert_eq!(w.named_consumer_strategy, 2);
    assert!(w.resolve_links);
    let mut s = settings(StreamPosition::End);
    s.consumer_strategy_name = SystemConsumerStrategy::RoundRobin;
    s.message_timeout_ms = (1u64 << 32) + 5;
    let w = convert_settings::<Position>(s);
    assert_eq!(w.revision, u64::MAX);
    assert_eq!(w.named_consumer_strategy, 1);
    assert_eq!(w.message_timeout_ms, 5);
}

#[test]
fn scenario_create_on_stream_from_end() {
    let o = PersistentSubscriptionOptions { setts: settings(StreamPosition::End), credentials: None };
    let r = o.create_request("s-4", "g");
    assert_eq!(r.stream_option, SubscriptionStreamOption::Stream { stream_identifier: stream_identifier("s-4"), revision_option: RevisionOption::End });
    assert_eq!(r.group_name, "g");
    assert_eq!(r.settings.revision, u64::MAX);
    let u = o.update_request("s-4", "g");
    assert_eq!(u.stream_option, r.stream_option);
}

#[test]
fn create_on_all_carries_filter_update_does_not() {
    let f = SubscriptionFilter { based_on_stream: true, prefixes: vec!["a".to_string()], regex: None, max: None };
    let o = PersistentSubscriptionToAllOptions { setts: settings(StreamPosition::Position(Position { commit: 3, prepare: 2 })), filter: Some(f), credentials: None };
    let c = o.create_request("$all", "g");
    match c.stream_option {
        SubscriptionStreamOption::All { filter_option: Some(FilterOption::Filter(_)), all_option } => {
            assert_eq!(all_option, AllOption::Position(Position { commit: 3, prepare: 2 }))
        }
        other => panic!("unexpected option {:?}", other),
    }
    assert_eq!(c.settings.revision, 0);
    let u = o.update_request("$all", "g");
    assert_eq!(u.stream_option, SubscriptionStreamOption::All { filter_option: None, all_option: AllOption::Position(Position { commit: 3, prepare: 2 }) });
}

#[test]
fn delete_request_targets() {
    let r = delete_persistent_subscription_request("s", "g", false);
    assert_eq!(r.stream_option, SubscriptionTarget::Stream(stream_identifier("s")));
    let r = delete_persistent_subscription_request("s", "g", true);
    assert_eq!(r.stream_option, SubscriptionTarget::All);
    assert_eq!(r.group_name, "g");
}

#[test]
fn session_options_frame() {
    let o = SubscribeToPersistentSubscriptionOptions { buffer_size: 10, credentials: None };
    let f = persistent_options_frame("s-4", "g", &o, false);
    assert_eq!(
        f,
        PersistentReadReq::Options { stream_option: SubscriptionTarget::Stream(stream_identifier("s-4")), group_name: "g".to_string(), buffer_size: 10, uuid_option: UuidOption::String }
    );
}

#[test]
fn ack_ids_keep_their_order() {
    let ids = vec![Uuid { value: 3 }, Uuid { value: 1 }, Uuid { value: 2 }];
    match ack_frame(&ids) {
        PersistentReadReq::Ack { id, ids: w } => {
            assert!(id.is_empty());
            assert_eq!(w, ids.iter().map(|u| to_proto_uuid(*u)).collect::<Vec<_>>());
        }
        other => panic!("unexpected frame {:?}", other),
    }
}

#[test]
fn nack_codes_and_reason() {
    let ids = vec![Uuid { value: 7 }];
    let expect = [(NakAction::Unknown, 0), (NakAction::Park, 1), (NakAction::Retry, 2), (NakAction::Skip, 3), (NakAction::Stop, 4)];
    for (a, code) in expect {
        match nack_frame(&ids, a, "bad") {
            PersistentReadReq::Nack { id, ids: w, action, reason } => {
                assert!(id.is_empty());
                assert_eq!(w.len(), 1);
                assert_eq!(action, code);
                assert_eq!(reason, "bad");
            }
            other => panic!("unexpected frame {:?}", other),
        }
    }
}

#[test]
fn scenario_session_event_then_drop() {
    let w = WireRecordedEvent {
        id: Some(WireUuid { value: Some(UuidValue::String("00000000-0000-0000-0000-000000000001".to_string())) }),
        stream_identifier: Some(stream_identifier("s-4")),
        stream_revision: 0,
        prepare_position: 0,
        commit_position: 0,
        metadata: vec![],
        custom_metadata: vec![],
        data: b"E1".to_vec(),
    };
    let frame = PersistentReadResp {
        content: Some(PersistentReadContent::Event(PersistentReadEvent { event: Some(w), link: None, position: None, count: None })),
    };
    let e = match persistent_session_step(SessionInput::Frame(frame)) {
        SessionOutput::Yield(item) => appeared_event(item).unwrap(),
        other => panic!("unexpected output {:?}", other),
    };
    let id = e.event.get_original_event().unwrap().id;
    assert_eq!(id, Uuid { value: 1 });
    match ack_frame(&vec![id]) {
        PersistentReadReq::Ack { ids, .. } => assert_eq!(ids, vec![WireUuid { value: Some(UuidValue::String("00000000-0000-0000-0000-000000000001".to_string())) }]),
        other => panic!("unexpected frame {:?}", other),
    }
    let dropped = SessionInput::Failed { code: 1, message: "gone".to_string(), exception: Some("persistent-subscription-dropped".to_string()) };
    assert!(matches!(persistent_session_step(dropped), SessionOutput::Close));
}

#[test]
fn session_confirmation_end_and_errors() {
    let c = PersistentReadResp { content: Some(PersistentReadContent::SubscriptionConfirmation { subscription_id: "id".to_string() }) };
    assert!(matches!(persistent_session_step(SessionInput::Frame(c)), SessionOutput::Yield(SubEvent::Confirmed(ref s)) if s == "id"));
    assert!(matches!(persistent_session_step(SessionInput::End), SessionOutput::Close));
    let other = SessionInput::Failed { code: 14, message: "unavailable".to_string(), exception: Some("other".to_string()) };
    assert!(matches!(persistent_session_step(other), SessionOutput::Fail(Error::Grpc { code: 14, .. })));
    let denied = SessionInput::Failed { code: 7, message: "no".to_string(), exception: None };
    assert!(matches!(persistent_session_step(denied), SessionOutput::Fail(Error::AccessDenied)));
    assert!(matches!(persistent_session_step(SessionInput::Frame(PersistentReadResp { content: None })), SessionOutput::Fail(Error::Internal)));
}

#[test]
fn only_appeared_events_are_events() {
    assert_eq!(appeared_event::<u8>(SubEvent::CaughtUp), None);
    assert_eq!(appeared_event(SubEvent::EventAppeared(3u8)), Some(3));
}

#[test]
fn acks_in_submission_order_across_frames() {
    let submitted = vec![vec![Uuid { value: 5 }, Uuid { value: 2 }], vec![Uuid { value: 9 }]];
    let mut observed = vec![];
    for ids in &submitted {
        match ack_frame(ids) {
            PersistentReadReq::Ack { ids, .. } => observed.extend(ids),
            other => panic!("unexpected frame {:?}", other),
        }
    }
    let expected: Vec<WireUuid> = submitted.concat().into_iter().map(to_proto_uuid).collect();
    assert_eq!(observed, expected);
}
