use eventstore_core::append::stream_identifier;
use eventstore_core::options::{SubscribeToAllOptions, SubscribeToStreamOptions};
use eventstore_core::subscription::{CatchUp, CatchUpTarget, Reopen};
use eventstore_core::types::{Error, Position, RetryOptions, StreamPosition, SubEvent, SubscriptionFilter};
use eventstore_core::wire::{
    AllOption, CountOption, FilterOption, ReadContent, ReadEvent, ReadResp, RevisionOption,
    StreamOption, UuidValue, WireRecordedEvent, WireUuid,
};

fn event_frame(stream: &str, revision: u64, commit: u64) -> ReadResp {
    let w = WireRecordedEvent {
        id: Some(WireUuid { value: Some(UuidValue::Structured { most_significant_bits: 0, least_significant_bits: revision as i64 + 1 }) }),
        stream_identifier: Some(stream_identifier(stream)),
        stream_revision: revision,
        prepare_position: commit,
        commit_position: commit,
        metadata: vec![("type".to_string(), "t".to_string())],
        custom_metadata: vec![],
        data: format!("E{}", revision + 1).into_bytes(),
    };
    ReadResp { content: Some(ReadContent::Event(ReadEvent { event: Some(w), link: None, position: None })) }
}

fn stream_options(retry: Option<RetryOptions>) -> SubscribeToStreamOptions {
    SubscribeToStreamOptions { position: StreamPosition::Start, resolve_link_tos: false, retry, credentials: None }
}

fn appeared_revision(r: Result<Option<SubEvent<eventstore_core::types::ResolvedEvent>>, Error>) -> u64 {
    match r {
        Ok(Some(SubEvent::EventAppeared(e))) => e.get_original_event().unwrap().revision,
        other => panic!("unexpected item {:?}", other),
    }
}

#[test]
fn scenario_catch_up_survives_reconnect() {
    let mut sub = CatchUp::to_stream("s-3", &stream_options(Some(RetryOptions { limit: 3, delay_ms: 10 })));
    let first = sub.request();
    assert_eq!(first.stream_option, StreamOption::Stream { stream_identifier: stream_identifier("s-3"), revision_option: RevisionOption::Start });
    assert_eq!(first.count_option, CountOption::Subscription);
    let confirmed = sub.on_frame(Some(ReadResp { content: Some(ReadContent::Confirmation { subscription_id: "sub-1".to_string() }) }));
    assert!(matches!(confirmed, Ok(Some(SubEvent::Confirmed(ref id))) if id == "sub-1"));
    assert_eq!(appeared_revision(sub.on_frame(Some(event_frame("s-3", 0, 10)))), 0);
    assert_eq!(appeared_revision(sub.on_frame(Some(event_frame("s-3", 1, 11)))), 1);
    // The connection is killed: the subscription reopens after E2.
    assert!(sub.on_stream_failed());
    assert_eq!(sub.attempts, 2);
    let again = sub.request();
    assert_eq!(again.stream_option, StreamOption::Stream { stream_identifier: stream_identifier("s-3"), revision_option: RevisionOption::Revision(1) });
    assert_eq!(appeared_revision(sub.on_frame(Some(event_frame("s-3", 2, 12)))), 2);
    match &sub.target {
        CatchUpTarget::Stream { revision, .. } => assert_eq!(*revision, RevisionOption::Revision(2)),
        other => panic!("unexpected target {:?}", other),
    }
}

#[test]
fn confirmation_does_not_move_cursor() {
    let mut sub = CatchUp::to_stream("s", &stream_options(None));
    let _ = sub.on_frame(Some(ReadResp { content: Some(ReadContent::Confirmation { subscription_id: "x".to_string() }) }));
    let _ = sub.on_frame(Some(ReadResp { content: Some(ReadContent::Checkpoint { commit_position: 5, prepare_position: 5 }) }));
    assert_eq!(sub.request().stream_option, StreamOption::Stream { stream_identifier: stream_identifier("s"), revision_option: RevisionOption::Start });
}

#[test]
fn without_retry_errors_surface() {
    let mut sub = CatchUp::to_stream("s", &stream_options(None));
    assert_eq!((sub.limit, sub.retry_enabled), (1, false));
    assert_eq!(sub.on_open_failed(), Reopen::GiveUp);
    assert!(!sub.on_stream_failed());
}

#[test]
fn open_retries_up_to_limit() {
    let mut sub = CatchUp::to_stream("s", &stream_options(Some(RetryOptions { limit: 3, delay_ms: 250 })));
    assert_eq!(sub.on_open_failed(), Reopen::After(250));
    assert_eq!(sub.on_open_failed(), Reopen::After(250));
    assert_eq!(sub.attempts, 3);
    assert_eq!(sub.on_open_failed(), Reopen::GiveUp);
}

#[test]
fn end_of_subscription_is_internal() {
    let mut sub = CatchUp::to_stream("s", &stream_options(None));
    assert!(matches!(sub.on_frame(None), Err(Error::Internal)));
    assert!(matches!(sub.on_frame(Some(ReadResp { content: None })), Err(Error::Internal)));
}

#[test]
fn all_subscription_resumes_after_position_and_yields() {
    let f = SubscriptionFilter { based_on_stream: false, prefixes: vec!["p".to_string()], regex: None, max: Some(5) };
    let o = SubscribeToAllOptions { position: StreamPosition::End, resolve_link_tos: true, retry: None, filter: Some(f), credentials: None };
    let mut sub = CatchUp::to_all(&o);
    let r = sub.request();
    assert_eq!(r.stream_option, StreamOption::All { all_option: AllOption::End });
    assert!(matches!(r.filter_option, FilterOption::Filter(_)));
    assert!(r.resolve_links);
    assert_eq!(appeared_revision(sub.on_frame(Some(event_frame("a", 4, 77)))), 4);
    assert_eq!(sub.request().stream_option, StreamOption::All { all_option: AllOption::Position(Position { commit: 77, prepare: 77 }) });
}

#[test]
fn delivered_revisions_strictly_increase_across_reset() {
    // The server holds revisions 0..6; after a reset at any point the
    // resumed subscription delivers exactly what remains.
    for reset_after in 1..6u64 {
        let mut sub = CatchUp::to_stream("s", &stream_options(Some(RetryOptions { limit: 2, delay_ms: 0 })));
        let mut delivered = vec![];
        for rev in 0..reset_after {
            delivered.push(appeared_revision(sub.on_frame(Some(event_frame("s", rev, rev)))));
        }
        assert!(sub.on_stream_failed());
        let from = match sub.request().stream_option {
            StreamOption::Stream { revision_option: RevisionOption::Revision(r), .. } => r,
            other => panic!("unexpected option {:?}", other),
        };
        for rev in (from + 1)..6 {
            delivered.push(appeared_revision(sub.on_frame(Some(event_frame("s", rev, rev)))));
        }
        assert_eq!(delivered, (0..6).collect::<Vec<u64>>());
    }
}
