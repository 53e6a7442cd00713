//! Single-stream append: the frames of the call and the reading of its
//! response.
use vstd::prelude::*;
use vstd::utf8::*;

use crate::codec::{
    convert_event_data, lemma_id_stability, proposes, recorded_from_wire, stored_as,
};
use crate::options::AppendToStreamOptions;
use crate::text::string_bytes;
use crate::types::{
    metadata_view, CurrentRevision, RecordedEvent, Error, EventData, ExpectedRevision, Position, WriteResult,
    WrongExpectedVersion,
};
use crate::wire::{
    AppendReq, AppendResp, AppendResult, PositionOption, StreamIdentifier, WireRecordedEvent,
};

verus! {

/// A stream name as the wire carries it: its UTF-8 bytes.
pub fn stream_identifier(stream: &str) -> (r: StreamIdentifier)
    ensures
        r.stream_name@ == encode_utf8(stream@),
{
    StreamIdentifier { stream_name: string_bytes(&String::from_str(stream)) }
}

/// Whether `f` is the options frame that opens an append to `stream` with
/// the expectation `expected`.
pub open spec fn is_options_frame(f: AppendReq, stream: Seq<char>, expected: ExpectedRevision) -> bool {
    f matches AppendReq::Options { stream_identifier, expected_stream_revision }
        && stream_identifier.stream_name@ == encode_utf8(stream)
        && expected_stream_revision == expected
}

/// Whether `frames` is an append of `events` to `stream`: the options frame,
/// then one proposed message per event, in order.
pub open spec fn append_frames_of(
    frames: Seq<AppendReq>,
    stream: Seq<char>,
    expected: ExpectedRevision,
    events: Seq<EventData>,
) -> bool {
    &&& frames.len() == events.len() + 1
    &&& is_options_frame(frames[0], stream, expected)
    &&& forall|i: int|
        0 <= i < events.len() ==> (#[trigger] frames[i + 1] matches AppendReq::ProposedMessage(m)
            && proposes(events[i], m))
}

/// The frames of an append of `events` to `stream`.
pub fn append_request_frames(stream: &str, options: &AppendToStreamOptions, events: Vec<EventData>) -> (r: Vec<AppendReq>)
    ensures
        append_frames_of(r@, stream@, options.version, events@),
{
    let ghost all = events@;
    let n = events.len();
    let mut frames: Vec<AppendReq> = Vec::new();
    frames.push(
        AppendReq::Options {
            stream_identifier: stream_identifier(stream),
            expected_stream_revision: options.version,
        },
    );
    let mut rest = events;
    let mut i: usize = 0;
    while rest.len() > 0
        invariant
            i + rest@.len() == all.len(),
            all.len() == n,
            rest@ == all.subrange(i as int, all.len() as int),
            frames@.len() == i + 1,
            is_options_frame(frames@[0], stream@, options.version),
            forall|j: int|
                0 <= j < i ==> (#[trigger] frames@[j + 1] matches AppendReq::ProposedMessage(m)
                    && proposes(all[j], m)),
        decreases rest@.len(),
    {
        let e = rest.remove(0);
        assert(e == all[i as int]);
        frames.push(convert_event_data(e));
        assert(rest@ =~= all.subrange(i + 1, all.len() as int));
        i += 1;
    }
    frames
}

/// What an append response reports: the write result, the conflict, or
/// nothing where a required field is missing. A missing or empty position
/// stands for the start of the log.
pub open spec fn append_outcome(resp: AppendResp) -> Option<Result<WriteResult, WrongExpectedVersion>> {
    match resp.result {
        None => None,
        Some(AppendResult::Success { current_revision_option, position_option }) => match current_revision_option {
            None => None,
            Some(c) => Some(
                Ok(
                    WriteResult {
                        next_expected_version: match c {
                            CurrentRevision::Current(rev) => rev,
                            CurrentRevision::NoStream => 0,
                        },
                        position: match position_option {
                            Some(PositionOption::Position(p)) => p,
                            _ => Position { commit: 0, prepare: 0 },
                        },
                    },
                ),
            ),
        },
        Some(AppendResult::WrongExpectedVersion { current_revision_option, expected_revision_option }) => {
            match (current_revision_option, expected_revision_option) {
                (Some(current), Some(expected)) => Some(Err(WrongExpectedVersion { current, expected })),
                _ => None,
            }
        },
    }
}

/// Reads the response of an append. A conflict is a successful call that
/// carries it; only a broken response is an error.
pub fn decode_append_response(resp: AppendResp) -> (r: Result<Result<WriteResult, WrongExpectedVersion>, Error>)
    ensures
        match append_outcome(resp) {
            Some(o) => r == Ok::<Result<WriteResult, WrongExpectedVersion>, Error>(o),
            None => r matches Err(e) && e is Internal,
        },
{
    match resp.result {
        None => Err(Error::Internal),
        Some(AppendResult::Success { current_revision_option, position_option }) => {
            let next_expected_version = match current_revision_option {
                Some(CurrentRevision::Current(rev)) => rev,
                Some(CurrentRevision::NoStream) => 0,
                None => return Err(Error::Internal),
            };
            let position = match position_option {
                Some(PositionOption::Position(p)) => p,
                _ => Position::start(),
            };
            Ok(Ok(WriteResult { next_expected_version, position }))
        },
        Some(AppendResult::WrongExpectedVersion { current_revision_option, expected_revision_option }) => {
            match (current_revision_option, expected_revision_option) {
                (Some(current), Some(expected)) => Ok(Err(WrongExpectedVersion { current, expected })),
                _ => Err(Error::Internal),
            }
        },
    }
}

/// Append round trip: when the server stores the proposed messages of an
/// append of `events` to a fresh stream as revisions `0..n`, in the order of
/// the frames, a forward read of them yields one event per appended event,
/// in submission order, each with its payload, its metadata and its id, at
/// revision equal to its place.
pub proof fn lemma_append_round_trip(
    stream: Seq<char>,
    expected: ExpectedRevision,
    events: Seq<EventData>,
    frames: Seq<AppendReq>,
    stored: Seq<WireRecordedEvent>,
    read: Seq<RecordedEvent>,
)
    requires
        append_frames_of(frames, stream, expected, events),
        stored.len() == events.len(),
        forall|i: int|
            0 <= i < events.len() ==> (#[trigger] frames[i + 1] matches AppendReq::ProposedMessage(m)
                && stored_as(m, stored[i])),
        forall|i: int| 0 <= i < stored.len() ==> #[trigger] stored[i].stream_revision == i,
        read.len() == stored.len(),
        forall|i: int| 0 <= i < read.len() ==> recorded_from_wire(stored[i], #[trigger] read[i]),
    ensures
        read.len() == events.len(),
        forall|i: int|
            0 <= i < read.len() ==> {
                &&& (#[trigger] read[i]).data@ == events[i].payload@
                &&& metadata_view(read[i].metadata) == metadata_view(events[i].metadata)
                &&& read[i].revision == i
                &&& (events[i].id matches Some(given) ==> read[i].id == given)
            },
{
    assert forall|i: int| 0 <= i < read.len() implies {
        &&& (#[trigger] read[i]).data@ == events[i].payload@
        &&& metadata_view(read[i].metadata) == metadata_view(events[i].metadata)
        &&& read[i].revision == i
        &&& (events[i].id matches Some(given) ==> read[i].id == given)
    } by {
        let m = frames[i + 1]->ProposedMessage_0;
        assert(stored[i].stream_revision == i);
        lemma_id_stability(events[i], m, stored[i], read[i]);
    }
}

/// Optimistic concurrency: a response that reports a failed expectation is
/// read as that conflict, with the revision the stream had and the
/// expectation sent, and never as an error.
pub proof fn lemma_conflict_reported(current: CurrentRevision, expected: ExpectedRevision)
    ensures
        append_outcome(
            AppendResp {
                result: Some(
                    AppendResult::WrongExpectedVersion {
                        current_revision_option: Some(current),
                        expected_revision_option: Some(expected),
                    },
                ),
            },
        ) == Some(Err::<WriteResult, WrongExpectedVersion>(WrongExpectedVersion { current, expected })),
{
}

} // verus!
