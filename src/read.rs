//! One-shot reads, deletes and tombstones.
use vstd::prelude::*;
use vstd::utf8::*;

use crate::append::stream_identifier;
use crate::codec::{convert_proto_read_event, read_event_ok, resolved_from_wire};
use crate::options::{DeleteStreamOptions, ReadAllOptions, ReadStreamOptions, TombstoneStreamOptions};
use crate::types::{Error, Position, ReadDirection, ResolvedEvent, StreamPosition};
use crate::wire::{
    AllOption, CountOption, DeleteReq, DeleteResp, FilterOption, PositionOption, ReadContent,
    ReadReq, ReadResp, RevisionOption, StreamOption, UuidOption,
};

verus! {

/// The wire code of a read direction.
pub open spec fn direction_code(d: ReadDirection) -> i32 {
    match d {
        ReadDirection::Forward => 0,
        ReadDirection::Backward => 1,
    }
}

/// Where on the wire a read of one stream starts.
pub open spec fn revision_option_of(p: StreamPosition<u64>) -> RevisionOption {
    match p {
        StreamPosition::Start => RevisionOption::Start,
        StreamPosition::End => RevisionOption::End,
        StreamPosition::Position(r) => RevisionOption::Revision(r),
    }
}

/// Where on the wire a read of the global log starts.
pub open spec fn all_option_of(p: StreamPosition<Position>) -> AllOption {
    match p {
        StreamPosition::Start => AllOption::Start,
        StreamPosition::End => AllOption::End,
        StreamPosition::Position(pos) => AllOption::Position(pos),
    }
}

pub(crate) fn direction_to_code(d: ReadDirection) -> (r: i32)
    ensures
        r == direction_code(d),
{
    match d {
        ReadDirection::Forward => 0,
        ReadDirection::Backward => 1,
    }
}

pub(crate) fn revision_option(p: StreamPosition<u64>) -> (r: RevisionOption)
    ensures
        r == revision_option_of(p),
{
    match p {
        StreamPosition::Start => RevisionOption::Start,
        StreamPosition::End => RevisionOption::End,
        StreamPosition::Position(rev) => RevisionOption::Revision(rev),
    }
}

pub(crate) fn all_option(p: StreamPosition<Position>) -> (r: AllOption)
    ensures
        r == all_option_of(p),
{
    match p {
        StreamPosition::Start => AllOption::Start,
        StreamPosition::End => AllOption::End,
        StreamPosition::Position(pos) => AllOption::Position(pos),
    }
}

/// The request of a one-shot read of `count` events of `stream`.
pub fn read_stream_request(options: &ReadStreamOptions, stream: &str, count: u64) -> (r: ReadReq)
    ensures
        r.stream_option matches StreamOption::Stream { stream_identifier, revision_option }
            && stream_identifier.stream_name@ == encode_utf8(stream@)
            && revision_option == revision_option_of(options.position),
        r.resolve_links == options.resolve_link_tos,
        r.filter_option is NoFilter,
        r.count_option == CountOption::Count(count),
        r.uuid_option == UuidOption::String,
        r.read_direction == direction_code(options.direction),
{
    ReadReq {
        stream_option: StreamOption::Stream {
            stream_identifier: stream_identifier(stream),
            revision_option: revision_option(options.position),
        },
        resolve_links: options.resolve_link_tos,
        filter_option: FilterOption::NoFilter,
        count_option: CountOption::Count(count),
        uuid_option: UuidOption::String,
        read_direction: direction_to_code(options.direction),
    }
}

/// The request of a one-shot read of `count` events of the global log.
pub fn read_all_request(options: &ReadAllOptions, count: u64) -> (r: ReadReq)
    ensures
        r.stream_option == (StreamOption::All { all_option: all_option_of(options.position) }),
        r.resolve_links == options.resolve_link_tos,
        r.filter_option is NoFilter,
        r.count_option == CountOption::Count(count),
        r.uuid_option == UuidOption::String,
        r.read_direction == direction_code(options.direction),
{
    ReadReq {
        stream_option: StreamOption::All { all_option: all_option(options.position) },
        resolve_links: options.resolve_link_tos,
        filter_option: FilterOption::NoFilter,
        count_option: CountOption::Count(count),
        uuid_option: UuidOption::String,
        read_direction: direction_to_code(options.direction),
    }
}

/// What one frame of a read means to its reader.
#[derive(Clone, Debug)]
pub enum ReadStep {
    /// An event to hand out.
    Event(ResolvedEvent),
    /// A frame with nothing for the reader, such as a checkpoint.
    Skip,
    /// The read is over.
    End,
}

/// Reads the next frame of a one-shot read; `None` is the end of the
/// response. A missing stream ends the read with `ResourceNotFound`.
pub fn read_step(frame: Option<ReadResp>) -> (r: Result<ReadStep, Error>)
    ensures
        match frame {
            None => r matches Ok(ReadStep::End),
            Some(resp) => match resp.content {
                None => r matches Err(e) && e is Internal,
                Some(ReadContent::StreamNotFound { .. }) => r matches Err(e) && e is ResourceNotFound,
                Some(ReadContent::Event(ev)) => if read_event_ok(ev) {
                    r matches Ok(ReadStep::Event(res)) && resolved_from_wire(ev, res)
                } else {
                    r matches Err(e) && e is Internal
                },
                Some(_) => r matches Ok(ReadStep::Skip),
            },
        },
{
    match frame {
        None => Ok(ReadStep::End),
        Some(resp) => match resp.content {
            None => Err(Error::Internal),
            Some(ReadContent::StreamNotFound { .. }) => Err(Error::ResourceNotFound),
            Some(ReadContent::Event(ev)) => match convert_proto_read_event(ev) {
                Ok(res) => Ok(ReadStep::Event(res)),
                Err(e) => Err(e),
            },
            Some(_) => Ok(ReadStep::Skip),
        },
    }
}

/// The request of a delete or a tombstone of `stream`.
fn delete_request(stream: &str, version: crate::types::ExpectedRevision) -> (r: DeleteReq)
    ensures
        r.stream_identifier.stream_name@ == encode_utf8(stream@),
        r.expected_stream_revision == version,
{
    DeleteReq { stream_identifier: stream_identifier(stream), expected_stream_revision: version }
}

/// The request of a (soft) delete of `stream`.
pub fn delete_stream_request(stream: &str, options: &DeleteStreamOptions) -> (r: DeleteReq)
    ensures
        r.stream_identifier.stream_name@ == encode_utf8(stream@),
        r.expected_stream_revision == options.version,
{
    delete_request(stream, options.version)
}

/// The request of a tombstone (hard delete) of `stream`.
pub fn tombstone_stream_request(stream: &str, options: &TombstoneStreamOptions) -> (r: DeleteReq)
    ensures
        r.stream_identifier.stream_name@ == encode_utf8(stream@),
        r.expected_stream_revision == options.version,
{
    delete_request(stream, options.version)
}

/// The log position that a delete or tombstone response reports, if any.
pub fn decode_delete_response(resp: DeleteResp) -> (r: Option<Position>)
    ensures
        r == match resp.position_option {
            Some(PositionOption::Position(p)) => Some(p),
            _ => None,
        },
{
    match resp.position_option {
        Some(PositionOption::Position(p)) => Some(p),
        _ => None,
    }
}

} // verus!
