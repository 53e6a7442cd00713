//! Catch-up subscriptions: the request, the resume cursor, and the retry
//! decisions around a streaming read that may fail and be reopened.
use vstd::prelude::*;
use vstd::utf8::*;

use crate::append::stream_identifier;
use crate::codec::{clone_filter, same_filter, encode_filter, filter_encodes, read_event_ok, resolved_from_wire, convert_proto_read_event};
use crate::options::{SubscribeToAllOptions, SubscribeToStreamOptions};
use crate::read::{all_option, all_option_of, revision_option, revision_option_of};
use crate::types::{
    original_event, position_lt, Error, Position, RecordedEvent, ResolvedEvent, SubEvent,
    SubscriptionFilter,
};
use crate::wire::{
    AllOption, CountOption, FilterOption, ReadContent, ReadReq, ReadResp, RevisionOption,
    StreamIdentifier, StreamOption, UuidOption,
};

verus! {

/// What a catch-up subscription reads, with the point it resumes from.
#[derive(Clone, Debug)]
pub enum CatchUpTarget {
    Stream { stream_name: Vec<u8>, revision: RevisionOption },
    All { position: AllOption, filter: Option<SubscriptionFilter> },
}

/// The state of a catch-up subscription between reads.
#[derive(Clone, Debug)]
pub struct CatchUp {
    pub target: CatchUpTarget,
    pub resolve_links: bool,
    /// The number of the current attempt to open the read, from 1.
    pub attempts: u64,
    /// The number of attempts allowed; 1 where retrying is off.
    pub limit: u64,
    pub delay_ms: u64,
    pub retry_enabled: bool,
}

/// What a subscription does after its read failed to open.
#[derive(Clone, Copy, Debug, PartialEq, Eq)]
pub enum Reopen {
    /// Wait this many milliseconds, then open the read again.
    After(u64),
    /// Hand the error to the caller and stop.
    GiveUp,
}

/// Whether two states agree on everything but the target.
pub open spec fn same_settings(a: CatchUp, b: CatchUp) -> bool {
    &&& a.resolve_links == b.resolve_links
    &&& a.attempts == b.attempts
    &&& a.limit == b.limit
    &&& a.delay_ms == b.delay_ms
    &&& a.retry_enabled == b.retry_enabled
}

/// Whether `new` is `old` with its resume point moved to the event `o`: its
/// revision for a stream, its log position for the global log.
pub open spec fn advanced(old: CatchUpTarget, new: CatchUpTarget, o: RecordedEvent) -> bool {
    match old {
        CatchUpTarget::Stream { stream_name, .. } => new == (CatchUpTarget::Stream {
            stream_name,
            revision: RevisionOption::Revision(o.revision),
        }),
        CatchUpTarget::All { filter, .. } => new == (CatchUpTarget::All {
            position: AllOption::Position(o.position),
            filter,
        }),
    }
}

/// Whether `r` is the read request of the state `s`: forward, unbounded,
/// UUIDs as text, from the resume point.
pub open spec fn request_of(s: CatchUp, r: ReadReq) -> bool {
    &&& r.resolve_links == s.resolve_links
    &&& r.count_option == CountOption::Subscription
    &&& r.uuid_option == UuidOption::String
    &&& r.read_direction == 0
    &&& match s.target {
        CatchUpTarget::Stream { stream_name, revision } => {
            &&& r.stream_option matches StreamOption::Stream { stream_identifier, revision_option }
                && stream_identifier.stream_name@ == stream_name@ && revision_option == revision
            &&& r.filter_option is NoFilter
        },
        CatchUpTarget::All { position, filter } => {
            &&& r.stream_option == (StreamOption::All { all_option: position })
            &&& match filter {
                Some(f) => r.filter_option matches FilterOption::Filter(o) && filter_encodes(f, o),
                None => r.filter_option is NoFilter,
            }
        },
    }
}

/// The attempt limit, delay and retry flag of optional retry settings.
fn retry_settings(retry: Option<crate::types::RetryOptions>) -> (r: (u64, u64, bool))
    ensures
        r == match retry {
            Some(o) => (o.limit, o.delay_ms, true),
            None => (1u64, 0u64, false),
        },
{
    match retry {
        Some(o) => (o.limit, o.delay_ms, true),
        None => (1, 0, false),
    }
}

impl CatchUp {
    /// A subscription to `stream_id`, before its first attempt.
    pub fn to_stream(stream_id: &str, options: &SubscribeToStreamOptions) -> (r: CatchUp)
        ensures
            r.target matches CatchUpTarget::Stream { stream_name, revision }
                && stream_name@ == encode_utf8(stream_id@)
                && revision == revision_option_of(options.position),
            r.resolve_links == options.resolve_link_tos,
            r.attempts == 1,
            (r.limit, r.delay_ms, r.retry_enabled) == match options.retry {
                Some(o) => (o.limit, o.delay_ms, true),
                None => (1u64, 0u64, false),
            },
    {
        let (limit, delay_ms, retry_enabled) = retry_settings(options.retry);
        let id = stream_identifier(stream_id);
        CatchUp {
            target: CatchUpTarget::Stream {
                stream_name: id.stream_name,
                revision: revision_option(options.position),
            },
            resolve_links: options.resolve_link_tos,
            attempts: 1,
            limit,
            delay_ms,
            retry_enabled,
        }
    }

    /// A subscription to the global log, before its first attempt.
    pub fn to_all(options: &SubscribeToAllOptions) -> (r: CatchUp)
        ensures
            r.target matches CatchUpTarget::All { position, filter }
                && position == all_option_of(options.position)
                && (filter is Some <==> options.filter is Some)
                && (filter matches Some(f) ==> same_filter(options.filter->Some_0, f)),
            r.resolve_links == options.resolve_link_tos,
            r.attempts == 1,
            (r.limit, r.delay_ms, r.retry_enabled) == match options.retry {
                Some(o) => (o.limit, o.delay_ms, true),
                None => (1u64, 0u64, false),
            },
    {
        let (limit, delay_ms, retry_enabled) = retry_settings(options.retry);
        CatchUp {
            target: CatchUpTarget::All {
                position: all_option(options.position),
                filter: clone_filter(&options.filter),
            },
            resolve_links: options.resolve_link_tos,
            attempts: 1,
            limit,
            delay_ms,
            retry_enabled,
        }
    }

    /// The read request that opens (or reopens) the subscription from its
    /// resume point.
    pub fn request(&self) -> (r: ReadReq)
        ensures
            request_of(*self, r),
    {
        let (stream_option, filter_option) = match &self.target {
            CatchUpTarget::Stream { stream_name, revision } => {
                let name = stream_name.clone();
                assert(name@ =~= stream_name@);
                (
                    StreamOption::Stream {
                        stream_identifier: StreamIdentifier { stream_name: name },
                        revision_option: *revision,
                    },
                    FilterOption::NoFilter,
                )
            },
            CatchUpTarget::All { position, filter } => {
                let filter_option = match filter {
                    Some(f) => FilterOption::Filter(encode_filter(f)),
                    None => FilterOption::NoFilter,
                };
                (StreamOption::All { all_option: *position }, filter_option)
            },
        };
        ReadReq {
            stream_option,
            resolve_links: self.resolve_links,
            filter_option,
            count_option: CountOption::Subscription,
            uuid_option: UuidOption::String,
            read_direction: 0,
        }
    }

    /// The read failed to open: retry after the delay while attempts are
    /// left, else give up.
    pub fn on_open_failed(&mut self) -> (r: Reopen)
        ensures
            old(self).attempts < old(self).limit ==> r == Reopen::After(old(self).delay_ms)
                && final(self).attempts == old(self).attempts + 1,
            old(self).attempts >= old(self).limit ==> r == Reopen::GiveUp
                && final(self).attempts == old(self).attempts,
            final(self).target == old(self).target,
            final(self).resolve_links == old(self).resolve_links,
            final(self).limit == old(self).limit,
            final(self).delay_ms == old(self).delay_ms,
            final(self).retry_enabled == old(self).retry_enabled,
    {
        if self.attempts < self.limit {
            self.attempts = self.attempts + 1;
            Reopen::After(self.delay_ms)
        } else {
            Reopen::GiveUp
        }
    }

    /// The open read failed: reopen at once from the resume point where
    /// retrying is on (as the second attempt), else hand the error over.
    pub fn on_stream_failed(&mut self) -> (r: bool)
        ensures
            r == old(self).retry_enabled,
            final(self).attempts == if r {
                2u64
            } else {
                1u64
            },
            final(self).target == old(self).target,
            final(self).resolve_links == old(self).resolve_links,
            final(self).limit == old(self).limit,
            final(self).delay_ms == old(self).delay_ms,
            final(self).retry_enabled == old(self).retry_enabled,
    {
        self.attempts = 1;
        if self.retry_enabled {
            self.attempts = 2;
        }
        self.retry_enabled
    }

    /// Takes the next frame of the open read (`None`: the server ended it,
    /// which a subscription never does). An event moves the resume point to
    /// it and is handed out; a confirmation is handed out; other frames are
    /// passed over.
    pub fn on_frame(&mut self, frame: Option<ReadResp>) -> (r: Result<Option<SubEvent<ResolvedEvent>>, Error>)
        ensures
            same_settings(*old(self), *final(self)),
            match frame {
                Some(ReadResp { content: Some(ReadContent::Event(ev)) }) => if read_event_ok(ev) && (
                ev.event is Some || ev.link is Some) {
                    r matches Ok(Some(SubEvent::EventAppeared(res))) && resolved_from_wire(ev, res)
                        && advanced(old(self).target, final(self).target, original_event(res)->Some_0)
                } else {
                    r matches Err(e) && e is Internal && final(self).target == old(self).target
                },
                Some(ReadResp { content: Some(ReadContent::Confirmation { subscription_id }) }) => {
                    r matches Ok(Some(SubEvent::Confirmed(id))) && id == subscription_id
                        && final(self).target == old(self).target
                },
                Some(ReadResp { content: Some(_) }) => r matches Ok(None) && final(self).target == old(self).target,
                _ => r matches Err(e) && e is Internal && final(self).target == old(self).target,
            },
    {
        let resp = match frame {
            Some(resp) => resp,
            None => return Err(Error::Internal),
        };
        match resp.content {
            Some(ReadContent::Event(ev)) => {
                let res = match convert_proto_read_event(ev) {
                    Ok(res) => res,
                    Err(e) => return Err(e),
                };
                let (revision, position) = match res.get_original_event() {
                    Some(o) => (o.revision, o.position),
                    None => return Err(Error::Internal),
                };
                match &mut self.target {
                    CatchUpTarget::Stream { revision: cursor, .. } => {
                        *cursor = RevisionOption::Revision(revision);
                    },
                    CatchUpTarget::All { position: cursor, .. } => {
                        *cursor = AllOption::Position(position);
                    },
                }
                Ok(Some(SubEvent::EventAppeared(res)))
            },
            Some(ReadContent::Confirmation { subscription_id }) => Ok(Some(SubEvent::Confirmed(subscription_id))),
            Some(_) => Ok(None),
            None => Err(Error::Internal),
        }
    }
}

/// Revisions in strictly increasing order, as a stream holds them.
pub open spec fn revisions_increasing(log: Seq<u64>) -> bool {
    forall|i: int, j: int| 0 <= i < j < log.len() ==> log[i] < log[j]
}

/// The number of leading revisions of `log` that are at most `r`.
pub open spec fn leading_upto(log: Seq<u64>, r: u64) -> nat
    decreases log.len(),
{
    if log.len() > 0 && log[0] <= r {
        1 + leading_upto(log.drop_first(), r)
    } else {
        0
    }
}

/// The revisions that a subscription to a stream holding `log` delivers
/// from the resume point `from`: all from the start, those after a given
/// revision, none of the existing ones from the end.
pub open spec fn deliverable(log: Seq<u64>, from: RevisionOption) -> Seq<u64> {
    match from {
        RevisionOption::Start => log,
        RevisionOption::End => Seq::empty(),
        RevisionOption::Revision(r) => log.skip(leading_upto(log, r) as int),
    }
}

proof fn lemma_leading_upto_bound(log: Seq<u64>, p: u64)
    ensures
        leading_upto(log, p) <= log.len(),
    decreases log.len(),
{
    if log.len() > 0 {
        lemma_leading_upto_bound(log.drop_first(), p);
    }
}

proof fn lemma_leading_upto(log: Seq<u64>, j: int)
    requires
        revisions_increasing(log),
        0 <= j < log.len(),
    ensures
        leading_upto(log, log[j]) == j + 1,
    decreases log.len(),
{
    let rest = log.drop_first();
    assert(revisions_increasing(rest));
    if j == 0 {
        if rest.len() > 0 {
            assert(log[0] < log[1]);
            assert(rest[0] == log[1]);
        }
        assert(leading_upto(rest, log[0]) == 0);
    } else {
        assert(rest[j - 1] == log[j]);
        assert(log[0] < log[j]);
        lemma_leading_upto(rest, j - 1);
    }
}

/// Gap-freeness of a catch-up subscription to a stream: after delivering
/// the first `k` events from `from` and losing its channel, it reopens from
/// the revision of the last one (where `on_frame` moved its resume point),
/// and what the server delivers then is exactly the rest of what an
/// unbroken read would have delivered. Delivered revisions stay strictly
/// increasing, with no event lost or repeated.
pub proof fn lemma_catch_up_gap_free(log: Seq<u64>, from: RevisionOption, k: int)
    requires
        revisions_increasing(log),
        0 < k <= deliverable(log, from).len(),
    ensures
        deliverable(log, from).take(k) + deliverable(log, RevisionOption::Revision(deliverable(log, from)[k - 1]))
            == deliverable(log, from),
        revisions_increasing(deliverable(log, from)),
{
    let d = deliverable(log, from);
    let i: int = match from {
        RevisionOption::Start => 0,
        RevisionOption::End => 0,
        RevisionOption::Revision(r) => leading_upto(log, r) as int,
    };
    if let RevisionOption::Revision(r) = from {
        lemma_leading_upto_bound(log, r);
    }
    assert(!(from is End));
    assert(d =~= log.skip(i));
    assert(d[k - 1] == log[i + k - 1]);
    lemma_leading_upto(log, i + k - 1);
    assert(d.take(k) + log.skip(i + k) =~= d);
}

/// Log positions in strictly increasing order, as the global log holds them.
pub open spec fn positions_increasing(log: Seq<Position>) -> bool {
    forall|i: int, j: int| 0 <= i < j < log.len() ==> position_lt(log[i], log[j])
}

/// The number of leading positions of `log` that are not after `p`.
pub open spec fn leading_upto_position(log: Seq<Position>, p: Position) -> nat
    decreases log.len(),
{
    if log.len() > 0 && !position_lt(p, log[0]) {
        1 + leading_upto_position(log.drop_first(), p)
    } else {
        0
    }
}

/// The positions that a subscription to the global log holding `log`
/// delivers from the resume point `from`.
pub open spec fn deliverable_all(log: Seq<Position>, from: AllOption) -> Seq<Position> {
    match from {
        AllOption::Start => log,
        AllOption::End => Seq::empty(),
        AllOption::Position(p) => log.skip(leading_upto_position(log, p) as int),
    }
}

proof fn lemma_leading_upto_position_bound(log: Seq<Position>, p: Position)
    ensures
        leading_upto_position(log, p) <= log.len(),
    decreases log.len(),
{
    if log.len() > 0 {
        lemma_leading_upto_position_bound(log.drop_first(), p);
    }
}

proof fn lemma_leading_upto_position(log: Seq<Position>, j: int)
    requires
        positions_increasing(log),
        0 <= j < log.len(),
    ensures
        leading_upto_position(log, log[j]) == j + 1,
    decreases log.len(),
{
    let rest = log.drop_first();
    assert(positions_increasing(rest));
    if j == 0 {
        if rest.len() > 0 {
            assert(position_lt(log[0], log[1]));
            assert(rest[0] == log[1]);
        }
        assert(leading_upto_position(rest, log[0]) == 0);
    } else {
        assert(rest[j - 1] == log[j]);
        assert(position_lt(log[0], log[j]));
        lemma_leading_upto_position(rest, j - 1);
    }
}

/// Gap-freeness of a catch-up subscription to the global log: reopened
/// from the position of the last delivered event, it delivers exactly the
/// rest of what an unbroken read would have delivered.
pub proof fn lemma_catch_up_all_gap_free(log: Seq<Position>, from: AllOption, k: int)
    requires
        positions_increasing(log),
        0 < k <= deliverable_all(log, from).len(),
    ensures
        deliverable_all(log, from).take(k) + deliverable_all(
            log,
            AllOption::Position(deliverable_all(log, from)[k - 1]),
        ) == deliverable_all(log, from),
        positions_increasing(deliverable_all(log, from)),
{
    let d = deliverable_all(log, from);
    let i: int = match from {
        AllOption::Start => 0,
        AllOption::End => 0,
        AllOption::Position(p) => leading_upto_position(log, p) as int,
    };
    if let AllOption::Position(p) = from {
        lemma_leading_upto_position_bound(log, p);
    }
    assert(!(from is End));
    assert(d =~= log.skip(i));
    assert(d[k - 1] == log[i + k - 1]);
    lemma_leading_upto_position(log, i + k - 1);
    assert(d.take(k) + log.skip(i + k) =~= d);
}

} // verus!
