//! Batch append: many appends multiplexed on one long-lived session and
//! told apart by correlation id.
use vstd::prelude::*;
use vstd::utf8::*;

use crate::append::stream_identifier;
use crate::codec::{
    convert_event_data_to_batch_proposed_message, is_text_uuid, proposes, raw_uuid_to_uuid,
    to_proto_uuid, wire_uuid_value,
};
use crate::ids::new_v4;
use crate::text::utf8_string;
use crate::types::{CurrentRevision, Error, EventData, ExpectedRevision, Position, Uuid};
use crate::wire::{BatchAppendReq, BatchAppendResp, BatchResult, PositionOption, ProposedMessage};

verus! {

/// What the server reports of one successful submission.
#[derive(Clone, Debug)]
pub struct BatchWriteResult {
    pub stream_name: String,
    pub current_revision: Option<u64>,
    pub position: Option<Position>,
    pub expected_version: Option<ExpectedRevision>,
}

/// A response of the session, tagged with its submission's correlation id.
#[derive(Debug)]
pub struct Out {
    pub correlation_id: Uuid,
    pub result: Result<BatchWriteResult, Error>,
}

/// Whether `r` is the frame of a submission of `events` to `stream` under
/// the correlation id `id`.
pub open spec fn batch_request_of(
    r: BatchAppendReq,
    id: Uuid,
    stream: Seq<char>,
    expected: ExpectedRevision,
    events: Seq<EventData>,
) -> bool {
    &&& is_text_uuid(r.correlation_id, id.value)
    &&& r.stream_identifier.stream_name@ == encode_utf8(stream)
    &&& r.expected_stream_position == expected
    &&& r.proposed_messages@.len() == events.len()
    &&& forall|i: int| 0 <= i < events.len() ==> proposes(events[i], #[trigger] r.proposed_messages@[i])
    &&& r.is_final
}

/// The frame of one submission: all its events in one final message.
pub fn batch_request(id: Uuid, stream_name: &str, expected_revision: ExpectedRevision, events: Vec<EventData>) -> (r: BatchAppendReq)
    ensures
        batch_request_of(r, id, stream_name@, expected_revision, events@),
{
    let ghost all = events@;
    let n = events.len();
    let mut proposed_messages: Vec<ProposedMessage> = Vec::new();
    let mut rest = events;
    let mut i: usize = 0;
    while rest.len() > 0
        invariant
            i + rest@.len() == all.len(),
            all.len() == n,
            rest@ == all.subrange(i as int, all.len() as int),
            proposed_messages@.len() == i,
            forall|j: int| 0 <= j < i ==> proposes(all[j], #[trigger] proposed_messages@[j]),
        decreases rest@.len(),
    {
        let e = rest.remove(0);
        assert(e == all[i as int]);
        proposed_messages.push(convert_event_data_to_batch_proposed_message(e));
        assert(rest@ =~= all.subrange(i + 1, all.len() as int));
        i += 1;
    }
    BatchAppendReq {
        correlation_id: to_proto_uuid(id),
        stream_identifier: stream_identifier(stream_name),
        expected_stream_position: expected_revision,
        proposed_messages,
        is_final: true,
    }
}

/// Whether a batch response can be read: it names a stream in UTF-8,
/// carries a valid correlation id and a result.
pub open spec fn batch_response_ok(resp: BatchAppendResp) -> bool {
    &&& resp.stream_identifier matches Some(si) && valid_utf8(si.stream_name@)
    &&& resp.correlation_id matches Some(c) && wire_uuid_value(c) is Some
    &&& resp.result is Some
}

/// Whether `o` is the reading of the batch response `resp`.
pub open spec fn out_of(resp: BatchAppendResp, o: Out) -> bool {
    &&& Some(o.correlation_id.value) == wire_uuid_value(resp.correlation_id->Some_0)
    &&& match resp.result->Some_0 {
        BatchResult::Success { current_revision_option, position_option } => o.result matches Ok(w)
            && w.stream_name@ == decode_utf8(resp.stream_identifier->Some_0.stream_name@)
            && w.current_revision == match current_revision_option {
            Some(CurrentRevision::Current(rev)) => Some(rev),
            _ => None,
        } && w.position == match position_option {
            Some(PositionOption::Position(p)) => Some(p),
            _ => None,
        } && w.expected_version == resp.expected_stream_position,
        BatchResult::Error { code, message } => o.result == Err::<BatchWriteResult, Error>(
            Error::Grpc { code, message },
        ),
    }
}

/// Reads a response of the batch-append session.
pub fn decode_batch_response(resp: BatchAppendResp) -> (r: Result<Out, Error>)
    ensures
        r is Ok <==> batch_response_ok(resp),
        r matches Ok(o) ==> out_of(resp, o),
        r matches Err(e) ==> e is Internal,
{
    let stream_name = match resp.stream_identifier {
        Some(si) => match utf8_string(si.stream_name) {
            Some(s) => s,
            None => return Err(Error::Internal),
        },
        None => return Err(Error::Internal),
    };
    let correlation_id = match resp.correlation_id {
        Some(c) => match raw_uuid_to_uuid(c) {
            Ok(id) => id,
            Err(e) => return Err(e),
        },
        None => return Err(Error::Internal),
    };
    let result = match resp.result {
        Some(BatchResult::Success { current_revision_option, position_option }) => {
            let current_revision = match current_revision_option {
                Some(CurrentRevision::Current(rev)) => Some(rev),
                _ => None,
            };
            let position = match position_option {
                Some(PositionOption::Position(p)) => Some(p),
                _ => None,
            };
            Ok(BatchWriteResult { stream_name, current_revision, position, expected_version: resp.expected_stream_position })
        },
        Some(BatchResult::Error { code, message }) => Err(Error::Grpc { code, message }),
        None => return Err(Error::Internal),
    };
    Ok(Out { correlation_id, result })
}

/// The correlation ids among `v`.
pub open spec fn id_set(v: Seq<Uuid>) -> Set<u128> {
    Set::new(|x: u128| exists|i: int| 0 <= i < v.len() && v[i].value == x)
}

proof fn lemma_id_set_push(v: Seq<Uuid>, u: Uuid)
    ensures
        id_set(v.push(u)) == id_set(v).insert(u.value),
{
    let w = v.push(u);
    assert forall|x: u128| id_set(w).contains(x) <==> id_set(v).insert(u.value).contains(x) by {
        if id_set(w).contains(x) {
            let j = choose|j: int| 0 <= j < w.len() && w[j].value == x;
            if j < v.len() {
                assert(v[j] == w[j]);
            }
        }
        if id_set(v).contains(x) {
            let j = choose|j: int| 0 <= j < v.len() && v[j].value == x;
            assert(w[j] == v[j]);
        }
        if x == u.value {
            assert(w[v.len() as int] == u);
        }
    }
    assert(id_set(w) =~= id_set(v).insert(u.value));
}

/// A copy of an error.
pub fn clone_error(e: &Error) -> (r: Error)
    ensures
        r == *e,
{
    match e {
        Error::Grpc { code, message } => Error::Grpc { code: *code, message: message.clone() },
        Error::ResourceNotFound => Error::ResourceNotFound,
        Error::WrongExpectedVersion { current, expected } => Error::WrongExpectedVersion {
            current: *current,
            expected: *expected,
        },
        Error::AccessDenied => Error::AccessDenied,
        Error::Internal => Error::Internal,
    }
}

/// The client side of a batch-append session: the submissions waiting for
/// their response, and the transport error that closed the session, if one
/// did.
#[derive(Debug)]
pub struct BatchSession {
    pub pending: Vec<Uuid>,
    pub failure: Option<Error>,
}

impl BatchSession {
    /// An open session with nothing submitted.
    pub fn new() -> (r: BatchSession)
        ensures
            r.pending@.len() == 0,
            r.failure is None,
    {
        BatchSession { pending: Vec::new(), failure: None }
    }

    /// Submits `events` for `stream_name` under a fresh correlation id, which
    /// then waits for its response. A closed session refuses at once with
    /// the error that closed it.
    pub fn submit(&mut self, stream_name: &str, expected_revision: ExpectedRevision, events: Vec<EventData>) -> (r: Result<(Uuid, BatchAppendReq), Error>)
        ensures
            old(self).failure matches Some(e) ==> (r == Err::<(Uuid, BatchAppendReq), Error>(e)
                && final(self).pending@ == old(self).pending@),
            old(self).failure is None ==> (r matches Ok((id, req))
                && batch_request_of(req, id, stream_name@, expected_revision, events@)
                && final(self).pending@ == old(self).pending@.push(id)),
            final(self).failure == old(self).failure,
    {
        if let Some(e) = &self.failure {
            return Err(clone_error(e));
        }
        let id = new_v4();
        self.pending.push(id);
        Ok((id, batch_request(id, stream_name, expected_revision, events)))
    }

    /// Takes a response: one for a waiting submission is handed out, and that
    /// submission waits no more; one with an unknown id is dropped.
    pub fn on_response(&mut self, out: Out) -> (r: Option<Out>)
        ensures
            r is Some <==> id_set(old(self).pending@).contains(out.correlation_id.value),
            r matches Some(o) ==> o == out,
            id_set(final(self).pending@) == id_set(old(self).pending@).remove(out.correlation_id.value),
            final(self).failure == old(self).failure,
    {
        let id = out.correlation_id.value;
        let ghost old_pending = self.pending@;
        let mut kept: Vec<Uuid> = Vec::new();
        let mut found = false;
        let mut i: usize = 0;
        assert(old_pending.take(0) =~= Seq::<Uuid>::empty());
        assert(id_set(Seq::<Uuid>::empty()) =~= Set::<u128>::empty());
        while i < self.pending.len()
            invariant
                0 <= i <= old_pending.len(),
                self.pending@ == old_pending,
                found <==> id_set(old_pending.take(i as int)).contains(id),
                id_set(kept@) == id_set(old_pending.take(i as int)).remove(id),
            decreases old_pending.len() - i,
        {
            let u = self.pending[i];
            assert(old_pending.take(i + 1) =~= old_pending.take(i as int).push(u));
            proof {
                lemma_id_set_push(old_pending.take(i as int), u);
            }
            if u.value == id {
                found = true;
                assert(id_set(kept@) =~= id_set(old_pending.take(i + 1)).remove(id));
            } else {
                let ghost before = kept@;
                kept.push(u);
                proof {
                    lemma_id_set_push(before, u);
                }
                assert(id_set(kept@) =~= id_set(old_pending.take(i + 1)).remove(id));
            }
            i += 1;
        }
        assert(old_pending.take(i as int) =~= old_pending);
        self.pending = kept;
        assert(id_set(self.pending@) =~= id_set(old_pending).remove(id));
        if found {
            Some(out)
        } else {
            None
        }
    }

    /// Takes a transport error of the session: the first closes the session
    /// and is handed out once; later ones are dropped.
    pub fn on_error(&mut self, e: Error) -> (r: Option<Error>)
        ensures
            old(self).failure is None ==> r == Some(e) && final(self).failure == Some(e),
            old(self).failure is Some ==> r is None && final(self).failure == old(self).failure,
            final(self).pending == old(self).pending,
    {
        if self.failure.is_some() {
            None
        } else {
            self.failure = Some(clone_error(&e));
            Some(e)
        }
    }
}

/// The correlation ids that a session hands out, from the ids `pending`
/// waiting, when responses with the ids `responses` arrive in that order.
pub open spec fn demux(pending: Set<u128>, responses: Seq<u128>) -> Seq<u128>
    decreases responses.len(),
{
    if responses.len() == 0 {
        Seq::empty()
    } else if pending.contains(responses[0]) {
        seq![responses[0]] + demux(pending.remove(responses[0]), responses.drop_first())
    } else {
        demux(pending, responses.drop_first())
    }
}

/// Batch correlation: of any run of responses, the session hands out only
/// ones tagged with the id of a submission, at most one per submission;
/// where the server answers each submission once, every response is
/// handed out.
pub proof fn lemma_batch_correlation(pending: Set<u128>, responses: Seq<u128>)
    ensures
        demux(pending, responses).no_duplicates(),
        forall|i: int| 0 <= i < demux(pending, responses).len() ==> pending.contains(#[trigger] demux(pending, responses)[i]),
        (responses.no_duplicates() && forall|i: int| 0 <= i < responses.len() ==> pending.contains(#[trigger] responses[i]))
            ==> demux(pending, responses) == responses,
    decreases responses.len(),
{
    if responses.len() > 0 {
        let x = responses[0];
        let rest = responses.drop_first();
        if pending.contains(x) {
            let p = pending.remove(x);
            lemma_batch_correlation(p, rest);
            let d = demux(p, rest);
            let full = seq![x] + d;
            assert forall|i: int| 0 <= i < full.len() implies pending.contains(#[trigger] full[i]) by {
                if i > 0 {
                    assert(full[i] == d[i - 1]);
                }
            }
            assert forall|i: int, j: int| 0 <= i < j < full.len() implies full[i] != full[j] by {
                assert(full[j] == d[j - 1]);
                assert(p.contains(d[j - 1]));
                if i > 0 {
                    assert(full[i] == d[i - 1]);
                }
            }
            if responses.no_duplicates() && forall|i: int| 0 <= i < responses.len() ==> pending.contains(#[trigger] responses[i]) {
                assert forall|i: int| 0 <= i < rest.len() implies p.contains(#[trigger] rest[i]) by {
                    assert(rest[i] == responses[i + 1]);
                    assert(pending.contains(responses[i + 1]));
                    assert(responses[0] != responses[i + 1]);
                }
                assert(rest.no_duplicates()) by {
                    assert forall|i: int, j: int| 0 <= i < j < rest.len() implies rest[i] != rest[j] by {
                        assert(rest[i] == responses[i + 1]);
                        assert(rest[j] == responses[j + 1]);
                    }
                }
                assert(full =~= responses);
            }
        } else {
            lemma_batch_correlation(pending, rest);
            assert(!(responses.no_duplicates() && forall|i: int| 0 <= i < responses.len() ==> pending.contains(#[trigger] responses[i]))) by {
                if forall|i: int| 0 <= i < responses.len() ==> pending.contains(#[trigger] responses[i]) {
                    assert(pending.contains(responses[0]));
                }
            }
        }
    }
}

} // verus!
