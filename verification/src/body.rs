//! The body accumulator: the state machine that negotiates the declared
//! content type, checks a declared length against the limit, accumulates
//! chunks from the transport into a buffer while re-checking the limit after
//! every chunk, and finally hands the buffer to the codec.
//!
//! The host's event loop drives one `CborBody` per request attempt: it calls
//! `begin` once, then `push_chunk` for every delivered chunk (or
//! `push_failure` when the transport fails), and `finish` at the end of the
//! stream. `run` drives the same transitions over an already materialized
//! event list.

use vstd::prelude::*;

use crate::codec::decode_cbor;
use crate::config::ContentTypePredicate;
use crate::error::CborError;
use crate::error::CborPayloadError;
use crate::negotiate::mime_accepted;
use crate::negotiate::spec_mime_accepted;

verus! {

/// Size limit an accumulator starts with when it is constructed directly,
/// before any fluent override: 256kB.
pub const DEFAULT_BODY_LIMIT: usize = 262144;

/// Where one accumulation attempt stands.
pub enum BodyState {
    /// Constructed; the limit may still be overridden and no chunk has been
    /// pulled.
    Created,
    /// Accumulating chunks.
    Running,
    /// A terminal failure was reported; the attempt is over.
    Failed,
}

/// Outcome of the chunk-accumulation loop, at the specification level: the
/// complete body in delivery order, a size rejection, or the text of the
/// first transport failure.
pub enum AccOutcome {
    Complete(Seq<u8>),
    TooLarge,
    Upstream(Seq<char>),
}

/// What accumulating `events` onto `acc` under `limit` yields: events are
/// consumed in order; a transport failure is terminal; a chunk that would
/// push the buffer past the limit is terminal; otherwise the chunk is
/// appended.
pub open spec fn spec_accumulate(
    limit: nat,
    acc: Seq<u8>,
    events: Seq<Result<Seq<u8>, Seq<char>>>,
) -> AccOutcome
    decreases events.len(),
{
    if events.len() == 0 {
        AccOutcome::Complete(acc)
    } else {
        match events[0] {
            Result::Err(m) => AccOutcome::Upstream(m),
            Result::Ok(c) => if acc.len() + c.len() > limit {
                AccOutcome::TooLarge
            } else {
                spec_accumulate(limit, acc + c, events.skip(1))
            },
        }
    }
}

/// The mathematical value of a materialized event list.
pub open spec fn events_view(events: Seq<Result<Vec<u8>, String>>) -> Seq<
    Result<Seq<u8>, Seq<char>>,
> {
    events.map_values(
        |e: Result<Vec<u8>, String>|
            match e {
                Result::Ok(v) => Result::<Seq<u8>, Seq<char>>::Ok(v@),
                Result::Err(s) => Result::<Seq<u8>, Seq<char>>::Err(s@),
            },
    )
}

/// What the attempt yields for each possible answer of the codec: the decoded
/// value as is, a codec failure as a deserialize error.
pub fn decode_outcome<T>(res: Result<T, CborError>) -> (r: Result<T, CborPayloadError>)
    ensures
        res matches Ok(v) ==> r matches Ok(v2) && v2 == v,
        res matches Err(e) ==> r matches Err(e2) && e2 == CborPayloadError::Deserialize(e),
{
    match res {
        Ok(v) => Ok(v),
        Err(e) => Err(CborPayloadError::Deserialize(e)),
    }
}

/// Every event is a delivered chunk: the transport never failed.
pub open spec fn all_chunks(events: Seq<Result<Seq<u8>, Seq<char>>>) -> bool {
    forall|i: int| 0 <= i < events.len() ==> events[i] is Ok
}

/// Total size of the delivered chunks.
pub open spec fn total_len(events: Seq<Result<Seq<u8>, Seq<char>>>) -> nat
    decreases events.len(),
{
    if events.len() == 0 {
        0
    } else {
        (match events[0] {
            Result::Ok(c) => c.len(),
            Result::Err(_) => 0,
        }) + total_len(events.skip(1))
    }
}

/// The delivered chunks joined in delivery order.
pub open spec fn concat_chunks(events: Seq<Result<Seq<u8>, Seq<char>>>) -> Seq<u8>
    decreases events.len(),
{
    if events.len() == 0 {
        Seq::empty()
    } else {
        (match events[0] {
            Result::Ok(c) => c,
            Result::Err(_) => Seq::empty(),
        }) + concat_chunks(events.skip(1))
    }
}

/// Law: a chunked body whose total size keeps the buffer within the limit is
/// accumulated completely, and the buffer ends as the chunks joined in
/// delivery order.
pub proof fn lemma_within_limit_completes(
    limit: nat,
    acc: Seq<u8>,
    events: Seq<Result<Seq<u8>, Seq<char>>>,
)
    requires
        all_chunks(events),
        acc.len() + total_len(events) <= limit,
    ensures
        spec_accumulate(limit, acc, events) == AccOutcome::Complete(acc + concat_chunks(events)),
    decreases events.len(),
{
    if events.len() == 0 {
        assert(acc + concat_chunks(events) =~= acc);
    } else {
        assert(events[0] is Ok);
        let c = events[0]->Ok_0;
        assert forall|j: int| 0 <= j < events.skip(1).len() implies events.skip(1)[j] is Ok by {
            assert(events.skip(1)[j] == events[j + 1]);
        }
        lemma_within_limit_completes(limit, acc + c, events.skip(1));
        assert(acc + c + concat_chunks(events.skip(1)) =~= acc + concat_chunks(events));
    }
}

/// Law: a chunked body whose total size exceeds the limit is rejected as too
/// large, whichever chunk crosses the limit.
pub proof fn lemma_over_limit_rejected(
    limit: nat,
    acc: Seq<u8>,
    events: Seq<Result<Seq<u8>, Seq<char>>>,
)
    requires
        all_chunks(events),
        acc.len() <= limit,
        acc.len() + total_len(events) > limit,
    ensures
        spec_accumulate(limit, acc, events) == AccOutcome::TooLarge,
    decreases events.len(),
{
    assert(events.len() > 0);
    assert(events[0] is Ok);
    let c = events[0]->Ok_0;
    if acc.len() + c.len() <= limit {
        assert forall|j: int| 0 <= j < events.skip(1).len() implies events.skip(1)[j] is Ok by {
            assert(events.skip(1)[j] == events[j + 1]);
        }
        lemma_over_limit_rejected(limit, acc + c, events.skip(1));
    }
}

/// Law: a body of total size exactly the limit is accepted whole.
pub proof fn lemma_body_at_limit_accepted(limit: nat, events: Seq<Result<Seq<u8>, Seq<char>>>)
    requires
        all_chunks(events),
        total_len(events) == limit,
    ensures
        spec_accumulate(limit, Seq::empty(), events) == AccOutcome::Complete(concat_chunks(events)),
{
    lemma_within_limit_completes(limit, Seq::empty(), events);
    assert(Seq::<u8>::empty() + concat_chunks(events) =~= concat_chunks(events));
}

/// Law: a body one byte over the limit is rejected as too large.
pub proof fn lemma_body_over_limit_rejected(limit: nat, events: Seq<Result<Seq<u8>, Seq<char>>>)
    requires
        all_chunks(events),
        total_len(events) == limit + 1,
    ensures
        spec_accumulate(limit, Seq::empty(), events) == AccOutcome::TooLarge,
{
    lemma_over_limit_rejected(limit, Seq::empty(), events);
}

/// Request payload accumulator; it resolves to the full body under the size
/// limit, or to a precise failure.
pub struct CborBody {
    pub limit: usize,
    pub length: Option<usize>,
    pub err: Option<CborPayloadError>,
    pub buffer: Vec<u8>,
    pub state: BodyState,
}

impl CborBody {
    /// The buffer never holds more than the limit allows.
    pub open spec fn wf(&self) -> bool {
        self.buffer@.len() <= self.limit
    }

    /// Create an accumulator for one request: negotiate the declared content
    /// type against the default rule and the optional predicate; a rejection
    /// is recorded and surfaces when the accumulator begins running.
    pub fn new<P: ContentTypePredicate>(
        mime: &str,
        predicate: Option<&P>,
        length: Option<usize>,
    ) -> (r: Self)
        ensures
            r.limit == DEFAULT_BODY_LIMIT,
            r.state is Created,
            r.buffer@.len() == 0,
            spec_mime_accepted(predicate, mime@) ==> r.err is None && r.length == length,
            !spec_mime_accepted(predicate, mime@) ==> (r.err matches Some(e) && e is ContentType)
                && r.length is None,
    {
        if !mime_accepted(predicate, mime) {
            CborBody {
                limit: DEFAULT_BODY_LIMIT,
                length: None,
                err: Some(CborPayloadError::ContentType),
                buffer: Vec::new(),
                state: BodyState::Created,
            }
        } else {
            CborBody {
                limit: DEFAULT_BODY_LIMIT,
                length,
                err: None,
                buffer: Vec::new(),
                state: BodyState::Created,
            }
        }
    }

    /// Change max size of payload. By default max size is 256Kb. Only
    /// possible before the accumulator begins running; afterwards the limit
    /// is fixed for the attempt.
    pub fn limit(self, limit: usize) -> (r: Self)
        requires
            self.state is Created,
        ensures
            r.limit == limit,
            r.length == self.length,
            r.err == self.err,
            r.buffer == self.buffer,
            r.state is Created,
    {
        CborBody {
            limit,
            length: self.length,
            err: self.err,
            buffer: self.buffer,
            state: self.state,
        }
    }

    /// Start the attempt: surface a recorded content-type rejection, or
    /// reject a declared length that already exceeds the limit, both before
    /// any chunk is read.
    pub fn begin(&mut self) -> (r: Result<(), CborPayloadError>)
        requires
            old(self).state is Created,
        ensures
            final(self).limit == old(self).limit,
            final(self).buffer == old(self).buffer,
            old(self).err matches Some(e) ==> (r matches Err(e2) && e2 == e) && final(self).state
                is Failed,
            old(self).err is None && (old(self).length matches Some(n) && n > old(self).limit)
                ==> (r matches Err(e2) && e2 is Overflow) && final(self).state is Failed,
            old(self).err is None && !(old(self).length matches Some(n) && n > old(self).limit)
                ==> r is Ok && final(self).state is Running,
    {
        if let Some(e) = self.err.take() {
            self.state = BodyState::Failed;
            return Err(e);
        }
        if let Some(n) = self.length {
            if n > self.limit {
                self.state = BodyState::Failed;
                return Err(CborPayloadError::Overflow);
            }
        }
        self.state = BodyState::Running;
        Ok(())
    }

    /// Accept one delivered chunk: reject the attempt and discard the buffer
    /// when the chunk would push the buffer past the limit, append it
    /// otherwise.
    pub fn push_chunk(&mut self, chunk: &[u8]) -> (r: Result<(), CborPayloadError>)
        requires
            old(self).state is Running,
            old(self).wf(),
        ensures
            final(self).limit == old(self).limit,
            final(self).wf(),
            old(self).buffer@.len() + chunk@.len() > old(self).limit ==> ((r matches Err(e)
                && e is Overflow) && final(self).state is Failed && final(self).buffer@.len() == 0),
            old(self).buffer@.len() + chunk@.len() <= old(self).limit ==> (r is Ok && final(self).state
                is Running && final(self).buffer@ == old(self).buffer@ + chunk@),
    {
        let room = self.limit - self.buffer.len();
        if chunk.len() > room {
            self.buffer = Vec::new();
            self.state = BodyState::Failed;
            Err(CborPayloadError::Overflow)
        } else {
            self.buffer.extend_from_slice(chunk);
            proof {
                assert(self.buffer@ =~= old(self).buffer@ + chunk@);
            }
            Ok(())
        }
    }

    /// Record a transport failure: the attempt is over, the buffer is
    /// discarded, and the failure's text is carried in the error.
    pub fn push_failure(&mut self, message: String) -> (e: CborPayloadError)
        requires
            old(self).state is Running,
        ensures
            e matches CborPayloadError::Payload(m) && m@ == message@,
            final(self).state is Failed,
            final(self).buffer@.len() == 0,
    {
        self.buffer = Vec::new();
        self.state = BodyState::Failed;
        CborPayloadError::Payload(message)
    }

    /// The accumulated payload, once the stream has ended.
    pub fn into_bytes(self) -> (b: Vec<u8>)
        requires
            self.state is Running,
        ensures
            b@ == self.buffer@,
    {
        self.buffer
    }

    /// End of stream: hand the full buffer to the codec; a codec failure is
    /// reported as a deserialize error.
    pub fn finish<T: serde::de::DeserializeOwned>(self) -> (r: Result<T, CborPayloadError>)
        requires
            self.state is Running,
        ensures
            r matches Err(e) ==> e is Deserialize,
    {
        decode_outcome(decode_cbor::<T>(self.buffer.as_slice()))
    }

    /// Drive a whole attempt over an already materialized event list: begin,
    /// feed every event in delivery order, then decode.
    pub fn run<T: serde::de::DeserializeOwned>(self, events: Vec<Result<Vec<u8>, String>>) -> (r:
        Result<T, CborPayloadError>)
        requires
            self.state is Created,
            self.buffer@.len() == 0,
        ensures
            self.err matches Some(e) ==> (r matches Err(e2) && e2 == e),
            self.err is None && (self.length matches Some(n) && n > self.limit) ==> (r matches Err(e2)
                && e2 is Overflow),
            self.err is None && !(self.length matches Some(n) && n > self.limit) ==> (match
                spec_accumulate(self.limit as nat, Seq::empty(), events_view(events@)) {
                AccOutcome::TooLarge => r matches Err(e2) && e2 is Overflow,
                AccOutcome::Upstream(m) => r matches Err(e2) && (e2
                    matches CborPayloadError::Payload(msg) && msg@ == m),
                AccOutcome::Complete(bytes) => r matches Err(e2) ==> e2 is Deserialize,
            }),
    {
        let ghost limit_g = self.limit as nat;
        let mut body = self;
        if let Err(e) = body.begin() {
            return Err(e);
        }
        proof {
            assert(body.buffer@ =~= Seq::<u8>::empty());
            assert(events_view(events@).skip(0) =~= events_view(events@));
        }
        let n = events.len();
        let mut i: usize = 0;
        while i < n
            invariant
                n == events@.len(),
                0 <= i <= n,
                self.err is None,
                !(self.length matches Some(l) && l > self.limit),
                limit_g == self.limit as nat,
                body.state is Running,
                body.wf(),
                body.limit as nat == limit_g,
                spec_accumulate(limit_g, body.buffer@, events_view(events@).skip(i as int))
                    == spec_accumulate(limit_g, Seq::empty(), events_view(events@)),
            decreases n - i,
        {
            proof {
                assert(events_view(events@).skip(i as int)[0] == events_view(events@)[i as int]);
            }
            match &events[i] {
                Result::Ok(chunk) => {
                    let res = body.push_chunk(chunk.as_slice());
                    if let Err(e) = res {
                        proof {
                            assert(spec_accumulate(
                                limit_g,
                                Seq::empty(),
                                events_view(events@),
                            ) is TooLarge);
                        }
                        return Err(e);
                    }
                    proof {
                        assert(events_view(events@).skip(i as int).skip(1) =~= events_view(
                            events@,
                        ).skip(i as int + 1));
                    }
                },
                Result::Err(s) => {
                    let msg = s.clone();
                    let e = body.push_failure(msg);
                    return Err(e);
                },
            }
            i = i + 1;
        }
        proof {
            assert(events_view(events@).skip(i as int) =~= Seq::<Result<Seq<u8>, Seq<char>>>::empty());
        }
        body.finish::<T>()
    }
}

} // verus!
