//! One request/response exchange: response frames are turned into records
//! for the caller's handler, and the exchange resolves to a single result.
//!
//! The exchange is a state machine. Its driver reads one frame, hands it to
//! `on_frame`, passes a delivered record to the handler, reports the
//! handler's answer to `on_handled`, and stops at the first `Finish`.
use vstd::prelude::*;
use crate::buckets::{Bucket, bucket_record, decode_bucket, get_str, str_field};
use crate::error::MorayError;
use crate::json::JsonValue;
use crate::objects::{MorayObject, decode_object, object_record};

verus! {

/// How a response stream ends.
#[derive(Debug, PartialEq)]
pub enum EndStatus {
    Success,
    Failure { code: String, message: String },
}

/// One frame of a response stream.
#[derive(Debug, PartialEq)]
pub enum Frame {
    Data(JsonValue),
    End(EndStatus),
}

/// What the data frames of an operation decode to.
#[derive(Debug, Clone, Copy, PartialEq, Eq)]
pub enum RecordKind {
    Buckets,
    Objects,
    Etags,
    Values,
    Nothing,
}

/// One decoded record, as the handler receives it.
#[derive(Debug, PartialEq)]
pub enum Record {
    Bucket(Bucket),
    Object(MorayObject),
    Etag(String),
    Value(JsonValue),
}

/// The etag that a store confirmation carries.
pub open spec fn etag_record(v: JsonValue) -> Option<Seq<char>> {
    match v {
        JsonValue::Object(e) => str_field(e@, "etag"@),
        _ => None,
    }
}

/// A data frame holding `v` is well formed for `kind`.
pub open spec fn decodable(kind: RecordKind, v: JsonValue) -> bool {
    match kind {
        RecordKind::Buckets => bucket_record(v) is Some,
        RecordKind::Objects => object_record(v) is Some,
        RecordKind::Etags => etag_record(v) is Some,
        RecordKind::Values => true,
        RecordKind::Nothing => false,
    }
}

/// `rec` is what a data frame holding `v` decodes to for `kind`.
pub open spec fn decodes_to(kind: RecordKind, v: JsonValue, rec: Record) -> bool {
    match (kind, rec) {
        (RecordKind::Buckets, Record::Bucket(b)) => bucket_record(v) == Some(b@),
        (RecordKind::Objects, Record::Object(o)) => object_record(v) == Some(o@),
        (RecordKind::Etags, Record::Etag(s)) => etag_record(v) == Some(s@),
        (RecordKind::Values, Record::Value(x)) => x == v,
        _ => false,
    }
}

/// Decodes the payload of one data frame.
pub fn decode_record(kind: RecordKind, v: JsonValue) -> (r: Result<Record, MorayError>)
    ensures
        r is Ok <==> decodable(kind, v),
        r matches Ok(rec) ==> decodes_to(kind, v, rec),
        r matches Err(e) ==> e is Protocol,
{
    match kind {
        RecordKind::Buckets => match decode_bucket(&v) {
            Ok(b) => Ok(Record::Bucket(b)),
            Err(e) => Err(e),
        },
        RecordKind::Objects => match decode_object(v) {
            Ok(o) => Ok(Record::Object(o)),
            Err(e) => Err(e),
        },
        RecordKind::Etags => {
            let etag = match &v {
                JsonValue::Object(e) => get_str(e, "etag"),
                _ => None,
            };
            match etag {
                Some(s) => Ok(Record::Etag(s)),
                None => Err(MorayError::Protocol("malformed store confirmation".to_string())),
            }
        },
        RecordKind::Values => Ok(Record::Value(v)),
        RecordKind::Nothing => Err(MorayError::Protocol("unexpected data frame".to_string())),
    }
}

/// How a call ended, over plain values.
pub ghost enum Outcome {
    Success,
    Remote(Seq<char>, Seq<char>),
    Protocol,
    Aborted(Seq<char>),
}

/// The outcome that a call result stands for.
pub open spec fn outcome_of(r: Result<(), MorayError>) -> Option<Outcome> {
    match r {
        Ok(()) => Some(Outcome::Success),
        Err(MorayError::Remote { code, message }) => Some(Outcome::Remote(code@, message@)),
        Err(MorayError::Protocol(_)) => Some(Outcome::Protocol),
        Err(MorayError::HandlerAborted(m)) => Some(Outcome::Aborted(m@)),
        _ => None,
    }
}

/// What one frame does: `None` delivers a record, `Some` ends the call.
pub open spec fn frame_outcome(kind: RecordKind, f: Frame) -> Option<Outcome> {
    match f {
        Frame::Data(v) => if decodable(kind, v) {
            None
        } else {
            Some(Outcome::Protocol)
        },
        Frame::End(EndStatus::Success) => Some(Outcome::Success),
        Frame::End(EndStatus::Failure { code, message }) => Some(Outcome::Remote(code@, message@)),
    }
}

/// The payload of a data frame.
pub open spec fn payload(f: Frame) -> JsonValue {
    match f {
        Frame::Data(v) => v,
        Frame::End(_) => JsonValue::Null,
    }
}

/// A whole call over the frames that arrive and the handler's answers:
/// the payloads whose records reach the handler, in the order they reach
/// it, and how the call ends (`None` while frames or answers are still due).
pub open spec fn run(kind: RecordKind, frames: Seq<Frame>, replies: Seq<Result<(), String>>) -> (Seq<JsonValue>, Option<Outcome>)
    decreases frames.len(),
{
    if frames.len() == 0 {
        (Seq::empty(), None)
    } else {
        match frame_outcome(kind, frames[0]) {
            Some(o) => (Seq::empty(), Some(o)),
            None => if replies.len() == 0 {
                (seq![payload(frames[0])], None)
            } else {
                match replies[0] {
                    Err(m) => (seq![payload(frames[0])], Some(Outcome::Aborted(m@))),
                    Ok(()) => {
                        let rest = run(kind, frames.drop_first(), replies.drop_first());
                        (seq![payload(frames[0])] + rest.0, rest.1)
                    },
                }
            },
        }
    }
}

/// `f` is a data frame whose payload is well formed for `kind`.
pub open spec fn good_data(kind: RecordKind, f: Frame) -> bool {
    f matches Frame::Data(v) && decodable(kind, v)
}

/// The first `n` frames are well-formed data frames for `kind`.
pub open spec fn data_prefix(kind: RecordKind, frames: Seq<Frame>, n: int) -> bool {
    &&& 0 <= n <= frames.len()
    &&& forall|i: int| 0 <= i < n ==> good_data(kind, #[trigger] frames[i])
}

/// The payloads of the first `n` frames.
pub open spec fn payloads(frames: Seq<Frame>, n: int) -> Seq<JsonValue> {
    Seq::new(n as nat, |i: int| payload(frames[i]))
}

/// Data frames followed by a successful end, all accepted by the handler:
/// each record reaches the handler once, in the order of the frames, and
/// the call succeeds.
pub proof fn lemma_stream_delivered_in_order(
    kind: RecordKind,
    frames: Seq<Frame>,
    replies: Seq<Result<(), String>>,
)
    requires
        frames.len() >= 1,
        data_prefix(kind, frames, frames.len() - 1),
        frames.last() == Frame::End(EndStatus::Success),
        replies.len() == frames.len() - 1,
        forall|i: int| 0 <= i < replies.len() ==> (#[trigger] replies[i]) is Ok,
    ensures
        run(kind, frames, replies) == (payloads(frames, frames.len() - 1), Some(Outcome::Success)),
    decreases frames.len(),
{
    if frames.len() == 1 {
        assert(payloads(frames, 0) =~= Seq::empty());
    } else {
        let rest_f = frames.drop_first();
        let rest_r = replies.drop_first();
        assert(data_prefix(kind, rest_f, rest_f.len() - 1)) by {
            assert forall|i: int| 0 <= i < rest_f.len() - 1 implies good_data(kind, #[trigger] rest_f[i]) by {
                assert(rest_f[i] == frames[i + 1]);
            }
        }
        assert forall|i: int| 0 <= i < rest_r.len() implies (#[trigger] rest_r[i]) is Ok by {
            assert(rest_r[i] == replies[i + 1]);
        }
        assert(good_data(kind, frames[0]));
        assert(replies[0] is Ok);
        lemma_stream_delivered_in_order(kind, rest_f, rest_r);
        assert(seq![payload(frames[0])] + payloads(rest_f, rest_f.len() - 1) =~= payloads(frames, frames.len() - 1));
    }
}

/// When the handler refuses the record of the `k`-th frame, having accepted
/// those before it, exactly the first `k` records reach it, in order, none
/// after, and the call ends with the refusal.
pub proof fn lemma_refusal_stops_delivery(
    kind: RecordKind,
    frames: Seq<Frame>,
    replies: Seq<Result<(), String>>,
    k: int,
    m: String,
)
    requires
        1 <= k,
        data_prefix(kind, frames, k),
        replies.len() >= k,
        forall|i: int| 0 <= i < k - 1 ==> (#[trigger] replies[i]) is Ok,
        replies[k - 1] == Err::<(), String>(m),
    ensures
        run(kind, frames, replies) == (payloads(frames, k), Some(Outcome::Aborted(m@))),
    decreases k,
{
    assert(good_data(kind, frames[0]));
    if k == 1 {
        assert(payloads(frames, 1) =~= seq![payload(frames[0])]);
    } else {
        let rest_f = frames.drop_first();
        let rest_r = replies.drop_first();
        assert(data_prefix(kind, rest_f, k - 1)) by {
            assert forall|i: int| 0 <= i < k - 1 implies good_data(kind, #[trigger] rest_f[i]) by {
                assert(rest_f[i] == frames[i + 1]);
            }
        }
        assert forall|i: int| 0 <= i < k - 2 implies (#[trigger] rest_r[i]) is Ok by {
            assert(rest_r[i] == replies[i + 1]);
        }
        assert(rest_r[k - 2] == replies[k - 1]);
        assert(replies[0] is Ok);
        lemma_refusal_stops_delivery(kind, rest_f, rest_r, k - 1, m);
        assert(seq![payload(frames[0])] + payloads(rest_f, k - 1) =~= payloads(frames, k));
    }
}

/// What the driver does next.
#[derive(Debug, PartialEq)]
pub enum Step {
    /// Hand this record to the handler, then report its answer.
    Deliver(Record),
    /// The call is over, with this result.
    Finish(Result<(), MorayError>),
}

/// The state of one exchange.
pub struct Exchange {
    pub kind: RecordKind,
    /// Records handed to the handler so far.
    pub delivered: u64,
    /// A record is out and the handler's answer is due.
    pub awaiting: bool,
    /// The call has ended.
    pub finished: bool,
}

impl Exchange {
    /// A fresh exchange: nothing received, nothing delivered.
    pub fn new(kind: RecordKind) -> (r: Exchange)
        ensures
            r.kind == kind,
            r.delivered == 0,
            !r.awaiting,
            !r.finished,
    {
        Exchange { kind, delivered: 0, awaiting: false, finished: false }
    }

    /// Takes the next frame of the stream.
    pub fn on_frame(&mut self, frame: Frame) -> (s: Step)
        requires
            !old(self).awaiting,
            !old(self).finished,
            old(self).delivered < u64::MAX,
        ensures
            final(self).kind == old(self).kind,
            s is Deliver <==> frame_outcome(old(self).kind, frame) is None,
            s matches Step::Deliver(rec) ==> (frame matches Frame::Data(v) && decodes_to(old(self).kind, v, rec)),
            s matches Step::Finish(r) ==> outcome_of(r) == frame_outcome(old(self).kind, frame),
            frame == Frame::End(EndStatus::Success) ==> s == Step::Finish(Ok(())),
            frame is Data && s is Finish ==> (s matches Step::Finish(Err(e)) && e is Protocol),
            frame matches Frame::End(EndStatus::Failure { code, message }) ==>
                s == Step::Finish(Err(MorayError::Remote { code, message })),
            s is Deliver ==> final(self).delivered == old(self).delivered + 1 && final(self).awaiting
                && !final(self).finished,
            s is Finish ==> final(self).delivered == old(self).delivered && !final(self).awaiting
                && final(self).finished,
    {
        match frame {
            Frame::Data(v) => match decode_record(self.kind, v) {
                Ok(rec) => {
                    self.delivered = self.delivered + 1;
                    self.awaiting = true;
                    Step::Deliver(rec)
                },
                Err(e) => {
                    self.finished = true;
                    Step::Finish(Err(e))
                },
            },
            Frame::End(EndStatus::Success) => {
                self.finished = true;
                Step::Finish(Ok(()))
            },
            Frame::End(EndStatus::Failure { code, message }) => {
                self.finished = true;
                Step::Finish(Err(MorayError::Remote { code, message }))
            },
        }
    }

    /// Takes the handler's answer to the record last delivered. A refusal
    /// ends the call with that refusal; an acceptance asks for the next frame.
    pub fn on_handled(&mut self, answer: Result<(), String>) -> (r: Option<Result<(), MorayError>>)
        requires
            old(self).awaiting,
            !old(self).finished,
        ensures
            final(self).kind == old(self).kind,
            final(self).delivered == old(self).delivered,
            !final(self).awaiting,
            answer is Ok ==> r is None && !final(self).finished,
            answer matches Err(m) ==> r == Some(Err::<(), MorayError>(MorayError::HandlerAborted(m)))
                && final(self).finished,
    {
        self.awaiting = false;
        match answer {
            Ok(()) => None,
            Err(m) => {
                self.finished = true;
                Some(Err(MorayError::HandlerAborted(m)))
            },
        }
    }
}

} // verus!
