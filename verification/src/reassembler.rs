//! Stream reassembler: recovers frame boundaries from an arbitrarily
//! chunked byte stream.
//!
//! The reassembler buffers bytes across calls and repeatedly decodes the
//! front of its buffer. A complete frame is emitted and consumed; an
//! invalid front costs exactly one discarded byte before scanning resumes
//! (so corruption inside one frame can never poison unrelated trailing
//! bytes); an incomplete front is kept until more bytes arrive. It holds
//! no history beyond the current partial frame.

use vstd::prelude::*;
use crate::codec::DecodeModel;
use crate::codec::DecodeResult;
use crate::codec::decode;
use crate::codec::lemma_decode_bounds;
use crate::codec::spec_decode;
use crate::codec::spec_frame;
use crate::codec::FRAME_OVERHEAD;
use crate::types::FrameError;
use crate::types::MAX_PAYLOAD_LEN;
use crate::types::Message;
use crate::types::MessageKind;
use crate::types::MessageModel;
use crate::types::code_of_kind;
use crate::types::kind_encodable;
use crate::types::payload_matches_kind;

verus! {

/// One outcome the reassembler hands on: a decoded message, or the
/// framing error it resynchronized past.
#[derive(Debug)]
pub enum FrameEvent {
    /// A complete, valid frame was decoded.
    Decoded(Message),
    /// The stream held bytes that are not a valid frame; one byte was
    /// discarded and scanning resumed.
    Error(FrameError),
}

/// Mathematical model of a [`FrameEvent`].
pub ghost enum FrameEventModel {
    /// A decoded message.
    Decoded(MessageModel),
    /// A framing error.
    Error(FrameError),
}

impl View for FrameEvent {
    type V = FrameEventModel;

    open spec fn view(&self) -> FrameEventModel {
        match self {
            FrameEvent::Decoded(m) => FrameEventModel::Decoded(m.view()),
            FrameEvent::Error(e) => FrameEventModel::Error(*e),
        }
    }
}

/// The models of a sequence of frame events.
pub open spec fn events_model(s: Seq<FrameEvent>) -> Seq<FrameEventModel> {
    s.map_values(|e: FrameEvent| e@)
}

/// What processing a buffer leaves behind: the events emitted, in order,
/// and the unconsumed tail.
pub ghost struct ProcessModel {
    /// The emitted events, in order.
    pub events: Seq<FrameEventModel>,
    /// The bytes still buffered.
    pub rest: Seq<u8>,
}

/// Processes buffer `b` to quiescence: decodes and consumes complete
/// frames, discards one byte per framing error, and stops at an
/// incomplete front.
pub open spec fn spec_process(b: Seq<u8>) -> ProcessModel
    decreases b.len(),
{
    match spec_decode(b) {
        DecodeModel::Incomplete => ProcessModel { events: Seq::empty(), rest: b },
        DecodeModel::Invalid(e) => if b.len() >= 1 {
            let r = spec_process(b.skip(1));
            ProcessModel { events: seq![FrameEventModel::Error(e)] + r.events, rest: r.rest }
        } else {
            ProcessModel { events: Seq::empty(), rest: b }
        },
        DecodeModel::Complete(m, n) => if 1 <= n <= b.len() {
            let r = spec_process(b.skip(n));
            ProcessModel {
                events: seq![FrameEventModel::Decoded(m)] + r.events,
                rest: r.rest,
            }
        } else {
            ProcessModel { events: Seq::empty(), rest: b }
        },
    }
}

/// Decoding decides on a prefix alone: once the front of a buffer
/// decodes to something other than `Incomplete`, appending bytes cannot
/// change the outcome.
pub proof fn lemma_decode_prefix_stable(b: Seq<u8>, ext: Seq<u8>)
    ensures
        spec_decode(b) != DecodeModel::Incomplete ==> spec_decode(b + ext) == spec_decode(b),
{
    let c = b + ext;
    if spec_decode(b) != DecodeModel::Incomplete {
        assert(b.len() >= 1);
        assert(c[0] == b[0]);
        if b[0] == 0x44 {
            assert(b.len() >= 2);
            assert(c[1] == b[1]);
            if b[1] == 0x46 {
                assert(b.len() >= 10);
                assert(c[8] == b[8] && c[9] == b[9]);
                let l = crate::codec::read_u16_at(b, 8) as int;
                if l <= MAX_PAYLOAD_LEN {
                    assert(b.len() >= FRAME_OVERHEAD + l);
                    assert(c.take(10 + l) =~= b.take(10 + l));
                    assert(c[10 + l] == b[10 + l] && c[10 + l + 1] == b[10 + l + 1]);
                    assert(c[6] == b[6] && c[7] == b[7]);
                    assert(c[2] == b[2] && c[3] == b[3] && c[4] == b[4] && c[5] == b[5]);
                    assert(c.subrange(10, 10 + l) =~= b.subrange(10, 10 + l));
                }
            }
        }
    }
}

/// Chunk independence: processing a stream in two chunks emits exactly
/// the events of processing it whole, and leaves the same tail. Driving
/// the reassembler with any chunking of a stream therefore yields the
/// same event sequence.
pub proof fn lemma_process_chunked(b: Seq<u8>, ext: Seq<u8>)
    ensures
        ({
            let whole = spec_process(b + ext);
            let first = spec_process(b);
            let second = spec_process(first.rest + ext);
            whole.events =~= first.events + second.events && whole.rest =~= second.rest
        }),
    decreases b.len(),
{
    lemma_decode_bounds(b);
    lemma_decode_bounds(b + ext);
    lemma_decode_prefix_stable(b, ext);
    match spec_decode(b) {
        DecodeModel::Incomplete => {
            assert(spec_process(b).rest =~= b);
        },
        DecodeModel::Invalid(e) => {
            assert((b + ext).skip(1) =~= b.skip(1) + ext);
            lemma_process_chunked(b.skip(1), ext);
        },
        DecodeModel::Complete(m, n) => {
            assert((b + ext).skip(n) =~= b.skip(n) + ext);
            lemma_process_chunked(b.skip(n), ext);
        },
    }
}

/// Partial delivery, first half: every strict prefix of an encoded frame
/// is incomplete, so feeding a frame byte by byte emits nothing before
/// the final byte.
pub proof fn lemma_partial_frame_silent(id: u32, code: u16, payload: Seq<u8>, k: int)
    requires
        payload.len() <= MAX_PAYLOAD_LEN,
        0 <= k < spec_frame(id, code, payload).len(),
    ensures
        spec_decode(spec_frame(id, code, payload).take(k)) == DecodeModel::Incomplete,
        spec_process(spec_frame(id, code, payload).take(k)) == (ProcessModel {
            events: Seq::<FrameEventModel>::empty(),
            rest: spec_frame(id, code, payload).take(k),
        }),
{
    let f = spec_frame(id, code, payload);
    let p = f.take(k);
    crate::codec::lemma_frame_fields(id, code, payload);
    if k >= 1 {
        assert(p[0] == f[0]);
        if k >= 2 {
            assert(p[1] == f[1]);
            if k >= 10 {
                assert(p[8] == f[8] && p[9] == f[9]);
                assert(crate::codec::read_u16_at(p, 8) == payload.len());
            }
        }
    }
}

/// Partial delivery, second half: once the final byte of an encodable
/// frame arrives, processing emits exactly one `Decoded` event carrying
/// the encoded message, and keeps nothing back.
pub proof fn lemma_full_frame_emits(id: u32, kind: MessageKind, payload: Seq<u8>)
    requires
        kind_encodable(kind),
        payload_matches_kind(kind, payload),
    ensures
        ({
            let f = spec_frame(id, code_of_kind(kind), payload);
            spec_process(f) == (ProcessModel {
                events: seq![
                    FrameEventModel::Decoded(MessageModel { id, kind, payload }),
                ],
                rest: Seq::<u8>::empty(),
            })
        }),
{
    let f = spec_frame(id, code_of_kind(kind), payload);
    let m = MessageModel { id, kind, payload };
    let n = FRAME_OVERHEAD + payload.len() as int;
    crate::codec::lemma_round_trip(id, kind, payload);
    assert(spec_decode(f) == DecodeModel::Complete(m, n));
    crate::codec::lemma_frame_fields(id, code_of_kind(kind), payload);
    assert(f.len() == n);
    let tail = f.skip(n);
    assert(tail =~= Seq::<u8>::empty());
    assert(tail.len() == 0);
    assert(spec_decode(tail) == DecodeModel::Incomplete);
    assert(spec_process(tail) == (ProcessModel {
        events: Seq::<FrameEventModel>::empty(),
        rest: tail,
    }));
    assert(spec_process(f).events =~= seq![FrameEventModel::Decoded(m)]);
    assert(spec_process(f).rest =~= Seq::<u8>::empty());
}

/// Junk that never contains the first marker byte costs exactly one
/// `BadMarker` event per byte before a following frame is decoded
/// whole.
proof fn lemma_junk_then_frame(junk: Seq<u8>, id: u32, kind: MessageKind, payload: Seq<u8>)
    requires
        kind_encodable(kind),
        payload_matches_kind(kind, payload),
        forall|i: int| 0 <= i < junk.len() ==> junk[i] != 0x44,
    ensures
        ({
            let f = spec_frame(id, code_of_kind(kind), payload);
            spec_process(junk + f) == (ProcessModel {
                events: Seq::new(junk.len(), |i: int| FrameEventModel::Error(FrameError::BadMarker))
                    + seq![FrameEventModel::Decoded(MessageModel { id, kind, payload })],
                rest: Seq::<u8>::empty(),
            })
        }),
    decreases junk.len(),
{
    let f = spec_frame(id, code_of_kind(kind), payload);
    let b = junk + f;
    if junk.len() == 0 {
        assert(b =~= f);
        lemma_full_frame_emits(id, kind, payload);
        assert(spec_process(b).events =~= Seq::new(
            junk.len(),
            |i: int| FrameEventModel::Error(FrameError::BadMarker),
        ) + seq![FrameEventModel::Decoded(MessageModel { id, kind, payload })]);
    } else {
        crate::codec::lemma_frame_fields(id, code_of_kind(kind), payload);
        assert(f.len() >= FRAME_OVERHEAD);
        assert(b[0] == junk[0]);
        assert(b[0] != 0x44);
        assert(spec_decode(b) == DecodeModel::Invalid(FrameError::BadMarker));
        assert(b.skip(1) =~= junk.skip(1) + f);
        lemma_junk_then_frame(junk.skip(1), id, kind, payload);
        assert(spec_process(b).events =~= Seq::new(
            junk.len(),
            |i: int| FrameEventModel::Error(FrameError::BadMarker),
        ) + seq![FrameEventModel::Decoded(MessageModel { id, kind, payload })]);
    }
}

/// Resynchronization: a valid frame, then marker-free junk, then a valid
/// frame, processed in any chunking, emits exactly the first message,
/// one `BadMarker` error per junk byte, and the second message — no
/// valid frame is lost or duplicated.
///
/// Junk bytes equal to the first marker byte can conspire with a
/// following frame to form a different well-formed candidate frame, so
/// they are excluded here.
pub proof fn lemma_resynchronization(
    id1: u32,
    kind1: MessageKind,
    payload1: Seq<u8>,
    junk: Seq<u8>,
    id2: u32,
    kind2: MessageKind,
    payload2: Seq<u8>,
)
    requires
        kind_encodable(kind1),
        payload_matches_kind(kind1, payload1),
        kind_encodable(kind2),
        payload_matches_kind(kind2, payload2),
        forall|i: int| 0 <= i < junk.len() ==> junk[i] != 0x44,
    ensures
        ({
            let f1 = spec_frame(id1, code_of_kind(kind1), payload1);
            let f2 = spec_frame(id2, code_of_kind(kind2), payload2);
            let p = spec_process(f1 + (junk + f2));
            p.events =~= seq![
                FrameEventModel::Decoded(MessageModel { id: id1, kind: kind1, payload: payload1 }),
            ] + Seq::new(junk.len(), |i: int| FrameEventModel::Error(FrameError::BadMarker))
                + seq![
                FrameEventModel::Decoded(MessageModel { id: id2, kind: kind2, payload: payload2 }),
            ] && p.rest =~= Seq::<u8>::empty()
        }),
{
    let f1 = spec_frame(id1, code_of_kind(kind1), payload1);
    let f2 = spec_frame(id2, code_of_kind(kind2), payload2);
    lemma_process_chunked(f1, junk + f2);
    lemma_full_frame_emits(id1, kind1, payload1);
    assert(Seq::<u8>::empty() + (junk + f2) =~= junk + f2);
    lemma_junk_then_frame(junk, id2, kind2, payload2);
}

/// Removes the first `n` bytes of `v`, keeping the order of the rest.
fn drop_front(v: &mut Vec<u8>, n: usize)
    requires
        n <= old(v)@.len(),
    ensures
        final(v)@ =~= old(v)@.skip(n as int),
{
    let ghost v0 = v@;
    let mut out: Vec<u8> = Vec::new();
    let mut i: usize = n;
    while i < v.len()
        invariant
            v@ == v0,
            n <= i <= v0.len(),
            out@ =~= v0.subrange(n as int, i as int),
        decreases v0.len() - i,
    {
        out.push(v[i]);
        i = i + 1;
    }
    *v = out;
    proof {
        assert(v0.subrange(n as int, v0.len() as int) =~= v0.skip(n as int));
    }
}

/// The stream reassembler: a single mutable partial-frame buffer, driven
/// by one producer. Its view is the buffered bytes.
#[derive(Debug)]
pub struct Reassembler {
    buf: Vec<u8>,
}

impl View for Reassembler {
    type V = Seq<u8>;

    closed spec fn view(&self) -> Seq<u8> {
        self.buf@
    }
}

impl Reassembler {
    /// A reassembler with an empty buffer.
    pub fn new() -> (r: Reassembler)
        ensures
            r@ =~= Seq::<u8>::empty(),
    {
        Reassembler { buf: Vec::new() }
    }

    /// Feeds newly arrived bytes and returns every event the combined
    /// buffer now yields: exactly those of processing the buffered bytes
    /// followed by `bytes`, with the unconsumed tail kept for the next
    /// call.
    pub fn feed(&mut self, bytes: &Vec<u8>) -> (events: Vec<FrameEvent>)
        ensures
            ({
                let p = spec_process(old(self)@ + bytes@);
                final(self)@ == p.rest && events_model(events@) =~= p.events
            }),
    {
        let ghost buf0 = self.buf@;
        let mut i: usize = 0;
        while i < bytes.len()
            invariant
                i <= bytes@.len(),
                self.buf@ =~= buf0 + bytes@.take(i as int),
            decreases bytes@.len() - i,
        {
            self.buf.push(bytes[i]);
            i = i + 1;
        }
        let ghost total = buf0 + bytes@;
        proof {
            assert(self.buf@ =~= total);
        }
        let mut events: Vec<FrameEvent> = Vec::new();
        loop
            invariant_except_break
                spec_process(total).events =~= events_model(events@) + spec_process(
                    self.buf@,
                ).events,
                spec_process(total).rest == spec_process(self.buf@).rest,
            ensures
                spec_decode(self.buf@) == DecodeModel::Incomplete,
                spec_process(total).events =~= events_model(events@) + spec_process(
                    self.buf@,
                ).events,
                spec_process(total).rest == spec_process(self.buf@).rest,
            decreases self.buf@.len(),
        {
            let ghost before = self.buf@;
            proof {
                lemma_decode_bounds(before);
            }
            let r = decode(self.buf.as_slice());
            match r {
                DecodeResult::Incomplete => {
                    break ;
                },
                DecodeResult::Invalid(e) => {
                    events.push(FrameEvent::Error(e));
                    drop_front(&mut self.buf, 1);
                    proof {
                        assert(self.buf@ =~= before.skip(1));
                        assert(events_model(events@) =~= events_model(events@.drop_last())
                            + seq![FrameEventModel::Error(e)]);
                    }
                },
                DecodeResult::Complete(m, n) => {
                    let ghost mm = m@;
                    events.push(FrameEvent::Decoded(m));
                    drop_front(&mut self.buf, n);
                    proof {
                        assert(self.buf@ =~= before.skip(n as int));
                        assert(events_model(events@) =~= events_model(events@.drop_last())
                            + seq![FrameEventModel::Decoded(mm)]);
                    }
                },
            }
        }
        proof {
            assert(spec_process(self.buf@).events =~= Seq::<FrameEventModel>::empty());
            assert(events_model(events@) + Seq::<FrameEventModel>::empty() =~= events_model(
                events@,
            ));
        }
        events
    }
}

} // verus!
