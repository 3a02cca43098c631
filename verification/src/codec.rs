//! Frame codec: turning a logical message into a well-formed byte frame,
//! and a byte buffer back into a message.
//!
//! Wire layout of one frame, all multi-byte fields big-endian (the
//! protocol's fixed byte order):
//!
//! ```text
//! "DF" | id: u32 | type: u16 | length: u16 | payload: u8[length] | checksum: u16
//! ```
//!
//! Decoding is a strict two-phase process: the marker and the declared
//! length are validated without demanding the full payload, so a caller
//! can decide whether to wait for more bytes; once the declared frame is
//! fully present the checksum is validated over the whole covered region
//! before the payload is interpreted, so a checksum failure always takes
//! precedence over a payload-shape failure.

use vstd::prelude::*;
use vstd::arithmetic::div_mod::lemma_fundamental_div_mod;
use vstd::arithmetic::div_mod::lemma_div_denominator;
use crate::checksum::checksum_of;
use crate::checksum::compute_checksum;
use crate::types::ACK_FLAG;
use crate::types::EncodingError;
use crate::types::FrameError;
use crate::types::MAX_PAYLOAD_LEN;
use crate::types::Message;
use crate::types::MessageKind;
use crate::types::MessageModel;
use crate::types::ResponseCode;
use crate::types::code_of_kind;
use crate::types::kind_encodable;
use crate::types::kind_of_frame;
use crate::types::payload_matches_kind;
use crate::types::registry_payload_len;

verus! {

/// Number of bytes before the payload: marker, id, type, length.
pub const HEADER_LEN: usize = 10;

/// Number of framing bytes around the payload: header plus checksum.
pub const FRAME_OVERHEAD: usize = 12;

/// The two bytes of `x`, most significant first.
pub open spec fn u16_be(x: u16) -> Seq<u8> {
    seq![(x / 256) as u8, (x % 256) as u8]
}

/// The four bytes of `x`, most significant first.
pub open spec fn u32_be(x: u32) -> Seq<u8> {
    seq![
        (x / 0x1000000) as u8,
        ((x / 0x10000) % 256) as u8,
        ((x / 256) % 256) as u8,
        (x % 256) as u8,
    ]
}

/// The 16-bit big-endian value stored at offset `i` of `b`.
pub open spec fn read_u16_at(b: Seq<u8>, i: int) -> u16 {
    (b[i] * 256 + b[i + 1]) as u16
}

/// The 32-bit big-endian value stored at offset `i` of `b`.
pub open spec fn read_u32_at(b: Seq<u8>, i: int) -> u32 {
    (((b[i] * 256 + b[i + 1]) * 256 + b[i + 2]) * 256 + b[i + 3]) as u32
}

/// Reading back the two bytes of `u16_be` yields the value.
pub proof fn lemma_u16_be_read(x: u16)
    ensures
        u16_be(x).len() == 2,
        u16_be(x)[0] * 256 + u16_be(x)[1] == x,
{
    lemma_fundamental_div_mod(x as int, 256);
}

/// Reading back the four bytes of `u32_be` yields the value.
pub proof fn lemma_u32_be_read(x: u32)
    ensures
        u32_be(x).len() == 4,
        ((u32_be(x)[0] * 256 + u32_be(x)[1]) * 256 + u32_be(x)[2]) * 256 + u32_be(x)[3] == x,
{
    let x0 = x as int;
    lemma_fundamental_div_mod(x0, 256);
    lemma_fundamental_div_mod(x0 / 256, 256);
    lemma_div_denominator(x0, 256, 256);
    lemma_fundamental_div_mod(x0 / 0x10000, 256);
    lemma_div_denominator(x0, 0x10000, 256);
}

/// The checksummed region of a frame: marker, id, type, length, payload.
pub open spec fn spec_frame_body(id: u32, code: u16, payload: Seq<u8>) -> Seq<u8> {
    seq![0x44u8, 0x46u8] + u32_be(id) + u16_be(code) + u16_be(payload.len() as u16) + payload
}

/// The full wire frame for `(id, code, payload)`: the checksummed body
/// followed by the checksum field.
pub open spec fn spec_frame(id: u32, code: u16, payload: Seq<u8>) -> Seq<u8> {
    let body = spec_frame_body(id, code, payload);
    body + u16_be(checksum_of(body))
}

/// Appends the two big-endian bytes of `x` to `v`.
pub fn push_u16_be(v: &mut Vec<u8>, x: u16)
    ensures
        final(v)@ =~= old(v)@ + u16_be(x),
{
    proof {
        lemma_fundamental_div_mod(x as int, 256);
    }
    v.push((x / 256) as u8);
    v.push((x % 256) as u8);
}

/// Appends the four big-endian bytes of `x` to `v`.
pub fn push_u32_be(v: &mut Vec<u8>, x: u32)
    ensures
        final(v)@ =~= old(v)@ + u32_be(x),
{
    proof {
        lemma_fundamental_div_mod(x as int, 0x1000000);
    }
    v.push((x / 0x1000000) as u8);
    v.push(((x / 0x10000) % 256) as u8);
    v.push(((x / 256) % 256) as u8);
    v.push((x % 256) as u8);
}

/// Builds the wire frame for correlation id `id`, raw type code `code`
/// and payload `payload`, including the checksum field.
///
/// This is the raw, code-level encoder; [`encode`] adds the registry
/// checks of the kind-level interface.
pub fn encode_frame(id: u32, code: u16, payload: &Vec<u8>) -> (out: Vec<u8>)
    requires
        payload@.len() <= MAX_PAYLOAD_LEN,
    ensures
        out@ == spec_frame(id, code, payload@),
{
    let mut out: Vec<u8> = Vec::new();
    out.push(0x44);
    out.push(0x46);
    push_u32_be(&mut out, id);
    push_u16_be(&mut out, code);
    push_u16_be(&mut out, payload.len() as u16);
    let ghost header = out@;
    let mut i: usize = 0;
    while i < payload.len()
        invariant
            i <= payload@.len(),
            out@ =~= header + payload@.take(i as int),
        decreases payload@.len() - i,
    {
        out.push(payload[i]);
        i = i + 1;
    }
    proof {
        assert(out@ =~= spec_frame_body(id, code, payload@));
    }
    let cs = compute_checksum(out.as_slice(), out.len());
    proof {
        assert(out@.take(out@.len() as int) =~= out@);
    }
    push_u16_be(&mut out, cs);
    proof {
        assert(out@ =~= spec_frame(id, code, payload@));
    }
    out
}

/// Encodes a logical message into a wire frame.
///
/// Fails with `UnknownKind` when the kind has no registry entry to encode
/// under (an `Unknown` kind, or an acknowledged base code that does not
/// fit in 15 bits), and with `PayloadTooLarge` when the payload exceeds
/// [`MAX_PAYLOAD_LEN`] bytes; otherwise it returns exactly the frame
/// bytes of [`spec_frame`] under the kind's registry code.
pub fn encode(id: u32, kind: &MessageKind, payload: &Vec<u8>) -> (r: Result<Vec<u8>, EncodingError>)
    ensures
        match r {
            Ok(f) => kind_encodable(*kind) && payload@.len() <= MAX_PAYLOAD_LEN && f@
                == spec_frame(id, code_of_kind(*kind), payload@),
            Err(e) => (e == EncodingError::UnknownKind && !kind_encodable(*kind)) || (e
                == EncodingError::PayloadTooLarge && kind_encodable(*kind) && payload@.len()
                > MAX_PAYLOAD_LEN),
        },
{
    let code: u16 = match kind {
        MessageKind::Hi => 0x0001,
        MessageKind::Dmx => 0x0020,
        MessageKind::GuiOut => 0x0021,
        MessageKind::Ack(base, _) => {
            if *base >= ACK_FLAG {
                return Err(EncodingError::UnknownKind);
            }
            ACK_FLAG + *base
        },
        MessageKind::Unknown(_) => {
            return Err(EncodingError::UnknownKind);
        },
    };
    if payload.len() > MAX_PAYLOAD_LEN {
        return Err(EncodingError::PayloadTooLarge);
    }
    Ok(encode_frame(id, code, payload))
}

/// Whether the last two bytes of `frame` hold the checksum of everything
/// before them.
pub open spec fn spec_checksum_ok(frame: Seq<u8>) -> bool {
    frame.len() >= 2 && read_u16_at(frame, frame.len() - 2) == checksum_of(
        frame.take(frame.len() - 2),
    )
}

/// Verifies the checksum field of a complete frame buffer: the trailing
/// two bytes must hold the checksum of every byte before them. Always
/// true of an encoded frame.
pub fn verify_frame_checksum(frame: &[u8]) -> (r: bool)
    ensures
        r == spec_checksum_ok(frame@),
{
    if frame.len() < 2 {
        return false;
    }
    let body_len = frame.len() - 2;
    let stored = read_u16_exec(frame, body_len);
    let computed = compute_checksum(frame, body_len);
    stored == computed
}

/// The checksum engine's own guarantee on every frame the codec emits:
/// verification of an encoded frame always succeeds.
pub proof fn lemma_encode_checksum_ok(id: u32, code: u16, payload: Seq<u8>)
    requires
        payload.len() <= MAX_PAYLOAD_LEN,
    ensures
        spec_checksum_ok(spec_frame(id, code, payload)),
{
    lemma_frame_fields(id, code, payload);
}

/// Outcome of decoding a byte buffer.
#[derive(Debug)]
pub enum DecodeResult {
    /// A complete, valid frame stood at the front of the buffer: the
    /// decoded message and the number of bytes it occupied.
    Complete(Message, usize),
    /// The buffer holds fewer bytes than the frame declares; the caller
    /// must supply more.
    Incomplete,
    /// The front of the buffer is not a valid frame.
    Invalid(FrameError),
}

/// Mathematical model of a [`DecodeResult`].
pub ghost enum DecodeModel {
    /// A decoded message and the byte count it consumed.
    Complete(MessageModel, int),
    /// More bytes are needed.
    Incomplete,
    /// The front of the buffer is not a valid frame.
    Invalid(FrameError),
}

impl View for DecodeResult {
    type V = DecodeModel;

    open spec fn view(&self) -> DecodeModel {
        match self {
            DecodeResult::Complete(m, n) => DecodeModel::Complete(m.view(), *n as int),
            DecodeResult::Incomplete => DecodeModel::Incomplete,
            DecodeResult::Invalid(e) => DecodeModel::Invalid(*e),
        }
    }
}

/// What decoding the front of buffer `b` yields.
///
/// The declared length is validated against the protocol bound from the
/// header alone; the checksum is validated once the declared frame is
/// fully present, before the type code or payload shape is interpreted;
/// an unregistered type code is not an error but decodes to an `Unknown`
/// message carrying the raw payload.
pub open spec fn spec_decode(b: Seq<u8>) -> DecodeModel {
    if b.len() == 0 {
        DecodeModel::Incomplete
    } else if b[0] != 0x44 {
        DecodeModel::Invalid(FrameError::BadMarker)
    } else if b.len() == 1 {
        DecodeModel::Incomplete
    } else if b[1] != 0x46 {
        DecodeModel::Invalid(FrameError::BadMarker)
    } else if b.len() < HEADER_LEN {
        DecodeModel::Incomplete
    } else {
        let l = read_u16_at(b, 8) as int;
        if l > MAX_PAYLOAD_LEN {
            DecodeModel::Invalid(FrameError::LengthMismatch)
        } else if b.len() < FRAME_OVERHEAD + l {
            DecodeModel::Incomplete
        } else {
            let body = b.take(HEADER_LEN + l);
            if read_u16_at(b, HEADER_LEN + l) != checksum_of(body) {
                DecodeModel::Invalid(FrameError::ChecksumMismatch)
            } else {
                let code = read_u16_at(b, 6);
                let payload = b.subrange(HEADER_LEN as int, HEADER_LEN + l);
                match registry_payload_len(code) {
                    Some(expected) => if l != expected {
                        DecodeModel::Invalid(FrameError::LengthMismatch)
                    } else {
                        DecodeModel::Complete(
                            MessageModel {
                                id: read_u32_at(b, 2),
                                kind: kind_of_frame(code, payload),
                                payload,
                            },
                            FRAME_OVERHEAD + l,
                        )
                    },
                    None => DecodeModel::Complete(
                        MessageModel {
                            id: read_u32_at(b, 2),
                            kind: kind_of_frame(code, payload),
                            payload,
                        },
                        FRAME_OVERHEAD + l,
                    ),
                }
            }
        }
    }
}

/// Bounds that every decode outcome obeys: a complete frame consumes at
/// least the framing overhead and never more than the buffer holds, and
/// an invalid outcome needs at least one byte to blame.
pub proof fn lemma_decode_bounds(b: Seq<u8>)
    ensures
        match spec_decode(b) {
            DecodeModel::Complete(m, n) => FRAME_OVERHEAD <= n <= b.len() && m.payload.len() == n
                - FRAME_OVERHEAD,
            DecodeModel::Invalid(_) => b.len() >= 1,
            DecodeModel::Incomplete => true,
        },
{
}

/// The fields an encoded frame presents to the decoder: the marker, the
/// id, the type code, the declared length and the checksum all read back
/// as what the encoder wrote.
pub proof fn lemma_frame_fields(id: u32, code: u16, payload: Seq<u8>)
    requires
        payload.len() <= MAX_PAYLOAD_LEN,
    ensures
        ({
            let body = spec_frame_body(id, code, payload);
            let f = spec_frame(id, code, payload);
            &&& f.len() == FRAME_OVERHEAD + payload.len()
            &&& body.len() == HEADER_LEN + payload.len()
            &&& f[0] == 0x44
            &&& f[1] == 0x46
            &&& read_u32_at(f, 2) == id
            &&& read_u16_at(f, 6) == code
            &&& read_u16_at(f, 8) == payload.len()
            &&& f.take(HEADER_LEN + payload.len()) =~= body
            &&& read_u16_at(f, HEADER_LEN + payload.len()) == checksum_of(body)
            &&& f.subrange(HEADER_LEN as int, HEADER_LEN + payload.len()) =~= payload
        }),
{
    let body = spec_frame_body(id, code, payload);
    let f = spec_frame(id, code, payload);
    let cs = checksum_of(body);
    lemma_u32_be_read(id);
    lemma_u16_be_read(code);
    lemma_u16_be_read(payload.len() as u16);
    lemma_u16_be_read(cs);
    assert(f[2] == u32_be(id)[0]);
    assert(f[3] == u32_be(id)[1]);
    assert(f[4] == u32_be(id)[2]);
    assert(f[5] == u32_be(id)[3]);
    assert(f[6] == u16_be(code)[0]);
    assert(f[7] == u16_be(code)[1]);
    assert(f[8] == u16_be(payload.len() as u16)[0]);
    assert(f[9] == u16_be(payload.len() as u16)[1]);
    assert(f[HEADER_LEN + payload.len()] == u16_be(cs)[0]);
    assert(f[HEADER_LEN + payload.len() + 1] == u16_be(cs)[1]);
}

/// What the decoder makes of any encoded frame: the registry's length
/// rule decides between a length mismatch and a complete message carrying
/// the original id and payload.
pub proof fn lemma_decode_frame(id: u32, code: u16, payload: Seq<u8>)
    requires
        payload.len() <= MAX_PAYLOAD_LEN,
    ensures
        ({
            let f = spec_frame(id, code, payload);
            let complete = DecodeModel::Complete(
                MessageModel { id, kind: kind_of_frame(code, payload), payload },
                FRAME_OVERHEAD + payload.len(),
            );
            spec_decode(f) == match registry_payload_len(code) {
                Some(expected) => if payload.len() != expected {
                    DecodeModel::Invalid(FrameError::LengthMismatch)
                } else {
                    complete
                },
                None => complete,
            }
        }),
{
    lemma_frame_fields(id, code, payload);
}

/// Round trip: decoding an encoded frame gives back the message that was
/// encoded.
///
/// For every encodable kind, id and payload of the shape the registry
/// expects for that kind, decoding the frame `encode` produces yields
/// exactly `Complete` of the same id, kind and payload, consuming the
/// whole frame.
pub proof fn lemma_round_trip(id: u32, kind: MessageKind, payload: Seq<u8>)
    requires
        kind_encodable(kind),
        payload_matches_kind(kind, payload),
    ensures
        spec_decode(spec_frame(id, code_of_kind(kind), payload)) == DecodeModel::Complete(
            MessageModel { id, kind, payload },
            FRAME_OVERHEAD + payload.len(),
        ),
{
    lemma_decode_frame(id, code_of_kind(kind), payload);
}

/// Unknown type tolerance: a well-formed frame whose type code has no
/// registry entry decodes as `Unknown` with its raw payload bytes
/// attached, not as a framing error.
pub proof fn lemma_unknown_type_tolerance(id: u32, code: u16, payload: Seq<u8>)
    requires
        code < ACK_FLAG,
        code != 0x0001,
        code != 0x0020,
        code != 0x0021,
        payload.len() <= MAX_PAYLOAD_LEN,
    ensures
        spec_decode(spec_frame(id, code, payload)) == DecodeModel::Complete(
            MessageModel { id, kind: MessageKind::Unknown(code), payload },
            FRAME_OVERHEAD + payload.len(),
        ),
{
    lemma_decode_frame(id, code, payload);
}

/// Two integers whose difference is non-zero and smaller than the modulus
/// leave different remainders.
proof fn lemma_mod_shift_changes(a: int, d: int, m: int)
    requires
        0 < m,
        d != 0,
        -m < d < m,
    ensures
        (a + d) % m != a % m,
{
    lemma_fundamental_div_mod(a, m);
    lemma_fundamental_div_mod(a + d, m);
    if (a + d) % m == a % m {
        let k = (a + d) / m - a / m;
        assert(d == m * k) by (nonlinear_arith)
            requires
                a == m * (a / m) + (a % m),
                a + d == m * ((a + d) / m) + ((a + d) % m),
                (a + d) % m == a % m,
                k == (a + d) / m - a / m,
        ;
        assert(k != 0);
        assert(m * k >= m || m * k <= -m) by (nonlinear_arith)
            requires
                0 < m,
                k != 0,
        ;
    }
}

/// Checksum sensitivity: corrupting any single byte of an encoded frame's
/// id, type or payload region makes decoding fail with a checksum
/// mismatch.
///
/// A single-bit flip is a special case, since it always changes the byte
/// it lands in. The marker bytes are covered by
/// [`lemma_marker_corruption_detected`]; a corrupted length field changes
/// where the frame ends, so no single outcome can be promised for it.
pub proof fn lemma_corruption_detected(id: u32, code: u16, payload: Seq<u8>, i: int, v: u8)
    requires
        payload.len() <= MAX_PAYLOAD_LEN,
        2 <= i < HEADER_LEN + payload.len(),
        !(8 <= i < HEADER_LEN),
        v != spec_frame(id, code, payload)[i],
    ensures
        spec_decode(spec_frame(id, code, payload).update(i, v)) == DecodeModel::Invalid(
            FrameError::ChecksumMismatch,
        ),
{
    let body = spec_frame_body(id, code, payload);
    let f = spec_frame(id, code, payload);
    let g = f.update(i, v);
    let l = payload.len() as int;
    lemma_frame_fields(id, code, payload);
    assert(g[0] == 0x44 && g[1] == 0x46);
    assert(read_u16_at(g, 8) == payload.len());
    assert(read_u16_at(g, HEADER_LEN + l) == checksum_of(body));
    let gbody = g.take(HEADER_LEN + l);
    assert(gbody =~= body.update(i, v));
    assert(body[i] == f[i]);
    crate::checksum::lemma_sum_bytes_update(body, i, v);
    crate::checksum::lemma_sum_bytes_nonneg(body);
    let s = crate::checksum::sum_bytes(body);
    let d = v - body[i];
    assert(crate::checksum::sum_bytes(gbody) == s + d);
    lemma_mod_shift_changes(s, d, 0x10000);
    assert(checksum_of(gbody) != checksum_of(body));
}

/// Corrupting either marker byte of an encoded frame makes decoding fail
/// with a bad marker.
pub proof fn lemma_marker_corruption_detected(id: u32, code: u16, payload: Seq<u8>, i: int, v: u8)
    requires
        payload.len() <= MAX_PAYLOAD_LEN,
        0 <= i < 2,
        v != spec_frame(id, code, payload)[i],
    ensures
        spec_decode(spec_frame(id, code, payload).update(i, v)) == DecodeModel::Invalid(
            FrameError::BadMarker,
        ),
{
    lemma_frame_fields(id, code, payload);
}

/// Reads the 16-bit big-endian value at offset `i`.
pub fn read_u16_exec(b: &[u8], i: usize) -> (x: u16)
    requires
        i + 2 <= b@.len(),
    ensures
        x == read_u16_at(b@, i as int),
{
    (b[i] as u16) * 256 + (b[i + 1] as u16)
}

/// Reads the 32-bit big-endian value at offset `i`.
pub fn read_u32_exec(b: &[u8], i: usize) -> (x: u32)
    requires
        i + 4 <= b@.len(),
    ensures
        x == read_u32_at(b@, i as int),
{
    ((b[i] as u32) * 256 + (b[i + 1] as u32)) * 0x10000 + (b[i + 2] as u32) * 256 + (b[i
        + 3] as u32)
}

/// The registry's expected payload length for a wire type code.
fn expected_len_for_code(code: u16) -> (r: Option<usize>)
    ensures
        match r {
            Some(n) => registry_payload_len(code) == Some(n as int),
            None => registry_payload_len(code) == None::<int>,
        },
{
    if code >= ACK_FLAG {
        Some(1)
    } else if code == 0x0001 {
        Some(49)
    } else if code == 0x0020 {
        Some(7)
    } else if code == 0x0021 {
        Some(4)
    } else {
        None
    }
}

/// Decodes the frame at the front of `buffer`, as [`spec_decode`]
/// describes: a complete message with its consumed byte count, a signal
/// that more bytes are needed, or the framing error found.
pub fn decode(buffer: &[u8]) -> (r: DecodeResult)
    ensures
        r@ == spec_decode(buffer@),
{
    let n = buffer.len();
    if n == 0 {
        return DecodeResult::Incomplete;
    }
    if buffer[0] != 0x44 {
        return DecodeResult::Invalid(FrameError::BadMarker);
    }
    if n == 1 {
        return DecodeResult::Incomplete;
    }
    if buffer[1] != 0x46 {
        return DecodeResult::Invalid(FrameError::BadMarker);
    }
    if n < HEADER_LEN {
        return DecodeResult::Incomplete;
    }
    let l = read_u16_exec(buffer, 8) as usize;
    if l > MAX_PAYLOAD_LEN {
        return DecodeResult::Invalid(FrameError::LengthMismatch);
    }
    if n < FRAME_OVERHEAD + l {
        return DecodeResult::Incomplete;
    }
    let stored = read_u16_exec(buffer, HEADER_LEN + l);
    let computed = compute_checksum(buffer, HEADER_LEN + l);
    if stored != computed {
        return DecodeResult::Invalid(FrameError::ChecksumMismatch);
    }
    let code = read_u16_exec(buffer, 6);
    let id = read_u32_exec(buffer, 2);
    let mut payload: Vec<u8> = Vec::new();
    let mut i: usize = HEADER_LEN;
    while i < HEADER_LEN + l
        invariant
            l <= MAX_PAYLOAD_LEN,
            HEADER_LEN <= i <= HEADER_LEN + l,
            HEADER_LEN + l <= buffer@.len(),
            payload@ =~= buffer@.subrange(HEADER_LEN as int, i as int),
        decreases HEADER_LEN + l - i,
    {
        payload.push(buffer[i]);
        i = i + 1;
    }
    match expected_len_for_code(code) {
        Some(expected) => {
            if l != expected {
                return DecodeResult::Invalid(FrameError::LengthMismatch);
            }
        },
        None => {},
    }
    let kind: MessageKind = if code >= ACK_FLAG {
        match ResponseCode::from_byte(payload[0]) {
            Some(rc) => MessageKind::Ack(code - ACK_FLAG, rc),
            None => MessageKind::Unknown(code),
        }
    } else if code == 0x0001 {
        MessageKind::Hi
    } else if code == 0x0020 {
        MessageKind::Dmx
    } else if code == 0x0021 {
        MessageKind::GuiOut
    } else {
        MessageKind::Unknown(code)
    };
    DecodeResult::Complete(Message { id, kind, payload }, FRAME_OVERHEAD + l)
}

} // verus!
