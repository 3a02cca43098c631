//! Frame codec behaviour: round trips, checksum sensitivity, error
//! reporting and unknown-type tolerance.

use dragon_dmc::codec::{decode, encode, encode_frame, verify_frame_checksum, DecodeResult};
use dragon_dmc::types::{EncodingError, FrameError, MessageKind, ResponseCode};

fn hi_payload() -> Vec<u8> {
    let mut p = vec![0u8; 49];
    for (i, b) in p.iter_mut().enumerate() {
        *b = i as u8;
    }
    p
}

fn expect_complete(frame: &[u8]) -> (dragon_dmc::types::Message, usize) {
    match decode(frame) {
        DecodeResult::Complete(m, n) => (m, n),
        other => panic!("expected a complete decode, got {:?}", other),
    }
}

#[test]
fn round_trip_hi() {
    let payload = hi_payload();
    let frame = encode(7, &MessageKind::Hi, &payload).unwrap();
    let (m, n) = expect_complete(&frame);
    assert_eq!(n, frame.len());
    assert_eq!(m.id, 7);
    assert_eq!(m.kind, MessageKind::Hi);
    assert_eq!(m.payload, payload);
}

#[test]
fn round_trip_dmx() {
    let payload = vec![1u8, 0x01, 0x02, 10, 20, 30, 40];
    let frame = encode(0xDEADBEEF, &MessageKind::Dmx, &payload).unwrap();
    let (m, n) = expect_complete(&frame);
    assert_eq!(n, frame.len());
    assert_eq!(m.id, 0xDEADBEEF);
    assert_eq!(m.kind, MessageKind::Dmx);
    assert_eq!(m.payload, payload);
}

#[test]
fn round_trip_gui_out() {
    let payload = vec![0u8, 0, 0, 0b1010];
    let frame = encode(3, &MessageKind::GuiOut, &payload).unwrap();
    let (m, n) = expect_complete(&frame);
    assert_eq!(n, frame.len());
    assert_eq!(m.kind, MessageKind::GuiOut);
    assert_eq!(m.payload, payload);
}

#[test]
fn round_trip_ack() {
    let kind = MessageKind::Ack(0x0020, ResponseCode::ErrRange);
    let payload = vec![ResponseCode::ErrRange.to_byte()];
    let frame = encode(42, &kind, &payload).unwrap();
    let (m, n) = expect_complete(&frame);
    assert_eq!(n, frame.len());
    assert_eq!(m.id, 42);
    assert_eq!(m.kind, kind);
    assert_eq!(m.payload, payload);
}

#[test]
fn round_trip_ack_every_response_code() {
    let codes = [
        ResponseCode::Okay,
        ResponseCode::ErrChecksum,
        ResponseCode::ErrMoving,
        ResponseCode::ErrUnsupported,
        ResponseCode::ErrRange,
        ResponseCode::ErrGeneral,
        ResponseCode::ErrSoftUp,
        ResponseCode::ErrSoftLow,
        ResponseCode::ErrHardUp,
        ResponseCode::ErrHardLow,
    ];
    for (i, rc) in codes.into_iter().enumerate() {
        let kind = MessageKind::Ack(0x0001, rc);
        let frame = encode(i as u32, &kind, &vec![rc.to_byte()]).unwrap();
        let (m, _) = expect_complete(&frame);
        assert_eq!(m.kind, kind);
        assert_eq!(m.payload, vec![rc.to_byte()]);
    }
}

#[test]
fn exact_frame_bytes() {
    // GuiOut frame, id 1, payload of four zero bytes: byte sum is
    // 0x44 + 0x46 + 1 + 0x21 + 4 = 176.
    let frame = encode_frame(1, 0x0021, &vec![0u8, 0, 0, 0]);
    assert_eq!(
        frame,
        vec![
            0x44, 0x46, // marker
            0, 0, 0, 1, // id
            0x00, 0x21, // type
            0x00, 0x04, // length
            0, 0, 0, 0, // payload
            0, 176, // checksum
        ]
    );
}

#[test]
fn checksum_sensitivity_every_bit() {
    // Flipping any single bit of the id, type or payload region must
    // yield a checksum mismatch; the marker region yields a bad marker.
    let payload = vec![9u8, 8, 7, 6, 5, 4, 3];
    let frame = encode(0x01020304, &MessageKind::Dmx, &payload).unwrap();
    let payload_end = 10 + payload.len();
    for i in 0..payload_end {
        if (8..10).contains(&i) {
            continue; // corrupting the length field moves the frame end
        }
        for bit in 0..8 {
            let mut corrupt = frame.clone();
            corrupt[i] ^= 1 << bit;
            match decode(&corrupt) {
                DecodeResult::Invalid(FrameError::BadMarker) => assert!(i < 2),
                DecodeResult::Invalid(FrameError::ChecksumMismatch) => assert!(i >= 2),
                other => panic!("byte {} bit {}: unexpected {:?}", i, bit, other),
            }
        }
    }
}

#[test]
fn corrupted_checksum_field_detected() {
    let frame = encode(5, &MessageKind::GuiOut, &vec![1u8, 2, 3, 4]).unwrap();
    let mut corrupt = frame.clone();
    let last = corrupt.len() - 1;
    corrupt[last] ^= 0x01;
    assert!(matches!(
        decode(&corrupt),
        DecodeResult::Invalid(FrameError::ChecksumMismatch)
    ));
}

#[test]
fn unknown_type_tolerance() {
    let payload = vec![0xAAu8, 0xBB, 0xCC];
    let frame = encode_frame(9, 0x0300, &payload);
    let (m, n) = expect_complete(&frame);
    assert_eq!(n, frame.len());
    assert_eq!(m.id, 9);
    assert_eq!(m.kind, MessageKind::Unknown(0x0300));
    assert_eq!(m.payload, payload);
}

#[test]
fn unknown_response_byte_decodes_as_unknown() {
    // A well-formed acknowledgement whose response byte is outside the
    // closed set is tolerated as an unknown message, not an error.
    let frame = encode_frame(1, 0x8001, &vec![0xEEu8]);
    let (m, _) = expect_complete(&frame);
    assert_eq!(m.kind, MessageKind::Unknown(0x8001));
    assert_eq!(m.payload, vec![0xEE]);
}

#[test]
fn encode_rejects_oversized_payload() {
    let payload = vec![0u8; 2049];
    assert_eq!(
        encode(1, &MessageKind::Hi, &payload),
        Err(EncodingError::PayloadTooLarge)
    );
}

#[test]
fn encode_accepts_maximum_payload() {
    let payload = vec![0u8; 2048];
    let frame = encode_frame(1, 0x0300, &payload);
    assert_eq!(frame.len(), 2048 + 12);
    let (m, _) = expect_complete(&frame);
    assert_eq!(m.payload.len(), 2048);
}

#[test]
fn encode_rejects_unknown_kind() {
    assert_eq!(
        encode(1, &MessageKind::Unknown(0x0300), &Vec::new()),
        Err(EncodingError::UnknownKind)
    );
    // An acknowledged base code that does not fit in 15 bits has no
    // registry entry either.
    assert_eq!(
        encode(1, &MessageKind::Ack(0x8000, ResponseCode::Okay), &Vec::new()),
        Err(EncodingError::UnknownKind)
    );
}

#[test]
fn decode_reports_bad_marker() {
    assert!(matches!(
        decode(&[0x45, 0x46, 0, 0]),
        DecodeResult::Invalid(FrameError::BadMarker)
    ));
    assert!(matches!(
        decode(&[0x44, 0x47, 0, 0]),
        DecodeResult::Invalid(FrameError::BadMarker)
    ));
}

#[test]
fn decode_reports_length_mismatch_for_wrong_shape() {
    // A Hi frame must carry 49 payload bytes; 3 is a shape error.
    let frame = encode_frame(1, 0x0001, &vec![1u8, 2, 3]);
    assert!(matches!(
        decode(&frame),
        DecodeResult::Invalid(FrameError::LengthMismatch)
    ));
}

#[test]
fn decode_reports_length_mismatch_for_oversized_declaration() {
    // Header declaring a 0x0900 = 2304 byte payload: over the bound.
    let header = [0x44u8, 0x46, 0, 0, 0, 1, 0x00, 0x21, 0x09, 0x00];
    assert!(matches!(
        decode(&header),
        DecodeResult::Invalid(FrameError::LengthMismatch)
    ));
}

#[test]
fn decode_incomplete_on_partial_input() {
    let frame = encode(1, &MessageKind::GuiOut, &vec![0u8, 0, 0, 1]).unwrap();
    assert!(matches!(decode(&[]), DecodeResult::Incomplete));
    for k in 1..frame.len() {
        assert!(
            matches!(decode(&frame[..k]), DecodeResult::Incomplete),
            "prefix of {} bytes should be incomplete",
            k
        );
    }
}

#[test]
fn verify_checksum_accepts_encoded_and_rejects_corrupt() {
    let frame = encode(6, &MessageKind::GuiOut, &vec![1u8, 2, 3, 4]).unwrap();
    assert!(verify_frame_checksum(&frame));
    let mut corrupt = frame.clone();
    corrupt[4] ^= 0x10;
    assert!(!verify_frame_checksum(&corrupt));
    assert!(!verify_frame_checksum(&[]));
    assert!(!verify_frame_checksum(&[0x44]));
}

#[test]
fn checksum_failure_takes_precedence_over_shape() {
    // Wrong payload shape for Hi *and* a corrupted payload byte: the
    // checksum verdict must come first.
    let mut frame = encode_frame(1, 0x0001, &vec![1u8, 2, 3]);
    frame[10] ^= 0x80;
    assert!(matches!(
        decode(&frame),
        DecodeResult::Invalid(FrameError::ChecksumMismatch)
    ));
}
