//! Stream reassembler behaviour: partial delivery, resynchronization,
//! and independence from chunk boundaries.

use dragon_dmc::codec::encode;
use dragon_dmc::reassembler::{FrameEvent, Reassembler};
use dragon_dmc::types::{FrameError, MessageKind};

fn gui_frame(id: u32, triggers: u8) -> Vec<u8> {
    encode(id, &MessageKind::GuiOut, &vec![0, 0, 0, triggers]).unwrap()
}

fn feed_all(r: &mut Reassembler, bytes: &[u8], chunk: usize) -> Vec<FrameEvent> {
    let mut events = Vec::new();
    for piece in bytes.chunks(chunk) {
        events.extend(r.feed(&piece.to_vec()));
    }
    events
}

#[test]
fn partial_delivery_byte_at_a_time() {
    let frame = gui_frame(11, 5);
    let mut r = Reassembler::new();
    for (i, b) in frame.iter().enumerate() {
        let events = r.feed(&vec![*b]);
        if i + 1 < frame.len() {
            assert!(events.is_empty(), "spurious event after byte {}", i);
        } else {
            assert_eq!(events.len(), 1);
            match &events[0] {
                FrameEvent::Decoded(m) => {
                    assert_eq!(m.id, 11);
                    assert_eq!(m.kind, MessageKind::GuiOut);
                }
                other => panic!("expected a decode, got {:?}", other),
            }
        }
    }
}

#[test]
fn resynchronization_across_junk() {
    // A valid frame, five junk bytes free of the marker byte, then a
    // second valid frame: exactly the two messages come out, with one
    // error per junk byte between them, whatever the chunking.
    let f1 = gui_frame(1, 10);
    let f2 = gui_frame(2, 20);
    let junk = [0x00u8, 0xFF, 0x13, 0x99, 0x7E];
    let mut stream = Vec::new();
    stream.extend_from_slice(&f1);
    stream.extend_from_slice(&junk);
    stream.extend_from_slice(&f2);

    for chunk in [1usize, 2, 3, 7, stream.len()] {
        let mut r = Reassembler::new();
        let events = feed_all(&mut r, &stream, chunk);
        assert_eq!(events.len(), 7, "chunk size {}", chunk);
        match &events[0] {
            FrameEvent::Decoded(m) => assert_eq!(m.id, 1),
            other => panic!("expected first decode, got {:?}", other),
        }
        for e in &events[1..6] {
            assert!(matches!(e, FrameEvent::Error(FrameError::BadMarker)));
        }
        match &events[6] {
            FrameEvent::Decoded(m) => assert_eq!(m.id, 2),
            other => panic!("expected second decode, got {:?}", other),
        }
    }
}

#[test]
fn corruption_inside_frame_costs_one_byte() {
    // Corrupt a payload byte of the first frame: the reassembler reports
    // the checksum failure, discards a single byte at a time, and still
    // finds the second frame.
    let mut f1 = gui_frame(1, 1);
    f1[12] ^= 0x40;
    let f2 = gui_frame(2, 2);
    let mut stream = f1.clone();
    stream.extend_from_slice(&f2);

    let mut r = Reassembler::new();
    let events = feed_all(&mut r, &stream, 1);
    assert!(matches!(
        events[0],
        FrameEvent::Error(FrameError::ChecksumMismatch)
    ));
    let decoded: Vec<u32> = events
        .iter()
        .filter_map(|e| match e {
            FrameEvent::Decoded(m) => Some(m.id),
            FrameEvent::Error(_) => None,
        })
        .collect();
    assert_eq!(decoded, vec![2], "only the intact frame may decode");
}

#[test]
fn back_to_back_frames_one_feed() {
    let f1 = gui_frame(1, 1);
    let f2 = gui_frame(2, 2);
    let f3 = gui_frame(3, 3);
    let mut stream = Vec::new();
    stream.extend_from_slice(&f1);
    stream.extend_from_slice(&f2);
    stream.extend_from_slice(&f3);

    let mut r = Reassembler::new();
    let events = r.feed(&stream);
    let ids: Vec<u32> = events
        .iter()
        .map(|e| match e {
            FrameEvent::Decoded(m) => m.id,
            other => panic!("unexpected {:?}", other),
        })
        .collect();
    assert_eq!(ids, vec![1, 2, 3]);
}

#[test]
fn empty_feed_is_silent() {
    let mut r = Reassembler::new();
    assert!(r.feed(&Vec::new()).is_empty());
    let half = gui_frame(4, 4)[..8].to_vec();
    assert!(r.feed(&half).is_empty());
    assert!(r.feed(&Vec::new()).is_empty());
}
