//! Session correlator behaviour: correlation, stray responses, retry
//! and timeout policy, queueing and cancellation.

use dragon_dmc::codec::encode;
use dragon_dmc::correlator::{SessionCorrelator, SessionEvent, TickOutcome};
use dragon_dmc::reassembler::FrameEvent;
use dragon_dmc::types::{EncodingError, MessageKind, ResponseCode};

fn gui_payload(triggers: u8) -> Vec<u8> {
    vec![0, 0, 0, triggers]
}

fn ack_frame_for(id: u32) -> dragon_dmc::types::Message {
    dragon_dmc::types::Message {
        id,
        kind: MessageKind::Ack(0x0021, ResponseCode::Okay),
        payload: vec![ResponseCode::Okay.to_byte()],
    }
}

#[test]
fn send_dispatches_encoded_frame() {
    let mut c = SessionCorrelator::new(10, 2);
    let out = c.send(&MessageKind::GuiOut, &gui_payload(1), 0).unwrap();
    let expected = encode(out.id, &MessageKind::GuiOut, &gui_payload(1)).unwrap();
    assert_eq!(out.wire, Some(expected));
    assert_eq!(c.pending_id(), Some(out.id));
}

#[test]
fn stray_response_leaves_request_pending() {
    let mut c = SessionCorrelator::new(10, 2);
    let out = c.send(&MessageKind::GuiOut, &gui_payload(1), 0).unwrap();
    let stray = ack_frame_for(out.id.wrapping_add(5));
    let (event, wire) = c.on_frame_event(FrameEvent::Decoded(stray.clone()), 1);
    match event {
        SessionEvent::StrayResponse(m) => assert_eq!(m.id, stray.id),
        other => panic!("expected a stray response, got {:?}", other),
    }
    assert!(wire.is_none());
    assert_eq!(c.pending_id(), Some(out.id), "request must stay pending");
}

#[test]
fn matching_response_resolves() {
    let mut c = SessionCorrelator::new(10, 2);
    let out = c.send(&MessageKind::GuiOut, &gui_payload(1), 0).unwrap();
    let reply = ack_frame_for(out.id);
    let (event, wire) = c.on_frame_event(FrameEvent::Decoded(reply), 1);
    assert!(matches!(event, SessionEvent::Resolved(_)));
    assert!(wire.is_none());
    assert_eq!(c.pending_id(), None);
}

#[test]
fn retry_twice_then_timeout() {
    // retries = 2, timeout = 10, no response ever arrives: the identical
    // frame goes out again at ticks 10 and 20, the request times out at
    // tick 30, and nothing further is ever sent.
    let mut c = SessionCorrelator::new(10, 2);
    let out = c.send(&MessageKind::GuiOut, &gui_payload(7), 0).unwrap();
    let frame = out.wire.clone().unwrap();

    assert!(matches!(c.tick(5), TickOutcome::Idle));
    match c.tick(10) {
        TickOutcome::Resend(id, f) => {
            assert_eq!(id, out.id);
            assert_eq!(f, frame, "the re-sent frame must be identical");
        }
        other => panic!("expected first re-send, got {:?}", other),
    }
    assert!(matches!(c.tick(15), TickOutcome::Idle));
    match c.tick(20) {
        TickOutcome::Resend(id, f) => {
            assert_eq!(id, out.id);
            assert_eq!(f, frame);
        }
        other => panic!("expected second re-send, got {:?}", other),
    }
    match c.tick(30) {
        TickOutcome::Timeout(id, wire) => {
            assert_eq!(id, out.id);
            assert!(wire.is_none());
        }
        other => panic!("expected a timeout, got {:?}", other),
    }
    assert!(matches!(c.tick(40), TickOutcome::Idle));
    assert!(matches!(c.tick(u64::MAX), TickOutcome::Idle));
    assert_eq!(c.pending_id(), None);
}

#[test]
fn second_send_queues_until_first_resolves() {
    let mut c = SessionCorrelator::new(10, 2);
    let first = c.send(&MessageKind::GuiOut, &gui_payload(1), 0).unwrap();
    let second = c.send(&MessageKind::GuiOut, &gui_payload(2), 0).unwrap();
    assert!(first.wire.is_some());
    assert!(second.wire.is_none(), "link busy: second send is queued");
    assert_ne!(first.id, second.id);
    assert_eq!(c.queued_count(), 1);

    let (event, wire) = c.on_frame_event(FrameEvent::Decoded(ack_frame_for(first.id)), 3);
    assert!(matches!(event, SessionEvent::Resolved(_)));
    let expected = encode(second.id, &MessageKind::GuiOut, &gui_payload(2)).unwrap();
    assert_eq!(wire, Some(expected), "queued request goes out on resolve");
    assert_eq!(c.pending_id(), Some(second.id));
    assert_eq!(c.queued_count(), 0);
}

#[test]
fn fresh_id_skips_pending_id() {
    let mut c = SessionCorrelator::new(10, 0);
    let first = c.send(&MessageKind::GuiOut, &gui_payload(1), 0).unwrap();
    let second = c.send(&MessageKind::GuiOut, &gui_payload(2), 0).unwrap();
    // The second id is allocated while the first is still pending.
    assert_ne!(second.id, first.id);
}

#[test]
fn timeout_dispatches_next_queued() {
    let mut c = SessionCorrelator::new(10, 0);
    let first = c.send(&MessageKind::GuiOut, &gui_payload(1), 0).unwrap();
    let second = c.send(&MessageKind::GuiOut, &gui_payload(2), 0).unwrap();
    match c.tick(10) {
        TickOutcome::Timeout(id, wire) => {
            assert_eq!(id, first.id);
            let expected = encode(second.id, &MessageKind::GuiOut, &gui_payload(2)).unwrap();
            assert_eq!(wire, Some(expected));
        }
        other => panic!("expected a timeout with a dispatch, got {:?}", other),
    }
    assert_eq!(c.pending_id(), Some(second.id));
}

#[test]
fn cancel_removes_pending_and_dispatches_next() {
    let mut c = SessionCorrelator::new(10, 2);
    let first = c.send(&MessageKind::GuiOut, &gui_payload(1), 0).unwrap();
    let second = c.send(&MessageKind::GuiOut, &gui_payload(2), 0).unwrap();
    let (cancelled, wire) = c.cancel(first.id, 1);
    assert!(cancelled);
    assert!(wire.is_some());
    assert_eq!(c.pending_id(), Some(second.id));

    // A late response for the cancelled id is a stray now.
    let (event, _) = c.on_frame_event(FrameEvent::Decoded(ack_frame_for(first.id)), 2);
    assert!(matches!(event, SessionEvent::StrayResponse(_)));
}

#[test]
fn cancel_of_unknown_id_does_nothing() {
    let mut c = SessionCorrelator::new(10, 2);
    let out = c.send(&MessageKind::GuiOut, &gui_payload(1), 0).unwrap();
    let (cancelled, wire) = c.cancel(out.id.wrapping_add(1), 1);
    assert!(!cancelled);
    assert!(wire.is_none());
    assert_eq!(c.pending_id(), Some(out.id));
}

#[test]
fn framing_errors_pass_through() {
    let mut c = SessionCorrelator::new(10, 2);
    let out = c.send(&MessageKind::GuiOut, &gui_payload(1), 0).unwrap();
    let (event, wire) = c.on_frame_event(
        FrameEvent::Error(dragon_dmc::types::FrameError::ChecksumMismatch),
        1,
    );
    assert!(matches!(
        event,
        SessionEvent::FramingError(dragon_dmc::types::FrameError::ChecksumMismatch)
    ));
    assert!(wire.is_none());
    assert_eq!(c.pending_id(), Some(out.id));
}

#[test]
fn send_surfaces_encoding_errors_untouched() {
    let mut c = SessionCorrelator::new(10, 2);
    assert_eq!(
        c.send(&MessageKind::Unknown(0x300), &Vec::new(), 0),
        Err(EncodingError::UnknownKind)
    );
    assert_eq!(
        c.send(&MessageKind::GuiOut, &vec![0u8; 2049], 0),
        Err(EncodingError::PayloadTooLarge)
    );
    assert_eq!(c.pending_id(), None);
    assert_eq!(c.queued_count(), 0);
}

#[test]
fn response_to_earlier_request_after_resolve_is_stray() {
    let mut c = SessionCorrelator::new(10, 2);
    let first = c.send(&MessageKind::GuiOut, &gui_payload(1), 0).unwrap();
    let (event, _) = c.on_frame_event(FrameEvent::Decoded(ack_frame_for(first.id)), 1);
    assert!(matches!(event, SessionEvent::Resolved(_)));
    // The same id again: nothing is pending under it any more.
    let (event, _) = c.on_frame_event(FrameEvent::Decoded(ack_frame_for(first.id)), 2);
    assert!(matches!(event, SessionEvent::StrayResponse(_)));
}
