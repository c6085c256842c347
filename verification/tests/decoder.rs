use educational_key_logger::codec::{encode, encode_frame};
use educational_key_logger::decoder::StreamReadHandler;
use educational_key_logger::input::{EventType, EventValue, InputEvent, TimeVal};
use educational_key_logger::keycodes::{KEY_A, KEY_B, KEY_C};

fn key_event(code: u16, value: i32) -> InputEvent {
    InputEvent {
        time: TimeVal {
            tv_sec: 0,
            tv_usec: 0,
        },
        event_type: EventType::Key,
        code,
        value: EventValue(value),
    }
}

fn handler() -> StreamReadHandler {
    StreamReadHandler::new(String::from("peer"))
}

#[test]
fn whole_frame_in_one_chunk() {
    let e = key_event(KEY_A, 1);
    let mut h = handler();
    assert!(h.read_buffer(&encode_frame(&e)).is_ok());
    assert_eq!(h.pending_events().as_slice(), &[e]);
}

#[test]
fn many_frames_in_one_chunk() {
    let events = [key_event(KEY_A, 1), key_event(KEY_A, 0), key_event(KEY_B, 1)];
    let mut bytes = Vec::new();
    for e in &events {
        bytes.extend_from_slice(&encode_frame(e));
    }
    let mut h = handler();
    assert!(h.read_buffer(&bytes).is_ok());
    assert_eq!(h.pending_events().as_slice(), &events);
}

#[test]
fn one_byte_at_a_time_decodes_identically() {
    let events = [key_event(KEY_A, 1), key_event(KEY_C, 1), key_event(KEY_C, 0)];
    let mut bytes = Vec::new();
    for e in &events {
        bytes.extend_from_slice(&encode_frame(e));
    }

    let mut all_at_once = handler();
    assert!(all_at_once.read_buffer(&bytes).is_ok());

    let mut byte_by_byte = handler();
    for b in &bytes {
        assert!(byte_by_byte.read_buffer(&[*b]).is_ok());
    }

    assert_eq!(
        byte_by_byte.pending_events().as_slice(),
        all_at_once.pending_events().as_slice()
    );
    assert_eq!(byte_by_byte.pending_events().as_slice(), &events);
}

#[test]
fn frame_split_at_every_position_decodes_identically() {
    let e = key_event(KEY_B, 1);
    let frame = encode_frame(&e);
    for split in 0..frame.len() {
        let mut h = handler();
        assert!(h.read_buffer(&frame[..split]).is_ok());
        assert!(h.read_buffer(&frame[split..]).is_ok());
        assert_eq!(h.pending_events().as_slice(), &[e]);
    }
}

#[test]
fn length_mismatch_is_fatal_and_yields_no_event() {
    // Declares 10 payload bytes: no valid encoding is 10 bytes long.
    let mut bytes = vec![10u8];
    bytes.extend_from_slice(&[0u8; 10]);
    let mut h = handler();
    assert!(h.read_buffer(&bytes).is_err());
    assert!(h.pending_events().is_empty());
}

#[test]
fn non_key_event_frame_is_fatal() {
    let e = InputEvent {
        time: TimeVal {
            tv_sec: 0,
            tv_usec: 0,
        },
        event_type: EventType::Rel,
        code: 0,
        value: EventValue(5),
    };
    let mut h = handler();
    let err = h.read_buffer(&encode_frame(&e)).unwrap_err();
    assert!(err.message().contains("not a key event"));
    assert!(h.pending_events().is_empty());
}

#[test]
fn garbage_payload_is_fatal() {
    let mut bytes = vec![24u8];
    let mut payload = encode(&key_event(KEY_A, 1));
    // Corrupt the event-class enumerant.
    payload[16] = 0xee;
    payload[17] = 0xee;
    bytes.extend_from_slice(&payload);
    let mut h = handler();
    let err = h.read_buffer(&bytes).unwrap_err();
    assert!(err.message().contains("invalid"));
    assert!(h.pending_events().is_empty());
}

#[test]
fn zero_length_prefix_is_fatal_once_more_bytes_arrive() {
    let mut h = handler();
    // The prefix byte alone is consumed without error.
    assert!(h.read_buffer(&[0u8]).is_ok());
    // The empty payload can encode nothing, so the next byte condemns the
    // connection.
    assert!(h.read_buffer(&[1u8]).is_err());
    assert!(h.pending_events().is_empty());
}

#[test]
fn violation_mid_chunk_keeps_earlier_frames_only() {
    let good = key_event(KEY_A, 1);
    let mut bytes = Vec::new();
    bytes.extend_from_slice(&encode_frame(&good));
    // A frame whose declared length no valid encoding matches.
    bytes.push(3);
    bytes.extend_from_slice(&[9, 9, 9]);
    let mut h = handler();
    assert!(h.read_buffer(&bytes).is_err());
    assert_eq!(h.pending_events().as_slice(), &[good]);
}

#[test]
fn timeout_flush_emits_line_and_clears_batch() {
    let mut h = handler();
    let presses = [key_event(KEY_A, 1), key_event(KEY_A, 0), key_event(KEY_B, 1)];
    let mut bytes = Vec::new();
    for e in &presses {
        bytes.extend_from_slice(&encode_frame(e));
    }
    assert!(h.read_buffer(&bytes).is_ok());
    assert!(h.has_pending_events());

    let line = h.handle_input_events();
    assert_eq!(line.as_deref(), Some("peer: ab"));
    assert!(!h.has_pending_events());

    // The batch was cleared: a second timeout has nothing to say.
    assert_eq!(h.handle_input_events(), None);
}

#[test]
fn flush_with_empty_batch_produces_no_line() {
    let mut h = handler();
    assert_eq!(h.handle_input_events(), None);
}

#[test]
fn flush_with_no_visible_text_produces_no_line() {
    // A lone release reconstructs to the empty string: nothing is printed.
    let mut h = handler();
    assert!(h.read_buffer(&encode_frame(&key_event(KEY_A, 0))).is_ok());
    assert!(h.has_pending_events());
    assert_eq!(h.handle_input_events(), None);
    assert!(!h.has_pending_events());
}

#[test]
fn flush_does_not_disturb_a_partial_frame() {
    let first = key_event(KEY_A, 1);
    let second = key_event(KEY_B, 1);
    let mut h = handler();
    let frame = encode_frame(&second);
    let mut bytes = encode_frame(&first);
    bytes.extend_from_slice(&frame[..7]);
    assert!(h.read_buffer(&bytes).is_ok());

    assert_eq!(h.handle_input_events().as_deref(), Some("peer: a"));

    // The rest of the split frame still completes after the flush.
    assert!(h.read_buffer(&frame[7..]).is_ok());
    assert_eq!(h.pending_events().as_slice(), &[second]);
    assert_eq!(h.handle_input_events().as_deref(), Some("peer: b"));
}

#[test]
fn new_handler_remembers_peer_identity() {
    let h = StreamReadHandler::new(String::from("10.0.0.7:4242"));
    assert_eq!(h.peer_addr(), "10.0.0.7:4242");
    assert!(!h.has_pending_events());
}
