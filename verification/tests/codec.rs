use educational_key_logger::codec::{decode, encode, encode_frame, DecodeError, PAYLOAD_LEN};
use educational_key_logger::input::{EventType, EventValue, InputEvent, TimeVal};

fn event(event_type: EventType, code: u16, value: i32, sec: i64, usec: i64) -> InputEvent {
    InputEvent {
        time: TimeVal {
            tv_sec: sec,
            tv_usec: usec,
        },
        event_type,
        code,
        value: EventValue(value),
    }
}

#[test]
fn encode_is_fixed_width() {
    let e = event(EventType::Key, 30, 1, 0, 0);
    let bytes = encode(&e);
    assert_eq!(bytes.len(), PAYLOAD_LEN);
    assert_eq!(bytes.len(), 24);
    assert!(bytes.len() <= 255);
}

#[test]
fn encode_layout_is_little_endian() {
    let e = event(EventType::Key, 0x1234, 0x01020304, 1, 2);
    let bytes = encode(&e);
    assert_eq!(&bytes[0..8], &[1, 0, 0, 0, 0, 0, 0, 0]);
    assert_eq!(&bytes[8..16], &[2, 0, 0, 0, 0, 0, 0, 0]);
    assert_eq!(&bytes[16..18], &[0x01, 0x00]);
    assert_eq!(&bytes[18..20], &[0x34, 0x12]);
    assert_eq!(&bytes[20..24], &[0x04, 0x03, 0x02, 0x01]);
}

#[test]
fn round_trip_simple_key_event() {
    let e = event(EventType::Key, 30, 1, 1700000000, 123456);
    assert_eq!(decode(&encode(&e)), Ok(e));
}

#[test]
fn round_trip_negative_times_and_values() {
    let e = event(EventType::Key, 65535, -1, -5, -999999);
    assert_eq!(decode(&encode(&e)), Ok(e));
    let e = event(EventType::Key, 0, i32::MIN, i64::MIN, i64::MAX);
    assert_eq!(decode(&encode(&e)), Ok(e));
    let e = event(EventType::Key, 0, i32::MAX, i64::MAX, i64::MIN);
    assert_eq!(decode(&encode(&e)), Ok(e));
}

#[test]
fn round_trip_every_event_class() {
    let classes = [
        EventType::Syn,
        EventType::Key,
        EventType::Rel,
        EventType::Abs,
        EventType::Msc,
        EventType::Sw,
        EventType::Led,
        EventType::Snd,
        EventType::Rep,
        EventType::Ff,
        EventType::Pwr,
        EventType::FfStatus,
    ];
    for (i, class) in classes.iter().enumerate() {
        let e = event(*class, i as u16, i as i32, i as i64, -(i as i64));
        assert_eq!(decode(&encode(&e)), Ok(e));
    }
}

#[test]
fn decode_rejects_truncated_payload() {
    let e = event(EventType::Key, 30, 1, 0, 0);
    let bytes = encode(&e);
    assert_eq!(decode(&bytes[..23]), Err(DecodeError::WrongLength));
    assert_eq!(decode(&[]), Err(DecodeError::WrongLength));
}

#[test]
fn decode_rejects_padded_payload() {
    let e = event(EventType::Key, 30, 1, 0, 0);
    let mut bytes = encode(&e);
    bytes.push(0);
    assert_eq!(decode(&bytes), Err(DecodeError::WrongLength));
}

#[test]
fn decode_rejects_unknown_event_class() {
    let e = event(EventType::Key, 30, 1, 0, 0);
    let mut bytes = encode(&e);
    // Overwrite the event-class enumerant with a value no class maps to.
    bytes[16] = 0xff;
    bytes[17] = 0xff;
    assert_eq!(decode(&bytes), Err(DecodeError::UnknownEventType));
}

#[test]
fn frame_is_length_prefixed_payload() {
    let e = event(EventType::Key, 30, 1, 7, 8);
    let frame = encode_frame(&e);
    assert_eq!(frame.len(), PAYLOAD_LEN + 1);
    assert_eq!(frame[0] as usize, PAYLOAD_LEN);
    assert_eq!(&frame[1..], &encode(&e)[..]);
}

#[test]
fn event_class_enumerants_follow_the_device_convention() {
    assert_eq!(EventType::Syn.wire_code(), 0x00);
    assert_eq!(EventType::Key.wire_code(), 0x01);
    assert_eq!(EventType::Rel.wire_code(), 0x02);
    assert_eq!(EventType::Abs.wire_code(), 0x03);
    assert_eq!(EventType::FfStatus.wire_code(), 0x17);
    assert_eq!(EventType::from_wire_code(0x01), Some(EventType::Key));
    assert_eq!(EventType::from_wire_code(0x06), None);
    assert_eq!(EventType::from_wire_code(0xffff), None);
}
