use educational_key_logger::errors::{InputEventError, InvalidEncodedInputEventError};
use educational_key_logger::input::{EventType, EventValue, InputEvent, TimeVal};
use educational_key_logger::keycodes::{
    KEY_A, KEY_CAPSLOCK, KEY_KPPLUS, KEY_LEFTSHIFT, KEY_SPACE, KEY_SYSRQ, KEY_UP,
};

fn key_event(code: u16, value: i32) -> InputEvent {
    InputEvent {
        time: TimeVal {
            tv_sec: 0,
            tv_usec: 0,
        },
        event_type: EventType::Key,
        code,
        value: EventValue(value),
    }
}

#[test]
fn event_value_constructor_and_predicates() {
    assert!(EventValue::new(0).is_key_released());
    assert!(!EventValue::new(0).is_key_pressed());
    assert!(EventValue::new(1).is_key_pressed());
    assert!(EventValue::new(2).is_key_repeated());
    let odd = EventValue::new(17);
    assert!(!odd.is_key_released() && !odd.is_key_pressed() && !odd.is_key_repeated());
}

#[test]
fn event_value_labels() {
    assert_eq!(EventValue::new(0).to_string(), Some("Released"));
    assert_eq!(EventValue::new(1).to_string(), Some("Pressed"));
    assert_eq!(EventValue::new(2).to_string(), Some("Repeated"));
    assert_eq!(EventValue::new(3).to_string(), None);
    assert_eq!(EventValue::new(-1).to_string(), None);
}

#[test]
fn key_event_predicates() {
    let e = key_event(KEY_A, 1);
    assert!(e.is_key_event());
    assert!(e.is_key_press());
    assert!(!e.is_key_release());

    let e = key_event(KEY_A, 0);
    assert!(e.is_key_release());
    assert!(!e.is_key_press());

    let motion = InputEvent {
        time: TimeVal {
            tv_sec: 0,
            tv_usec: 0,
        },
        event_type: EventType::Rel,
        code: 0,
        value: EventValue(1),
    };
    assert!(!motion.is_key_event());
}

#[test]
fn code_labels() {
    assert_eq!(key_event(KEY_A, 1).code_as_string(), "A");
    assert_eq!(key_event(KEY_SPACE, 1).code_as_string(), " ");
    assert_eq!(key_event(KEY_LEFTSHIFT, 1).code_as_string(), "<Shift>");
    assert_eq!(key_event(KEY_CAPSLOCK, 1).code_as_string(), "<CapsLock>");
    assert_eq!(key_event(KEY_UP, 1).code_as_string(), "<Up Arrow>");
    assert_eq!(key_event(KEY_KPPLUS, 1).code_as_string(), "<Numpad +>");
    assert_eq!(key_event(KEY_SYSRQ, 1).code_as_string(), "<Print Screen>");
    assert_eq!(key_event(0x999, 1).code_as_string(), "?");
}

#[test]
fn errors_carry_their_message() {
    let e = InputEventError::new(String::from("device vanished"));
    assert_eq!(e.message(), "device vanished");
    let e = InvalidEncodedInputEventError::new(String::from("bad frame"));
    assert_eq!(e.message(), "bad frame");
}
