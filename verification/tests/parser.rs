use educational_key_logger::input::{EventType, EventValue, InputEvent, TimeVal};
use educational_key_logger::keycodes::{
    KEY_0, KEY_1, KEY_A, KEY_B, KEY_BACKSPACE, KEY_C, KEY_CAPSLOCK, KEY_D, KEY_ENTER,
    KEY_LEFTALT, KEY_LEFTCTRL, KEY_LEFTMETA, KEY_LEFTSHIFT, KEY_SPACE, KEY_V,
};
use educational_key_logger::parser::input_events_to_text;

fn key(code: u16, value: i32) -> InputEvent {
    InputEvent {
        time: TimeVal {
            tv_sec: 0,
            tv_usec: 0,
        },
        event_type: EventType::Key,
        code,
        value: EventValue(value),
    }
}

fn press(code: u16) -> InputEvent {
    key(code, 1)
}

fn release(code: u16) -> InputEvent {
    key(code, 0)
}

fn repeat(code: u16) -> InputEvent {
    key(code, 2)
}

#[test]
fn plain_letter() {
    assert_eq!(input_events_to_text(&[press(KEY_A), release(KEY_A)]), "a");
}

#[test]
fn shifted_letter() {
    let events = [
        press(KEY_LEFTSHIFT),
        press(KEY_A),
        release(KEY_A),
        release(KEY_LEFTSHIFT),
    ];
    assert_eq!(input_events_to_text(&events), "A");
}

#[test]
fn ctrl_chord() {
    let events = [
        press(KEY_LEFTCTRL),
        press(KEY_C),
        release(KEY_C),
        release(KEY_LEFTCTRL),
    ];
    assert_eq!(input_events_to_text(&events), "<Ctrl-c>");
}

#[test]
fn consecutive_chords_merge() {
    let events = [press(KEY_LEFTCTRL), press(KEY_C), press(KEY_V)];
    assert_eq!(input_events_to_text(&events), "<Ctrl-cv>");
}

#[test]
fn backspace_removes_typed_letter() {
    let events = [press(KEY_A), release(KEY_A), press(KEY_BACKSPACE)];
    assert_eq!(input_events_to_text(&events), "");
}

#[test]
fn unmapped_code_renders_as_hex_token() {
    assert_eq!(input_events_to_text(&[press(0x999)]), "<0x999>");
}

#[test]
fn caps_lock_uppercases_without_shift() {
    let events = [press(KEY_CAPSLOCK), press(KEY_A)];
    assert_eq!(input_events_to_text(&events), "A");
}

#[test]
fn caps_lock_toggles_on_second_press() {
    let events = [press(KEY_CAPSLOCK), press(KEY_A), press(KEY_CAPSLOCK), press(KEY_B)];
    assert_eq!(input_events_to_text(&events), "Ab");
}

#[test]
fn shift_and_caps_lock_cancel_out() {
    let events = [press(KEY_CAPSLOCK), press(KEY_LEFTSHIFT), press(KEY_A)];
    assert_eq!(input_events_to_text(&events), "a");
}

#[test]
fn caps_lock_applies_shifted_symbols() {
    // Case derivation is shift XOR caps-lock, so caps-lock alone reaches
    // the shifted table for digits too.
    let events = [press(KEY_CAPSLOCK), press(KEY_1)];
    assert_eq!(input_events_to_text(&events), "!");
}

#[test]
fn shift_released_restores_lowercase() {
    let events = [
        press(KEY_LEFTSHIFT),
        press(KEY_A),
        release(KEY_LEFTSHIFT),
        press(KEY_B),
    ];
    assert_eq!(input_events_to_text(&events), "Ab");
}

#[test]
fn empty_batch_gives_empty_text() {
    assert_eq!(input_events_to_text(&[]), "");
}

#[test]
fn repeat_events_are_ignored() {
    let events = [press(KEY_A), repeat(KEY_A), repeat(KEY_A), release(KEY_A)];
    assert_eq!(input_events_to_text(&events), "a");
}

#[test]
fn other_event_values_are_ignored() {
    let events = [press(KEY_A), key(KEY_B, 7), key(KEY_C, -1)];
    assert_eq!(input_events_to_text(&events), "a");
}

#[test]
fn backspace_on_empty_text_is_literal() {
    assert_eq!(input_events_to_text(&[press(KEY_BACKSPACE)]), "<Backspace>");
}

#[test]
fn backspace_after_bracketed_token_is_literal() {
    let events = [press(KEY_ENTER), press(KEY_BACKSPACE)];
    assert_eq!(input_events_to_text(&events), "<Enter><Backspace>");
}

#[test]
fn chorded_backspace_renders_by_name() {
    let events = [press(KEY_LEFTCTRL), press(KEY_BACKSPACE)];
    assert_eq!(input_events_to_text(&events), "<Ctrl-Backspace>");
}

#[test]
fn bracketed_token_in_chord_loses_its_brackets() {
    let events = [press(KEY_LEFTCTRL), press(KEY_ENTER)];
    assert_eq!(input_events_to_text(&events), "<Ctrl-Enter>");
}

#[test]
fn modifier_names_keep_fixed_order() {
    let events = [
        press(KEY_LEFTMETA),
        press(KEY_LEFTCTRL),
        press(KEY_LEFTALT),
        press(KEY_C),
    ];
    assert_eq!(input_events_to_text(&events), "<Meta-Ctrl-Alt-c>");
}

#[test]
fn shift_without_shifted_glyph_becomes_a_chord() {
    let events = [press(KEY_LEFTSHIFT), press(KEY_SPACE)];
    assert_eq!(input_events_to_text(&events), "<Shift- >");
}

#[test]
fn shift_chords_merge_like_any_other() {
    let events = [press(KEY_LEFTSHIFT), press(KEY_SPACE), press(KEY_SPACE)];
    assert_eq!(input_events_to_text(&events), "<Shift-  >");
}

#[test]
fn chord_does_not_merge_when_modifiers_change() {
    let events = [
        press(KEY_LEFTCTRL),
        press(KEY_C),
        release(KEY_LEFTCTRL),
        press(KEY_LEFTALT),
        press(KEY_D),
    ];
    assert_eq!(input_events_to_text(&events), "<Ctrl-c><Alt-d>");
}

#[test]
fn plain_text_between_chords_blocks_merging() {
    let events = [
        press(KEY_LEFTCTRL),
        press(KEY_C),
        release(KEY_LEFTCTRL),
        press(KEY_A),
        press(KEY_LEFTCTRL),
        press(KEY_V),
    ];
    assert_eq!(input_events_to_text(&events), "<Ctrl-c>a<Ctrl-v>");
}

#[test]
fn small_unmapped_code_pads_to_two_hex_digits() {
    assert_eq!(input_events_to_text(&[press(0)]), "<0x00>");
    assert_eq!(input_events_to_text(&[press(140)]), "<0x8c>");
}

#[test]
fn releases_of_ordinary_keys_are_no_ops() {
    let events = [release(KEY_A), release(KEY_ENTER), press(KEY_B)];
    assert_eq!(input_events_to_text(&events), "b");
}

#[test]
fn a_sentence_with_mixed_input() {
    let events = [
        press(KEY_LEFTSHIFT),
        press(KEY_A),
        release(KEY_A),
        release(KEY_LEFTSHIFT),
        press(KEY_B),
        release(KEY_B),
        press(KEY_SPACE),
        release(KEY_SPACE),
        press(KEY_0),
        release(KEY_0),
        press(KEY_BACKSPACE),
        press(KEY_1),
    ];
    assert_eq!(input_events_to_text(&events), "Ab 1");
}
