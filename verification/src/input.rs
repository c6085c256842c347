//! The event model: one raw hardware input occurrence.
//!
//! An [`InputEvent`] carries a timestamp, an event class, a 16-bit code
//! naming a key within its class, and a value whose meaning for key events
//! is released / pressed / repeated. Only key events are meaningful to the
//! rest of the crate; every other class is filtered out before the network.

use crate::keycodes::{
    EV_ABS, EV_FF, EV_FF_STATUS, EV_KEY, EV_LED, EV_MSC, EV_PWR, EV_REL, EV_REP, EV_SND, EV_SW,
    EV_SYN, KEY_0, KEY_1, KEY_2, KEY_3, KEY_4, KEY_5, KEY_6, KEY_7, KEY_8, KEY_9, KEY_A,
    KEY_APOSTROPHE, KEY_B, KEY_BACKSLASH, KEY_BACKSPACE, KEY_C, KEY_CAPSLOCK, KEY_COMMA, KEY_D,
    KEY_DELETE, KEY_DOT, KEY_DOWN, KEY_E, KEY_END, KEY_ENTER, KEY_EQUAL, KEY_ESC, KEY_F, KEY_F1,
    KEY_F10, KEY_F11, KEY_F12, KEY_F2, KEY_F3, KEY_F4, KEY_F5, KEY_F6, KEY_F7, KEY_F8, KEY_F9,
    KEY_G, KEY_GRAVE, KEY_H, KEY_HOME, KEY_I, KEY_INSERT, KEY_J, KEY_K, KEY_KP0, KEY_KP1, KEY_KP2,
    KEY_KP3, KEY_KP4, KEY_KP5, KEY_KP6, KEY_KP7, KEY_KP8, KEY_KP9, KEY_KPASTERISK, KEY_KPDOT,
    KEY_KPENTER, KEY_KPMINUS, KEY_KPPLUS, KEY_KPSLASH, KEY_L, KEY_LEFT, KEY_LEFTALT,
    KEY_LEFTBRACE, KEY_LEFTCTRL, KEY_LEFTMETA, KEY_LEFTSHIFT, KEY_M, KEY_MENU, KEY_MINUS,
    KEY_MUTE, KEY_N, KEY_NUMLOCK, KEY_O, KEY_P, KEY_PAGEDOWN, KEY_PAGEUP, KEY_PAUSE, KEY_POWER,
    KEY_Q, KEY_R, KEY_RIGHT, KEY_RIGHTALT, KEY_RIGHTBRACE, KEY_RIGHTCTRL, KEY_RIGHTMETA,
    KEY_RIGHTSHIFT, KEY_S, KEY_SCROLLLOCK, KEY_SEMICOLON, KEY_SLASH, KEY_SPACE, KEY_SYSRQ, KEY_T,
    KEY_TAB, KEY_U, KEY_UP, KEY_V, KEY_VOLUMEDOWN, KEY_VOLUMEUP, KEY_W, KEY_X, KEY_Y, KEY_Z,
};
use vstd::prelude::*;

verus! {

/// The moment at which an event happened; informational only, never read by
/// the framing or reconstruction logic.
#[derive(Clone, Copy, Debug, PartialEq, Eq, Structural)]
pub struct TimeVal {
    pub tv_sec: i64,
    pub tv_usec: i64,
}

/// The class of an input event. Only [`EventType::Key`] events ever cross
/// the network boundary.
#[derive(Clone, Copy, Debug, PartialEq, Eq, Structural)]
pub enum EventType {
    /// Synchronization marker separating batches of events.
    Syn,
    /// State change of a keyboard, button, or other key-like device.
    Key,
    /// Relative axis change, such as mouse motion.
    Rel,
    /// Absolute axis change, such as a touchscreen coordinate.
    Abs,
    /// Miscellaneous input data.
    Msc,
    /// Binary state input switch.
    Sw,
    /// LED control.
    Led,
    /// Sound output.
    Snd,
    /// Autorepeat configuration.
    Rep,
    /// Force feedback command.
    Ff,
    /// Power management signal.
    Pwr,
    /// Force feedback device status.
    FfStatus,
}

impl EventType {
    /// The numeric enumerant this class is transmitted as.
    pub open spec fn spec_wire_code(self) -> u16 {
        match self {
            EventType::Syn => EV_SYN,
            EventType::Key => EV_KEY,
            EventType::Rel => EV_REL,
            EventType::Abs => EV_ABS,
            EventType::Msc => EV_MSC,
            EventType::Sw => EV_SW,
            EventType::Led => EV_LED,
            EventType::Snd => EV_SND,
            EventType::Rep => EV_REP,
            EventType::Ff => EV_FF,
            EventType::Pwr => EV_PWR,
            EventType::FfStatus => EV_FF_STATUS,
        }
    }

    /// The class a numeric enumerant names, or `None` for an unknown value.
    pub open spec fn spec_from_wire_code(code: u16) -> Option<EventType> {
        if code == EV_SYN {
            Some(EventType::Syn)
        } else if code == EV_KEY {
            Some(EventType::Key)
        } else if code == EV_REL {
            Some(EventType::Rel)
        } else if code == EV_ABS {
            Some(EventType::Abs)
        } else if code == EV_MSC {
            Some(EventType::Msc)
        } else if code == EV_SW {
            Some(EventType::Sw)
        } else if code == EV_LED {
            Some(EventType::Led)
        } else if code == EV_SND {
            Some(EventType::Snd)
        } else if code == EV_REP {
            Some(EventType::Rep)
        } else if code == EV_FF {
            Some(EventType::Ff)
        } else if code == EV_PWR {
            Some(EventType::Pwr)
        } else if code == EV_FF_STATUS {
            Some(EventType::FfStatus)
        } else {
            None
        }
    }

    #[verifier::when_used_as_spec(spec_wire_code)]
    pub fn wire_code(self) -> (code: u16)
        ensures
            code == self.spec_wire_code(),
    {
        match self {
            EventType::Syn => EV_SYN,
            EventType::Key => EV_KEY,
            EventType::Rel => EV_REL,
            EventType::Abs => EV_ABS,
            EventType::Msc => EV_MSC,
            EventType::Sw => EV_SW,
            EventType::Led => EV_LED,
            EventType::Snd => EV_SND,
            EventType::Rep => EV_REP,
            EventType::Ff => EV_FF,
            EventType::Pwr => EV_PWR,
            EventType::FfStatus => EV_FF_STATUS,
        }
    }

    #[verifier::when_used_as_spec(spec_from_wire_code)]
    pub fn from_wire_code(code: u16) -> (r: Option<EventType>)
        ensures
            r == EventType::spec_from_wire_code(code),
    {
        match code {
            EV_SYN => Some(EventType::Syn),
            EV_KEY => Some(EventType::Key),
            EV_REL => Some(EventType::Rel),
            EV_ABS => Some(EventType::Abs),
            EV_MSC => Some(EventType::Msc),
            EV_SW => Some(EventType::Sw),
            EV_LED => Some(EventType::Led),
            EV_SND => Some(EventType::Snd),
            EV_REP => Some(EventType::Rep),
            EV_FF => Some(EventType::Ff),
            EV_PWR => Some(EventType::Pwr),
            EV_FF_STATUS => Some(EventType::FfStatus),
            _ => None,
        }
    }
}

/// Every event class maps to a distinct enumerant, so reading the enumerant
/// back yields the class it came from.
pub proof fn lemma_event_type_wire_round_trip(t: EventType)
    ensures
        EventType::spec_from_wire_code(t.spec_wire_code()) == Some(t),
{
}

/// The value an event carries. For key events: `0` for a release, `1` for a
/// press, `2` for autorepeat; other values are opaque.
#[derive(Clone, Copy, Debug, PartialEq, Eq, Structural)]
pub struct EventValue(pub i32);

impl EventValue {
    pub fn new(value: i32) -> (r: Self)
        ensures
            r == EventValue(value),
    {
        EventValue(value)
    }

    pub open spec fn spec_is_released(&self) -> bool {
        self.0 == 0
    }

    pub open spec fn spec_is_pressed(&self) -> bool {
        self.0 == 1
    }

    pub open spec fn spec_is_repeated(&self) -> bool {
        self.0 == 2
    }

    #[verifier::when_used_as_spec(spec_is_released)]
    pub fn is_key_released(&self) -> (r: bool)
        ensures
            r == self.spec_is_released(),
    {
        self.0 == 0
    }

    #[verifier::when_used_as_spec(spec_is_pressed)]
    pub fn is_key_pressed(&self) -> (r: bool)
        ensures
            r == self.spec_is_pressed(),
    {
        self.0 == 1
    }

    #[verifier::when_used_as_spec(spec_is_repeated)]
    pub fn is_key_repeated(&self) -> (r: bool)
        ensures
            r == self.spec_is_repeated(),
    {
        self.0 == 2
    }

    /// A label for the three key-event values, `None` for any other value.
    pub fn to_string(&self) -> (r: Option<&'static str>)
        ensures
            self.0 == 0 ==> (r matches Some(s) && s@ == "Released"@),
            self.0 == 1 ==> (r matches Some(s) && s@ == "Pressed"@),
            self.0 == 2 ==> (r matches Some(s) && s@ == "Repeated"@),
            !(0 <= self.0 <= 2) ==> r is None,
    {
        match self.0 {
            0 => Some("Released"),
            1 => Some("Pressed"),
            2 => Some("Repeated"),
            _ => None,
        }
    }
}

/// One raw input occurrence as the device reports it. Any bit pattern in
/// `code` and `value` is representable; meaning is imposed only by the
/// consuming lookup tables.
#[derive(Clone, Copy, Debug, PartialEq, Eq, Structural)]
pub struct InputEvent {
    pub time: TimeVal,
    pub event_type: EventType,
    pub code: u16,
    pub value: EventValue,
}

impl InputEvent {
    pub open spec fn spec_is_key_event(&self) -> bool {
        self.event_type == EventType::Key
    }

    pub open spec fn spec_is_key_press(&self) -> bool {
        self.value.spec_is_pressed()
    }

    pub open spec fn spec_is_key_release(&self) -> bool {
        self.value.spec_is_released()
    }

    #[verifier::when_used_as_spec(spec_is_key_event)]
    pub fn is_key_event(&self) -> (r: bool)
        ensures
            r == self.spec_is_key_event(),
    {
        self.event_type == EventType::Key
    }

    #[verifier::when_used_as_spec(spec_is_key_press)]
    pub fn is_key_press(&self) -> (r: bool)
        ensures
            r == self.spec_is_key_press(),
    {
        self.value.is_key_pressed()
    }

    #[verifier::when_used_as_spec(spec_is_key_release)]
    pub fn is_key_release(&self) -> (r: bool)
        ensures
            r == self.spec_is_key_release(),
    {
        self.value.is_key_released()
    }
}

/// The label [`InputEvent::code_as_string`] resolves a key code to.
pub open spec fn spec_code_label(code: u16) -> Seq<char> {
    if code == KEY_A {
        "A"@
    } else if code == KEY_B {
        "B"@
    } else if code == KEY_C {
        "C"@
    } else if code == KEY_D {
        "D"@
    } else if code == KEY_E {
        "E"@
    } else if code == KEY_F {
        "F"@
    } else if code == KEY_G {
        "G"@
    } else if code == KEY_H {
        "H"@
    } else if code == KEY_I {
        "I"@
    } else if code == KEY_J {
        "J"@
    } else if code == KEY_K {
        "K"@
    } else if code == KEY_L {
        "L"@
    } else if code == KEY_M {
        "M"@
    } else if code == KEY_N {
        "N"@
    } else if code == KEY_O {
        "O"@
    } else if code == KEY_P {
        "P"@
    } else if code == KEY_Q {
        "Q"@
    } else if code == KEY_R {
        "R"@
    } else if code == KEY_S {
        "S"@
    } else if code == KEY_T {
        "T"@
    } else if code == KEY_U {
        "U"@
    } else if code == KEY_V {
        "V"@
    } else if code == KEY_W {
        "W"@
    } else if code == KEY_X {
        "X"@
    } else if code == KEY_Y {
        "Y"@
    } else if code == KEY_Z {
        "Z"@
    } else if code == KEY_0 {
        "0"@
    } else if code == KEY_1 {
        "1"@
    } else if code == KEY_2 {
        "2"@
    } else if code == KEY_3 {
        "3"@
    } else if code == KEY_4 {
        "4"@
    } else if code == KEY_5 {
        "5"@
    } else if code == KEY_6 {
        "6"@
    } else if code == KEY_7 {
        "7"@
    } else if code == KEY_8 {
        "8"@
    } else if code == KEY_9 {
        "9"@
    } else if code == KEY_SPACE {
        " "@
    } else if code == KEY_ENTER {
        "<Enter>"@
    } else if code == KEY_BACKSPACE {
        "<Backspace>"@
    } else if code == KEY_TAB {
        "<Tab>"@
    } else if code == KEY_ESC {
        "<Esc>"@
    } else if code == KEY_MINUS {
        "-"@
    } else if code == KEY_EQUAL {
        "="@
    } else if code == KEY_LEFTBRACE {
        "["@
    } else if code == KEY_RIGHTBRACE {
        "]"@
    } else if code == KEY_SEMICOLON {
        ";"@
    } else if code == KEY_APOSTROPHE {
        "'"@
    } else if code == KEY_GRAVE {
        "`"@
    } else if code == KEY_BACKSLASH {
        "\\"@
    } else if code == KEY_COMMA {
        ","@
    } else if code == KEY_DOT {
        "."@
    } else if code == KEY_SLASH {
        "/"@
    } else if code == KEY_LEFTMETA || code == KEY_RIGHTMETA {
        "<Meta>"@
    } else if code == KEY_LEFTSHIFT || code == KEY_RIGHTSHIFT {
        "<Shift>"@
    } else if code == KEY_LEFTCTRL || code == KEY_RIGHTCTRL {
        "<Ctrl>"@
    } else if code == KEY_LEFTALT || code == KEY_RIGHTALT {
        "<Alt>"@
    } else if code == KEY_CAPSLOCK {
        "<CapsLock>"@
    } else if code == KEY_NUMLOCK {
        "<NumLock>"@
    } else if code == KEY_SCROLLLOCK {
        "<ScrollLock>"@
    } else if code == KEY_F1 {
        "<F1>"@
    } else if code == KEY_F2 {
        "<F2>"@
    } else if code == KEY_F3 {
        "<F3>"@
    } else if code == KEY_F4 {
        "<F4>"@
    } else if code == KEY_F5 {
        "<F5>"@
    } else if code == KEY_F6 {
        "<F6>"@
    } else if code == KEY_F7 {
        "<F7>"@
    } else if code == KEY_F8 {
        "<F8>"@
    } else if code == KEY_F9 {
        "<F9>"@
    } else if code == KEY_F10 {
        "<F10>"@
    } else if code == KEY_F11 {
        "<F11>"@
    } else if code == KEY_F12 {
        "<F12>"@
    } else if code == KEY_HOME {
        "<Home>"@
    } else if code == KEY_END {
        "<End>"@
    } else if code == KEY_PAGEUP {
        "<PageUp>"@
    } else if code == KEY_PAGEDOWN {
        "<PageDown>"@
    } else if code == KEY_DELETE {
        "<Delete>"@
    } else if code == KEY_INSERT {
        "<Insert>"@
    } else if code == KEY_UP {
        "<Up Arrow>"@
    } else if code == KEY_DOWN {
        "<Down Arrow>"@
    } else if code == KEY_LEFT {
        "<Left Arrow>"@
    } else if code == KEY_RIGHT {
        "<Right Arrow>"@
    } else if code == KEY_KP0 {
        "<Numpad 0>"@
    } else if code == KEY_KP1 {
        "<Numpad 1>"@
    } else if code == KEY_KP2 {
        "<Numpad 2>"@
    } else if code == KEY_KP3 {
        "<Numpad 3>"@
    } else if code == KEY_KP4 {
        "<Numpad 4>"@
    } else if code == KEY_KP5 {
        "<Numpad 5>"@
    } else if code == KEY_KP6 {
        "<Numpad 6>"@
    } else if code == KEY_KP7 {
        "<Numpad 7>"@
    } else if code == KEY_KP8 {
        "<Numpad 8>"@
    } else if code == KEY_KP9 {
        "<Numpad 9>"@
    } else if code == KEY_KPMINUS {
        "<Numpad ->"@
    } else if code == KEY_KPPLUS {
        "<Numpad +>"@
    } else if code == KEY_KPASTERISK {
        "<Numpad *>"@
    } else if code == KEY_KPDOT {
        "<Numpad .>"@
    } else if code == KEY_KPENTER {
        "<Numpad Enter>"@
    } else if code == KEY_KPSLASH {
        "<Numpad />"@
    } else if code == KEY_MUTE {
        "<Mute>"@
    } else if code == KEY_VOLUMEDOWN {
        "<Volume Down>"@
    } else if code == KEY_VOLUMEUP {
        "<Volume Up>"@
    } else if code == KEY_POWER {
        "<Power>"@
    } else if code == KEY_SYSRQ {
        "<Print Screen>"@
    } else if code == KEY_MENU {
        "<Menu>"@
    } else if code == KEY_PAUSE {
        "<Pause>"@
    } else {
        "?"@
    }
}

impl InputEvent {
    /// A human-readable name for the key this event is about, mainly for
    /// diagnostics; `"?"` for a code outside the table.
    pub fn code_as_string(&self) -> (r: &'static str)
        requires
            self.spec_is_key_event(),
        ensures
            r@ == spec_code_label(self.code),
    {
        match self.code {
            KEY_A => "A",
            KEY_B => "B",
            KEY_C => "C",
            KEY_D => "D",
            KEY_E => "E",
            KEY_F => "F",
            KEY_G => "G",
            KEY_H => "H",
            KEY_I => "I",
            KEY_J => "J",
            KEY_K => "K",
            KEY_L => "L",
            KEY_M => "M",
            KEY_N => "N",
            KEY_O => "O",
            KEY_P => "P",
            KEY_Q => "Q",
            KEY_R => "R",
            KEY_S => "S",
            KEY_T => "T",
            KEY_U => "U",
            KEY_V => "V",
            KEY_W => "W",
            KEY_X => "X",
            KEY_Y => "Y",
            KEY_Z => "Z",
            KEY_0 => "0",
            KEY_1 => "1",
            KEY_2 => "2",
            KEY_3 => "3",
            KEY_4 => "4",
            KEY_5 => "5",
            KEY_6 => "6",
            KEY_7 => "7",
            KEY_8 => "8",
            KEY_9 => "9",
            KEY_SPACE => " ",
            KEY_ENTER => "<Enter>",
            KEY_BACKSPACE => "<Backspace>",
            KEY_TAB => "<Tab>",
            KEY_ESC => "<Esc>",
            KEY_MINUS => "-",
            KEY_EQUAL => "=",
            KEY_LEFTBRACE => "[",
            KEY_RIGHTBRACE => "]",
            KEY_SEMICOLON => ";",
            KEY_APOSTROPHE => "'",
            KEY_GRAVE => "`",
            KEY_BACKSLASH => "\\",
            KEY_COMMA => ",",
            KEY_DOT => ".",
            KEY_SLASH => "/",
            KEY_LEFTMETA | KEY_RIGHTMETA => "<Meta>",
            KEY_LEFTSHIFT | KEY_RIGHTSHIFT => "<Shift>",
            KEY_LEFTCTRL | KEY_RIGHTCTRL => "<Ctrl>",
            KEY_LEFTALT | KEY_RIGHTALT => "<Alt>",
            KEY_CAPSLOCK => "<CapsLock>",
            KEY_NUMLOCK => "<NumLock>",
            KEY_SCROLLLOCK => "<ScrollLock>",
            KEY_F1 => "<F1>",
            KEY_F2 => "<F2>",
            KEY_F3 => "<F3>",
            KEY_F4 => "<F4>",
            KEY_F5 => "<F5>",
            KEY_F6 => "<F6>",
            KEY_F7 => "<F7>",
            KEY_F8 => "<F8>",
            KEY_F9 => "<F9>",
            KEY_F10 => "<F10>",
            KEY_F11 => "<F11>",
            KEY_F12 => "<F12>",
            KEY_HOME => "<Home>",
            KEY_END => "<End>",
            KEY_PAGEUP => "<PageUp>",
            KEY_PAGEDOWN => "<PageDown>",
            KEY_DELETE => "<Delete>",
            KEY_INSERT => "<Insert>",
            KEY_UP => "<Up Arrow>",
            KEY_DOWN => "<Down Arrow>",
            KEY_LEFT => "<Left Arrow>",
            KEY_RIGHT => "<Right Arrow>",
            KEY_KP0 => "<Numpad 0>",
            KEY_KP1 => "<Numpad 1>",
            KEY_KP2 => "<Numpad 2>",
            KEY_KP3 => "<Numpad 3>",
            KEY_KP4 => "<Numpad 4>",
            KEY_KP5 => "<Numpad 5>",
            KEY_KP6 => "<Numpad 6>",
            KEY_KP7 => "<Numpad 7>",
            KEY_KP8 => "<Numpad 8>",
            KEY_KP9 => "<Numpad 9>",
            KEY_KPMINUS => "<Numpad ->",
            KEY_KPPLUS => "<Numpad +>",
            KEY_KPASTERISK => "<Numpad *>",
            KEY_KPDOT => "<Numpad .>",
            KEY_KPENTER => "<Numpad Enter>",
            KEY_KPSLASH => "<Numpad />",
            KEY_MUTE => "<Mute>",
            KEY_VOLUMEDOWN => "<Volume Down>",
            KEY_VOLUMEUP => "<Volume Up>",
            KEY_POWER => "<Power>",
            KEY_SYSRQ => "<Print Screen>",
            KEY_MENU => "<Menu>",
            KEY_PAUSE => "<Pause>",
            _ => "?",
        }
    }
}

} // verus!
