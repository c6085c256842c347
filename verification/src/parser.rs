//! The keystroke reconstruction engine: a batch of key press/release
//! events, in arrival order, becomes one line of human-readable text.
//!
//! The engine tracks the five modifiers across the batch, derives the case
//! of each letter from shift and caps-lock, and renders characters typed
//! under ctrl, alt, meta — or under a shift that has no shifted glyph —
//! inside a bracketed modifier-name sequence, merging consecutive chorded
//! characters typed under an unchanged modifier context into one bracket.

use crate::input::InputEvent;
use crate::keycodes::{
    KEY_0, KEY_1, KEY_2, KEY_3, KEY_4, KEY_5, KEY_6, KEY_7, KEY_8, KEY_9, KEY_A, KEY_APOSTROPHE,
    KEY_B, KEY_BACKSLASH, KEY_BACKSPACE, KEY_C, KEY_CAPSLOCK, KEY_COMMA, KEY_D, KEY_DELETE,
    KEY_DOT, KEY_DOWN, KEY_E, KEY_END, KEY_ENTER, KEY_EQUAL, KEY_ESC, KEY_F, KEY_F1, KEY_F10,
    KEY_F11, KEY_F12, KEY_F2, KEY_F3, KEY_F4, KEY_F5, KEY_F6, KEY_F7, KEY_F8, KEY_F9, KEY_G,
    KEY_GRAVE, KEY_H, KEY_HOME, KEY_I, KEY_INSERT, KEY_J, KEY_K, KEY_KP0, KEY_KP1, KEY_KP2,
    KEY_KP3, KEY_KP4, KEY_KP5, KEY_KP6, KEY_KP7, KEY_KP8, KEY_KP9, KEY_KPASTERISK, KEY_KPDOT,
    KEY_KPENTER, KEY_KPMINUS, KEY_KPPLUS, KEY_KPSLASH, KEY_L, KEY_LEFT, KEY_LEFTALT,
    KEY_LEFTBRACE, KEY_LEFTCTRL, KEY_LEFTMETA, KEY_LEFTSHIFT, KEY_M, KEY_MENU, KEY_MINUS,
    KEY_MUTE, KEY_N, KEY_NUMLOCK, KEY_O, KEY_P, KEY_PAGEDOWN, KEY_PAGEUP, KEY_PAUSE, KEY_POWER,
    KEY_Q, KEY_R, KEY_RIGHT, KEY_RIGHTALT, KEY_RIGHTBRACE, KEY_RIGHTCTRL, KEY_RIGHTMETA,
    KEY_RIGHTSHIFT, KEY_S, KEY_SCROLLLOCK, KEY_SEMICOLON, KEY_SLASH, KEY_SPACE, KEY_SYSRQ, KEY_T,
    KEY_TAB, KEY_U, KEY_UP, KEY_V, KEY_VOLUMEDOWN, KEY_VOLUMEUP, KEY_W, KEY_X, KEY_Y, KEY_Z,
};
use vstd::prelude::*;
use vstd::string::StrSliceExecFns;

verus! {

/// The five independent modifier bits the engine tracks. Caps-lock toggles
/// on press; the other four follow physical down/up state.
#[derive(Clone, Copy, Debug, PartialEq, Eq, Structural)]
pub struct ModifierState {
    pub shift: bool,
    pub ctrl: bool,
    pub alt: bool,
    pub caps_lock: bool,
    pub meta: bool,
}

impl ModifierState {
    /// No modifier held, caps-lock off: the state each batch starts in.
    pub open spec fn spec_default() -> ModifierState {
        ModifierState { shift: false, ctrl: false, alt: false, caps_lock: false, meta: false }
    }
}

impl Default for ModifierState {
    fn default() -> (r: ModifierState)
        ensures
            r == ModifierState::spec_default(),
    {
        ModifierState { shift: false, ctrl: false, alt: false, caps_lock: false, meta: false }
    }
}

/// The modifier snapshot and shift-char-missing flag in effect when the
/// previous character was appended; decides whether the next chorded
/// character merges into the same bracket.
#[derive(Clone, Copy, Debug, PartialEq, Eq, Structural)]
pub struct LastEmissionState {
    pub mods: ModifierState,
    pub shift_char_missing: bool,
}

impl LastEmissionState {
    /// The state each batch starts in.
    pub open spec fn spec_default() -> LastEmissionState {
        LastEmissionState { mods: ModifierState::spec_default(), shift_char_missing: false }
    }
}

impl Default for LastEmissionState {
    fn default() -> (r: LastEmissionState)
        ensures
            r == LastEmissionState::spec_default(),
    {
        LastEmissionState { mods: ModifierState::default(), shift_char_missing: false }
    }
}

/// The unshifted code-to-glyph table.
pub open spec fn spec_key_map(code: u16) -> Option<Seq<char>> {
    if code == KEY_A {
        Some("a"@)
    } else if code == KEY_B {
        Some("b"@)
    } else if code == KEY_C {
        Some("c"@)
    } else if code == KEY_D {
        Some("d"@)
    } else if code == KEY_E {
        Some("e"@)
    } else if code == KEY_F {
        Some("f"@)
    } else if code == KEY_G {
        Some("g"@)
    } else if code == KEY_H {
        Some("h"@)
    } else if code == KEY_I {
        Some("i"@)
    } else if code == KEY_J {
        Some("j"@)
    } else if code == KEY_K {
        Some("k"@)
    } else if code == KEY_L {
        Some("l"@)
    } else if code == KEY_M {
        Some("m"@)
    } else if code == KEY_N {
        Some("n"@)
    } else if code == KEY_O {
        Some("o"@)
    } else if code == KEY_P {
        Some("p"@)
    } else if code == KEY_Q {
        Some("q"@)
    } else if code == KEY_R {
        Some("r"@)
    } else if code == KEY_S {
        Some("s"@)
    } else if code == KEY_T {
        Some("t"@)
    } else if code == KEY_U {
        Some("u"@)
    } else if code == KEY_V {
        Some("v"@)
    } else if code == KEY_W {
        Some("w"@)
    } else if code == KEY_X {
        Some("x"@)
    } else if code == KEY_Y {
        Some("y"@)
    } else if code == KEY_Z {
        Some("z"@)
    } else if code == KEY_0 {
        Some("0"@)
    } else if code == KEY_1 {
        Some("1"@)
    } else if code == KEY_2 {
        Some("2"@)
    } else if code == KEY_3 {
        Some("3"@)
    } else if code == KEY_4 {
        Some("4"@)
    } else if code == KEY_5 {
        Some("5"@)
    } else if code == KEY_6 {
        Some("6"@)
    } else if code == KEY_7 {
        Some("7"@)
    } else if code == KEY_8 {
        Some("8"@)
    } else if code == KEY_9 {
        Some("9"@)
    } else if code == KEY_SPACE {
        Some(" "@)
    } else if code == KEY_ENTER {
        Some("<Enter>"@)
    } else if code == KEY_BACKSPACE {
        Some("<Backspace>"@)
    } else if code == KEY_TAB {
        Some("<Tab>"@)
    } else if code == KEY_ESC {
        Some("<Esc>"@)
    } else if code == KEY_MINUS {
        Some("-"@)
    } else if code == KEY_EQUAL {
        Some("="@)
    } else if code == KEY_LEFTBRACE {
        Some("["@)
    } else if code == KEY_RIGHTBRACE {
        Some("]"@)
    } else if code == KEY_SEMICOLON {
        Some(";"@)
    } else if code == KEY_APOSTROPHE {
        Some("'"@)
    } else if code == KEY_GRAVE {
        Some("`"@)
    } else if code == KEY_BACKSLASH {
        Some("\\"@)
    } else if code == KEY_COMMA {
        Some(","@)
    } else if code == KEY_DOT {
        Some("."@)
    } else if code == KEY_SLASH {
        Some("/"@)
    } else if code == KEY_LEFTMETA || code == KEY_RIGHTMETA {
        Some("<Meta>"@)
    } else if code == KEY_LEFTSHIFT || code == KEY_RIGHTSHIFT {
        Some("<Shift>"@)
    } else if code == KEY_LEFTCTRL || code == KEY_RIGHTCTRL {
        Some("<Ctrl>"@)
    } else if code == KEY_LEFTALT || code == KEY_RIGHTALT {
        Some("<Alt>"@)
    } else if code == KEY_CAPSLOCK {
        Some("<CapsLock>"@)
    } else if code == KEY_NUMLOCK {
        Some("<NumLock>"@)
    } else if code == KEY_SCROLLLOCK {
        Some("<ScrollLock>"@)
    } else if code == KEY_F1 {
        Some("<F1>"@)
    } else if code == KEY_F2 {
        Some("<F2>"@)
    } else if code == KEY_F3 {
        Some("<F3>"@)
    } else if code == KEY_F4 {
        Some("<F4>"@)
    } else if code == KEY_F5 {
        Some("<F5>"@)
    } else if code == KEY_F6 {
        Some("<F6>"@)
    } else if code == KEY_F7 {
        Some("<F7>"@)
    } else if code == KEY_F8 {
        Some("<F8>"@)
    } else if code == KEY_F9 {
        Some("<F9>"@)
    } else if code == KEY_F10 {
        Some("<F10>"@)
    } else if code == KEY_F11 {
        Some("<F11>"@)
    } else if code == KEY_F12 {
        Some("<F12>"@)
    } else if code == KEY_HOME {
        Some("<Home>"@)
    } else if code == KEY_END {
        Some("<End>"@)
    } else if code == KEY_PAGEUP {
        Some("<PageUp>"@)
    } else if code == KEY_PAGEDOWN {
        Some("<PageDown>"@)
    } else if code == KEY_DELETE {
        Some("<Delete>"@)
    } else if code == KEY_INSERT {
        Some("<Insert>"@)
    } else if code == KEY_UP {
        Some("<UpArrow>"@)
    } else if code == KEY_DOWN {
        Some("<DownArrow>"@)
    } else if code == KEY_LEFT {
        Some("<LeftArrow>"@)
    } else if code == KEY_RIGHT {
        Some("<RightArrow>"@)
    } else if code == KEY_KP0 {
        Some("<Numpad0>"@)
    } else if code == KEY_KP1 {
        Some("<Numpad1>"@)
    } else if code == KEY_KP2 {
        Some("<Numpad2>"@)
    } else if code == KEY_KP3 {
        Some("<Numpad3>"@)
    } else if code == KEY_KP4 {
        Some("<Numpad4>"@)
    } else if code == KEY_KP5 {
        Some("<Numpad5>"@)
    } else if code == KEY_KP6 {
        Some("<Numpad6>"@)
    } else if code == KEY_KP7 {
        Some("<Numpad7>"@)
    } else if code == KEY_KP8 {
        Some("<Numpad8>"@)
    } else if code == KEY_KP9 {
        Some("<Numpad9>"@)
    } else if code == KEY_KPMINUS {
        Some("<Numpad->"@)
    } else if code == KEY_KPPLUS {
        Some("<Numpad+>"@)
    } else if code == KEY_KPASTERISK {
        Some("<Numpad*>"@)
    } else if code == KEY_KPDOT {
        Some("<Numpad.>"@)
    } else if code == KEY_KPENTER {
        Some("<NumpadEnter>"@)
    } else if code == KEY_KPSLASH {
        Some("<Numpad/>"@)
    } else if code == KEY_MUTE {
        Some("<Mute>"@)
    } else if code == KEY_VOLUMEDOWN {
        Some("<VolumeDown>"@)
    } else if code == KEY_VOLUMEUP {
        Some("<VolumeUp>"@)
    } else if code == KEY_POWER {
        Some("<Power>"@)
    } else if code == KEY_SYSRQ {
        Some("<PrintScreen>"@)
    } else if code == KEY_MENU {
        Some("<Menu>"@)
    } else if code == KEY_PAUSE {
        Some("<Pause>"@)
    } else {
        None
    }
}

/// The shifted code-to-glyph table; absent entries fall back to the
/// unshifted glyph with the shift-char-missing flag raised.
pub open spec fn spec_key_map_shift(code: u16) -> Option<Seq<char>> {
    if code == KEY_A {
        Some("A"@)
    } else if code == KEY_B {
        Some("B"@)
    } else if code == KEY_C {
        Some("C"@)
    } else if code == KEY_D {
        Some("D"@)
    } else if code == KEY_E {
        Some("E"@)
    } else if code == KEY_F {
        Some("F"@)
    } else if code == KEY_G {
        Some("G"@)
    } else if code == KEY_H {
        Some("H"@)
    } else if code == KEY_I {
        Some("I"@)
    } else if code == KEY_J {
        Some("J"@)
    } else if code == KEY_K {
        Some("K"@)
    } else if code == KEY_L {
        Some("L"@)
    } else if code == KEY_M {
        Some("M"@)
    } else if code == KEY_N {
        Some("N"@)
    } else if code == KEY_O {
        Some("O"@)
    } else if code == KEY_P {
        Some("P"@)
    } else if code == KEY_Q {
        Some("Q"@)
    } else if code == KEY_R {
        Some("R"@)
    } else if code == KEY_S {
        Some("S"@)
    } else if code == KEY_T {
        Some("T"@)
    } else if code == KEY_U {
        Some("U"@)
    } else if code == KEY_V {
        Some("V"@)
    } else if code == KEY_W {
        Some("W"@)
    } else if code == KEY_X {
        Some("X"@)
    } else if code == KEY_Y {
        Some("Y"@)
    } else if code == KEY_Z {
        Some("Z"@)
    } else if code == KEY_0 {
        Some(")"@)
    } else if code == KEY_1 {
        Some("!"@)
    } else if code == KEY_2 {
        Some("@"@)
    } else if code == KEY_3 {
        Some("#"@)
    } else if code == KEY_4 {
        Some("$"@)
    } else if code == KEY_5 {
        Some("%"@)
    } else if code == KEY_6 {
        Some("^"@)
    } else if code == KEY_7 {
        Some("&"@)
    } else if code == KEY_8 {
        Some("*"@)
    } else if code == KEY_9 {
        Some("("@)
    } else if code == KEY_MINUS {
        Some("_"@)
    } else if code == KEY_EQUAL {
        Some("+"@)
    } else if code == KEY_LEFTBRACE {
        Some("{"@)
    } else if code == KEY_RIGHTBRACE {
        Some("}"@)
    } else if code == KEY_SEMICOLON {
        Some(":"@)
    } else if code == KEY_APOSTROPHE {
        Some("\""@)
    } else if code == KEY_GRAVE {
        Some("~"@)
    } else if code == KEY_BACKSLASH {
        Some("|"@)
    } else if code == KEY_COMMA {
        Some("<"@)
    } else if code == KEY_DOT {
        Some(">"@)
    } else if code == KEY_SLASH {
        Some("?"@)
    } else {
        None
    }
}

/// Resolve a code through the unshifted table.
fn key_map(code: u16) -> (r: Option<&'static str>)
    ensures
        ({
            match r {
                Some(s) => spec_key_map(code) == Some(s@),
                None => spec_key_map(code) is None,
            }
        }),
{
    match code {
        KEY_A => Some("a"),
        KEY_B => Some("b"),
        KEY_C => Some("c"),
        KEY_D => Some("d"),
        KEY_E => Some("e"),
        KEY_F => Some("f"),
        KEY_G => Some("g"),
        KEY_H => Some("h"),
        KEY_I => Some("i"),
        KEY_J => Some("j"),
        KEY_K => Some("k"),
        KEY_L => Some("l"),
        KEY_M => Some("m"),
        KEY_N => Some("n"),
        KEY_O => Some("o"),
        KEY_P => Some("p"),
        KEY_Q => Some("q"),
        KEY_R => Some("r"),
        KEY_S => Some("s"),
        KEY_T => Some("t"),
        KEY_U => Some("u"),
        KEY_V => Some("v"),
        KEY_W => Some("w"),
        KEY_X => Some("x"),
        KEY_Y => Some("y"),
        KEY_Z => Some("z"),
        KEY_0 => Some("0"),
        KEY_1 => Some("1"),
        KEY_2 => Some("2"),
        KEY_3 => Some("3"),
        KEY_4 => Some("4"),
        KEY_5 => Some("5"),
        KEY_6 => Some("6"),
        KEY_7 => Some("7"),
        KEY_8 => Some("8"),
        KEY_9 => Some("9"),
        KEY_SPACE => Some(" "),
        KEY_ENTER => Some("<Enter>"),
        KEY_BACKSPACE => Some("<Backspace>"),
        KEY_TAB => Some("<Tab>"),
        KEY_ESC => Some("<Esc>"),
        KEY_MINUS => Some("-"),
        KEY_EQUAL => Some("="),
        KEY_LEFTBRACE => Some("["),
        KEY_RIGHTBRACE => Some("]"),
        KEY_SEMICOLON => Some(";"),
        KEY_APOSTROPHE => Some("'"),
        KEY_GRAVE => Some("`"),
        KEY_BACKSLASH => Some("\\"),
        KEY_COMMA => Some(","),
        KEY_DOT => Some("."),
        KEY_SLASH => Some("/"),
        KEY_LEFTMETA | KEY_RIGHTMETA => Some("<Meta>"),
        KEY_LEFTSHIFT | KEY_RIGHTSHIFT => Some("<Shift>"),
        KEY_LEFTCTRL | KEY_RIGHTCTRL => Some("<Ctrl>"),
        KEY_LEFTALT | KEY_RIGHTALT => Some("<Alt>"),
        KEY_CAPSLOCK => Some("<CapsLock>"),
        KEY_NUMLOCK => Some("<NumLock>"),
        KEY_SCROLLLOCK => Some("<ScrollLock>"),
        KEY_F1 => Some("<F1>"),
        KEY_F2 => Some("<F2>"),
        KEY_F3 => Some("<F3>"),
        KEY_F4 => Some("<F4>"),
        KEY_F5 => Some("<F5>"),
        KEY_F6 => Some("<F6>"),
        KEY_F7 => Some("<F7>"),
        KEY_F8 => Some("<F8>"),
        KEY_F9 => Some("<F9>"),
        KEY_F10 => Some("<F10>"),
        KEY_F11 => Some("<F11>"),
        KEY_F12 => Some("<F12>"),
        KEY_HOME => Some("<Home>"),
        KEY_END => Some("<End>"),
        KEY_PAGEUP => Some("<PageUp>"),
        KEY_PAGEDOWN => Some("<PageDown>"),
        KEY_DELETE => Some("<Delete>"),
        KEY_INSERT => Some("<Insert>"),
        KEY_UP => Some("<UpArrow>"),
        KEY_DOWN => Some("<DownArrow>"),
        KEY_LEFT => Some("<LeftArrow>"),
        KEY_RIGHT => Some("<RightArrow>"),
        KEY_KP0 => Some("<Numpad0>"),
        KEY_KP1 => Some("<Numpad1>"),
        KEY_KP2 => Some("<Numpad2>"),
        KEY_KP3 => Some("<Numpad3>"),
        KEY_KP4 => Some("<Numpad4>"),
        KEY_KP5 => Some("<Numpad5>"),
        KEY_KP6 => Some("<Numpad6>"),
        KEY_KP7 => Some("<Numpad7>"),
        KEY_KP8 => Some("<Numpad8>"),
        KEY_KP9 => Some("<Numpad9>"),
        KEY_KPMINUS => Some("<Numpad->"),
        KEY_KPPLUS => Some("<Numpad+>"),
        KEY_KPASTERISK => Some("<Numpad*>"),
        KEY_KPDOT => Some("<Numpad.>"),
        KEY_KPENTER => Some("<NumpadEnter>"),
        KEY_KPSLASH => Some("<Numpad/>"),
        KEY_MUTE => Some("<Mute>"),
        KEY_VOLUMEDOWN => Some("<VolumeDown>"),
        KEY_VOLUMEUP => Some("<VolumeUp>"),
        KEY_POWER => Some("<Power>"),
        KEY_SYSRQ => Some("<PrintScreen>"),
        KEY_MENU => Some("<Menu>"),
        KEY_PAUSE => Some("<Pause>"),
        _ => None,
    }
}

/// Resolve a code through the shifted table.
fn key_map_shift(code: u16) -> (r: Option<&'static str>)
    ensures
        ({
            match r {
                Some(s) => spec_key_map_shift(code) == Some(s@),
                None => spec_key_map_shift(code) is None,
            }
        }),
{
    match code {
        KEY_A => Some("A"),
        KEY_B => Some("B"),
        KEY_C => Some("C"),
        KEY_D => Some("D"),
        KEY_E => Some("E"),
        KEY_F => Some("F"),
        KEY_G => Some("G"),
        KEY_H => Some("H"),
        KEY_I => Some("I"),
        KEY_J => Some("J"),
        KEY_K => Some("K"),
        KEY_L => Some("L"),
        KEY_M => Some("M"),
        KEY_N => Some("N"),
        KEY_O => Some("O"),
        KEY_P => Some("P"),
        KEY_Q => Some("Q"),
        KEY_R => Some("R"),
        KEY_S => Some("S"),
        KEY_T => Some("T"),
        KEY_U => Some("U"),
        KEY_V => Some("V"),
        KEY_W => Some("W"),
        KEY_X => Some("X"),
        KEY_Y => Some("Y"),
        KEY_Z => Some("Z"),
        KEY_0 => Some(")"),
        KEY_1 => Some("!"),
        KEY_2 => Some("@"),
        KEY_3 => Some("#"),
        KEY_4 => Some("$"),
        KEY_5 => Some("%"),
        KEY_6 => Some("^"),
        KEY_7 => Some("&"),
        KEY_8 => Some("*"),
        KEY_9 => Some("("),
        KEY_MINUS => Some("_"),
        KEY_EQUAL => Some("+"),
        KEY_LEFTBRACE => Some("{"),
        KEY_RIGHTBRACE => Some("}"),
        KEY_SEMICOLON => Some(":"),
        KEY_APOSTROPHE => Some("\""),
        KEY_GRAVE => Some("~"),
        KEY_BACKSLASH => Some("|"),
        KEY_COMMA => Some("<"),
        KEY_DOT => Some(">"),
        KEY_SLASH => Some("?"),
        _ => None,
    }
}

/// One lowercase hexadecimal digit.
pub open spec fn spec_hex_digit(n: int) -> char {
    if n == 0 {
        '0'
    } else if n == 1 {
        '1'
    } else if n == 2 {
        '2'
    } else if n == 3 {
        '3'
    } else if n == 4 {
        '4'
    } else if n == 5 {
        '5'
    } else if n == 6 {
        '6'
    } else if n == 7 {
        '7'
    } else if n == 8 {
        '8'
    } else if n == 9 {
        '9'
    } else if n == 10 {
        'a'
    } else if n == 11 {
        'b'
    } else if n == 12 {
        'c'
    } else if n == 13 {
        'd'
    } else if n == 14 {
        'e'
    } else {
        'f'
    }
}

/// The hexadecimal digits of a value, most significant first, no leading
/// zeros.
pub open spec fn spec_hex_digits(n: int) -> Seq<char>
    decreases n,
{
    if n < 16 {
        seq![spec_hex_digit(n)]
    } else {
        spec_hex_digits(n / 16).push(spec_hex_digit(n % 16))
    }
}

/// The bracketed fallback token for a code outside the tables: the code in
/// lowercase hexadecimal, at least two digits, behind a `0x` prefix.
pub open spec fn spec_hex_token(code: u16) -> Seq<char> {
    let digits = if code < 16 {
        seq!['0'] + spec_hex_digits(code as int)
    } else {
        spec_hex_digits(code as int)
    };
    seq!['<', '0', 'x'] + digits + seq!['>']
}

fn hex_digit_char(n: u16) -> (r: char)
    requires
        n < 16,
    ensures
        r == spec_hex_digit(n as int),
{
    match n {
        0 => '0',
        1 => '1',
        2 => '2',
        3 => '3',
        4 => '4',
        5 => '5',
        6 => '6',
        7 => '7',
        8 => '8',
        9 => '9',
        10 => 'a',
        11 => 'b',
        12 => 'c',
        13 => 'd',
        14 => 'e',
        _ => 'f',
    }
}

fn push_hex_digits(out: &mut Vec<char>, n: u16)
    ensures
        final(out)@ == old(out)@ + spec_hex_digits(n as int),
    decreases n,
{
    if n < 16 {
        out.push(hex_digit_char(n));
        proof {
            assert(final(out)@ =~= old(out)@ + spec_hex_digits(n as int));
        }
    } else {
        push_hex_digits(out, n / 16);
        out.push(hex_digit_char(n % 16));
        proof {
            assert(final(out)@ =~= old(out)@ + spec_hex_digits(n as int));
        }
    }
}

/// Build the bracketed hexadecimal fallback token for an unmapped code.
fn hex_token_chars(code: u16) -> (r: Vec<char>)
    ensures
        r@ == spec_hex_token(code),
{
    let mut out: Vec<char> = Vec::new();
    out.push('<');
    out.push('0');
    out.push('x');
    if code < 16 {
        out.push('0');
    }
    push_hex_digits(&mut out, code);
    out.push('>');
    proof {
        assert(out@ =~= spec_hex_token(code));
    }
    out
}

/// Append every character of a string slice.
#[verifier::loop_isolation(false)]
fn push_str_chars(out: &mut Vec<char>, s: &str)
    ensures
        final(out)@ == old(out)@ + s@,
{
    let ghost base = out@;
    let n = s.unicode_len();
    let mut j: usize = 0;
    while j < n
        invariant
            n == s@.len(),
            j <= n,
            out@ == base + s@.take(j as int),
        decreases n - j,
    {
        let c = s.get_char(j);
        out.push(c);
        j = j + 1;
        proof {
            assert(base + s@.take(j as int) =~= (base + s@.take(j - 1 as int)).push(
                s@[j - 1 as int],
            ));
        }
    }
    proof {
        assert(s@.take(n as int) =~= s@);
    }
}

/// Append the characters of `ch` between two indices.
#[verifier::loop_isolation(false)]
fn push_chars_range(out: &mut Vec<char>, ch: &Vec<char>, from: usize, to: usize)
    requires
        from <= to <= ch@.len(),
    ensures
        final(out)@ == old(out)@ + ch@.subrange(from as int, to as int),
{
    let ghost base = out@;
    let mut j: usize = from;
    while j < to
        invariant
            from <= j <= to,
            out@ == base + ch@.subrange(from as int, j as int),
        decreases to - j,
    {
        out.push(ch[j]);
        j = j + 1;
        proof {
            assert(base + ch@.subrange(from as int, j as int) =~= (base + ch@.subrange(
                from as int,
                j - 1 as int,
            )).push(ch@[j - 1 as int]));
        }
    }
}

/// The characters of a string slice as a vector.
fn str_chars(s: &str) -> (r: Vec<char>)
    ensures
        r@ == s@,
{
    let mut out: Vec<char> = Vec::new();
    push_str_chars(&mut out, s);
    out
}

/// The full state the engine threads through one batch: the live modifier
/// bits, the last-emission snapshot, and the text produced so far.
pub ghost struct ParserState {
    pub mods: ModifierState,
    pub last: LastEmissionState,
    pub out: Seq<char>,
}

impl ParserState {
    /// The state at the start of every batch: nothing held, nothing typed.
    pub open spec fn initial() -> ParserState {
        ParserState {
            mods: ModifierState::spec_default(),
            last: LastEmissionState::spec_default(),
            out: Seq::empty(),
        }
    }
}

/// How a character renders inside a bracketed sequence: the literal
/// backspace glyph as the word `Backspace`, an already-bracketed token as
/// its inner text, anything else as itself.
pub open spec fn spec_render_in_bracket(ch: Seq<char>) -> Seq<char> {
    if ch.len() == 1 && ch[0] == '\u{8}' {
        "Backspace"@
    } else if ch.len() >= 2 && ch[0] == '<' && ch.last() == '>' {
        ch.subrange(1, ch.len() - 1)
    } else {
        ch
    }
}

/// The modifier-name segments that open a new bracket: Meta, Ctrl, Shift
/// (only when the chord exists because the shifted glyph is missing), Alt,
/// joined with `-`, with a final `-` before the character if any segment
/// was written.
pub open spec fn spec_modifier_prefix(mods: ModifierState, shift_char_missing: bool) -> Seq<
    char,
> {
    let dash = seq!['-'];
    let empty = Seq::<char>::empty();
    let s1 = if mods.meta {
        "Meta"@
    } else {
        empty
    };
    let h1 = mods.meta;
    let s2 = if mods.ctrl {
        s1 + (if h1 {
            dash
        } else {
            empty
        }) + "Ctrl"@
    } else {
        s1
    };
    let h2 = h1 || mods.ctrl;
    let s3 = if mods.shift && shift_char_missing {
        s2 + (if h2 {
            dash
        } else {
            empty
        }) + "Shift"@
    } else {
        s2
    };
    let h3 = h2 || (mods.shift && shift_char_missing);
    let s4 = if mods.alt {
        s3 + (if h3 {
            dash
        } else {
            empty
        }) + "Alt"@
    } else {
        s3
    };
    let h4 = h3 || mods.alt;
    if h4 {
        s4 + dash
    } else {
        s4
    }
}

/// Append one chorded character: into the still-open bracket when the text
/// ends with `>` and the modifier context is unchanged since the previous
/// emission, otherwise as a freshly opened bracket.
pub open spec fn spec_chord(
    out: Seq<char>,
    ch: Seq<char>,
    mods: ModifierState,
    shift_char_missing: bool,
    last: LastEmissionState,
) -> Seq<char> {
    if out.len() > 0 && out.last() == '>' && last.mods == mods && last.shift_char_missing
        == shift_char_missing {
        out.drop_last() + spec_render_in_bracket(ch) + seq!['>']
    } else {
        out + seq!['<'] + spec_modifier_prefix(mods, shift_char_missing)
            + spec_render_in_bracket(ch) + seq!['>']
    }
}

/// The glyph a code resolves to before case is applied: the unshifted
/// table entry, or the bracketed hexadecimal fallback.
pub open spec fn spec_base_char(code: u16) -> Seq<char> {
    match spec_key_map(code) {
        Some(c) => c,
        None => spec_hex_token(code),
    }
}

/// The glyph a press of `code` produces under the given modifiers, with
/// the shift-char-missing flag: uppercase is wanted exactly when shift and
/// caps-lock differ, and falls back to the base glyph when the shifted
/// table has no entry.
pub open spec fn spec_resolved_char(code: u16, mods: ModifierState) -> (Seq<char>, bool) {
    let base = spec_base_char(code);
    if mods.shift != mods.caps_lock {
        match spec_key_map_shift(code) {
            Some(c) => (c, false),
            None => (base, true),
        }
    } else {
        (base, false)
    }
}

/// The effect of one key press on the whole engine state.
pub open spec fn spec_press(s: ParserState, code: u16) -> ParserState {
    if code == KEY_LEFTSHIFT || code == KEY_RIGHTSHIFT {
        ParserState { mods: ModifierState { shift: true, ..s.mods }, ..s }
    } else if code == KEY_LEFTCTRL || code == KEY_RIGHTCTRL {
        ParserState { mods: ModifierState { ctrl: true, ..s.mods }, ..s }
    } else if code == KEY_LEFTALT || code == KEY_RIGHTALT {
        ParserState { mods: ModifierState { alt: true, ..s.mods }, ..s }
    } else if code == KEY_LEFTMETA || code == KEY_RIGHTMETA {
        ParserState { mods: ModifierState { meta: true, ..s.mods }, ..s }
    } else if code == KEY_CAPSLOCK {
        ParserState { mods: ModifierState { caps_lock: !s.mods.caps_lock, ..s.mods }, ..s }
    } else if code == KEY_BACKSPACE {
        if s.mods.ctrl || s.mods.alt || s.mods.meta {
            ParserState {
                mods: s.mods,
                last: LastEmissionState { mods: s.mods, shift_char_missing: true },
                out: spec_chord(s.out, seq!['\u{8}'], s.mods, true, s.last),
            }
        } else if s.out.len() > 0 && s.out.last() != '>' {
            ParserState { out: s.out.drop_last(), ..s }
        } else {
            ParserState { out: s.out + "<Backspace>"@, ..s }
        }
    } else {
        let (ch, shift_char_missing) = spec_resolved_char(code, s.mods);
        if s.mods.ctrl || s.mods.alt || s.mods.meta || (s.mods.shift && shift_char_missing) {
            ParserState {
                mods: s.mods,
                last: LastEmissionState { mods: s.mods, shift_char_missing },
                out: spec_chord(s.out, ch, s.mods, shift_char_missing, s.last),
            }
        } else {
            ParserState {
                mods: s.mods,
                last: LastEmissionState { mods: s.mods, shift_char_missing: false },
                out: s.out + ch,
            }
        }
    }
}

/// The effect of one key release: modifier bits clear; every other code is
/// a no-op — nothing typed is undone.
pub open spec fn spec_release_mods(mods: ModifierState, code: u16) -> ModifierState {
    if code == KEY_LEFTSHIFT || code == KEY_RIGHTSHIFT {
        ModifierState { shift: false, ..mods }
    } else if code == KEY_LEFTCTRL || code == KEY_RIGHTCTRL {
        ModifierState { ctrl: false, ..mods }
    } else if code == KEY_LEFTALT || code == KEY_RIGHTALT {
        ModifierState { alt: false, ..mods }
    } else if code == KEY_LEFTMETA || code == KEY_RIGHTMETA {
        ModifierState { meta: false, ..mods }
    } else {
        mods
    }
}

/// The effect of one event: a press or a release acts as above; a repeat —
/// or any other value — is a complete no-op.
pub open spec fn spec_event(s: ParserState, e: InputEvent) -> ParserState {
    if e.spec_is_key_press() {
        spec_press(s, e.code)
    } else if e.spec_is_key_release() {
        ParserState { mods: spec_release_mods(s.mods, e.code), ..s }
    } else {
        s
    }
}

/// The engine state after a whole batch, processed strictly in arrival
/// order from the initial state.
pub open spec fn spec_parse_state(events: Seq<InputEvent>) -> ParserState
    decreases events.len(),
{
    if events.len() == 0 {
        ParserState::initial()
    } else {
        spec_event(spec_parse_state(events.drop_last()), events.last())
    }
}

/// The reconstructed text of a batch.
pub open spec fn spec_events_to_text(events: Seq<InputEvent>) -> Seq<char> {
    spec_parse_state(events).out
}

/// Write a character into a bracketed sequence, exactly as
/// [`spec_render_in_bracket`] describes.
fn append_char_to_sequence(ch: &Vec<char>, result: &mut Vec<char>)
    ensures
        final(result)@ == old(result)@ + spec_render_in_bracket(ch@),
{
    if ch.len() == 1 && ch[0] == '\u{8}' {
        push_str_chars(result, "Backspace");
    } else if ch.len() >= 2 && ch[0] == '<' && ch[ch.len() - 1] == '>' {
        push_chars_range(result, ch, 1, ch.len() - 1);
    } else {
        push_chars_range(result, ch, 0, ch.len());
        proof {
            assert(ch@.subrange(0, ch@.len() as int) =~= ch@);
        }
    }
}

/// Emit one chorded character, merging into the open bracket or opening a
/// new one, exactly as [`spec_chord`] describes.
#[verifier::rlimit(60)]
fn handle_modifier_sequence_char(
    ch: &Vec<char>,
    modifier_state: &ModifierState,
    result: &mut Vec<char>,
    shift_char_not_found: bool,
    last_emission: &LastEmissionState,
)
    ensures
        final(result)@ == spec_chord(
            old(result)@,
            ch@,
            *modifier_state,
            shift_char_not_found,
            *last_emission,
        ),
{
    let ghost out0 = result@;
    if result.len() > 0 && result[result.len() - 1] == '>' && last_emission.mods == *modifier_state
        && last_emission.shift_char_missing == shift_char_not_found {
        result.pop();
        append_char_to_sequence(ch, result);
        result.push('>');
        proof {
            assert(result@ =~= out0.drop_last() + spec_render_in_bracket(ch@) + seq!['>']);
        }
        return ;
    }
    result.push('<');
    let ghost dash = seq!['-'];
    let ghost blank = Seq::<char>::empty();
    let ghost s1 = if modifier_state.meta {
        "Meta"@
    } else {
        blank
    };
    let ghost s2 = if modifier_state.ctrl {
        s1 + (if modifier_state.meta {
            dash
        } else {
            blank
        }) + "Ctrl"@
    } else {
        s1
    };
    let ghost h2 = modifier_state.meta || modifier_state.ctrl;
    let ghost s3 = if modifier_state.shift && shift_char_not_found {
        s2 + (if h2 {
            dash
        } else {
            blank
        }) + "Shift"@
    } else {
        s2
    };
    let ghost h3 = h2 || (modifier_state.shift && shift_char_not_found);
    let ghost s4 = if modifier_state.alt {
        s3 + (if h3 {
            dash
        } else {
            blank
        }) + "Alt"@
    } else {
        s3
    };
    let ghost h4 = h3 || modifier_state.alt;
    let mut has_modifier = false;
    if modifier_state.meta {
        push_str_chars(result, "Meta");
        has_modifier = true;
    }
    proof {
        assert(result@ =~= out0 + seq!['<'] + s1);
    }
    if modifier_state.ctrl {
        if has_modifier {
            result.push('-');
        }
        push_str_chars(result, "Ctrl");
        has_modifier = true;
    }
    proof {
        assert(result@ =~= out0 + seq!['<'] + s2);
        assert(has_modifier == h2);
    }
    if modifier_state.shift && shift_char_not_found {
        if has_modifier {
            result.push('-');
        }
        push_str_chars(result, "Shift");
        has_modifier = true;
    }
    proof {
        assert(result@ =~= out0 + seq!['<'] + s3);
        assert(has_modifier == h3);
    }
    if modifier_state.alt {
        if has_modifier {
            result.push('-');
        }
        push_str_chars(result, "Alt");
        has_modifier = true;
    }
    proof {
        assert(result@ =~= out0 + seq!['<'] + s4);
        assert(has_modifier == h4);
    }
    if has_modifier {
        result.push('-');
    }
    proof {
        assert(result@ =~= out0 + seq!['<'] + spec_modifier_prefix(
            *modifier_state,
            shift_char_not_found,
        ));
    }
    append_char_to_sequence(ch, result);
    result.push('>');
    proof {
        assert(result@ =~= out0 + seq!['<'] + spec_modifier_prefix(
            *modifier_state,
            shift_char_not_found,
        ) + spec_render_in_bracket(ch@) + seq!['>']);
    }
}

/// Apply one key press to the engine state, exactly as [`spec_press`]
/// describes.
fn handle_key_press(
    code: u16,
    modifier_state: &mut ModifierState,
    result: &mut Vec<char>,
    last_emission: &mut LastEmissionState,
)
    ensures
        ({
            let s1 = spec_press(
                ParserState {
                    mods: *old(modifier_state),
                    last: *old(last_emission),
                    out: old(result)@,
                },
                code,
            );
            *final(modifier_state) == s1.mods && *final(last_emission) == s1.last
                && final(result)@ == s1.out
        }),
{
    match code {
        KEY_LEFTSHIFT | KEY_RIGHTSHIFT => {
            modifier_state.shift = true;
        },
        KEY_LEFTCTRL | KEY_RIGHTCTRL => {
            modifier_state.ctrl = true;
        },
        KEY_LEFTALT | KEY_RIGHTALT => {
            modifier_state.alt = true;
        },
        KEY_LEFTMETA | KEY_RIGHTMETA => {
            modifier_state.meta = true;
        },
        KEY_CAPSLOCK => {
            modifier_state.caps_lock = !modifier_state.caps_lock;
        },
        KEY_BACKSPACE => {
            if modifier_state.ctrl || modifier_state.alt || modifier_state.meta {
                let mut bs: Vec<char> = Vec::new();
                bs.push('\u{8}');
                proof {
                    assert(bs@ =~= seq!['\u{8}']);
                }
                handle_modifier_sequence_char(
                    &bs,
                    modifier_state,
                    result,
                    true,
                    last_emission,
                );
                last_emission.mods = *modifier_state;
                last_emission.shift_char_missing = true;
            } else {
                if result.len() > 0 && result[result.len() - 1] != '>' {
                    result.pop();
                } else {
                    push_str_chars(result, "<Backspace>");
                }
            }
        },
        _ => {
            let base: Vec<char> = match key_map(code) {
                Some(normal_char) => str_chars(normal_char),
                None => hex_token_chars(code),
            };
            let mut shift_char_not_found = false;
            let should_uppercase = modifier_state.shift ^ modifier_state.caps_lock;
            let ch: Vec<char> = if should_uppercase {
                match key_map_shift(code) {
                    Some(shift_char) => str_chars(shift_char),
                    None => {
                        shift_char_not_found = true;
                        base
                    },
                }
            } else {
                base
            };
            if modifier_state.ctrl || modifier_state.alt || modifier_state.meta || (
            modifier_state.shift && shift_char_not_found) {
                handle_modifier_sequence_char(
                    &ch,
                    modifier_state,
                    result,
                    shift_char_not_found,
                    last_emission,
                );
                last_emission.mods = *modifier_state;
                last_emission.shift_char_missing = shift_char_not_found;
            } else {
                push_chars_range(result, &ch, 0, ch.len());
                proof {
                    assert(ch@.subrange(0, ch@.len() as int) =~= ch@);
                }
                last_emission.mods = *modifier_state;
                last_emission.shift_char_missing = false;
            }
        },
    }
}

/// Apply one key release to the modifier bits, exactly as
/// [`spec_release_mods`] describes.
fn handle_key_release(code: u16, modifier_state: &mut ModifierState)
    ensures
        *final(modifier_state) == spec_release_mods(*old(modifier_state), code),
{
    match code {
        KEY_LEFTSHIFT | KEY_RIGHTSHIFT => {
            modifier_state.shift = false;
        },
        KEY_LEFTCTRL | KEY_RIGHTCTRL => {
            modifier_state.ctrl = false;
        },
        KEY_LEFTALT | KEY_RIGHTALT => {
            modifier_state.alt = false;
        },
        KEY_LEFTMETA | KEY_RIGHTMETA => {
            modifier_state.meta = false;
        },
        _ => {},
    }
}

/// Relies on `String`'s `FromIterator` implementation over `char`: the
/// collected string holds exactly the characters of the vector, in order.
#[verifier::external_body]
fn chars_to_string(chars: &Vec<char>) -> (r: String)
    ensures
        r@ == chars@,
{
    chars.iter().collect()
}

/// Reconstruct one line of text from a batch of key events, processed
/// strictly in arrival order with fresh modifier state.
#[verifier::loop_isolation(false)]
pub fn input_events_to_text(events: &[InputEvent]) -> (r: String)
    requires
        forall|i: int| 0 <= i < events@.len() ==> (#[trigger] events@[i]).spec_is_key_event(),
    ensures
        r@ == spec_events_to_text(events@),
{
    let mut result: Vec<char> = Vec::new();
    let mut modifier_state = ModifierState::default();
    let mut last_emission = LastEmissionState::default();
    let mut idx: usize = 0;
    while idx < events.len()
        invariant
            idx <= events@.len(),
            (ParserState { mods: modifier_state, last: last_emission, out: result@ })
                == spec_parse_state(events@.take(idx as int)),
        decreases events@.len() - idx,
    {
        let event = events[idx];
        proof {
            assert(events@.take(idx + 1 as int).drop_last() =~= events@.take(idx as int));
            assert(events@.take(idx + 1 as int).last() == events@[idx as int]);
        }
        if event.is_key_press() {
            handle_key_press(event.code, &mut modifier_state, &mut result, &mut last_emission);
        } else if event.is_key_release() {
            handle_key_release(event.code, &mut modifier_state);
        }
        idx = idx + 1;
    }
    proof {
        assert(events@.take(events@.len() as int) =~= events@);
    }
    chars_to_string(&result)
}

} // verus!
