//! Userland device drivers: the PS/2 keyboard decoder (scancode set 1 with
//! modifiers and dead keys), the PS/2 mouse packet decoder, and the
//! framebuffer geometry record. Reading and writing devices is done by the
//! caller; these types turn the bytes read into events.

use vstd::prelude::*;
use crate::abi::{SymbolMap, Value, ValueView};
use crate::canon::{Symbol, BUTTONS, DX, DY, KEY, SCANCODE};

verus! {

/// Kinds of device the kernel exposes.
#[derive(Clone, Copy, Debug, PartialEq, Eq, Structural)]
pub enum DeviceKind {
    Keyboard,
    Mouse,
    Framebuffer,
    Serial,
}

impl DeviceKind {
    /// The number the kernel knows each kind by.
    pub open spec fn spec_code(self) -> u32 {
        match self {
            DeviceKind::Keyboard => 1,
            DeviceKind::Mouse => 2,
            DeviceKind::Framebuffer => 3,
            DeviceKind::Serial => 4,
        }
    }

    /// The number the kernel knows this kind by.
    pub fn code(self) -> (c: u32)
        ensures
            c == self.spec_code(),
    {
        match self {
            DeviceKind::Keyboard => 1,
            DeviceKind::Mouse => 2,
            DeviceKind::Framebuffer => 3,
            DeviceKind::Serial => 4,
        }
    }
}

/// A handle to an open device.
#[derive(Clone, Copy, Debug, PartialEq, Eq, Structural)]
pub struct DeviceHandle(pub u64);

/// The devices a driver process has opened.
pub struct DriverContext {
    handles: Vec<DeviceHandle>,
}

impl DriverContext {
    /// The handles opened so far, in order.
    pub closed spec fn spec_handles(&self) -> Seq<DeviceHandle> {
        self.handles@
    }

    /// A context with no open device.
    pub fn new() -> (c: DriverContext)
        ensures
            c.spec_handles() == Seq::<DeviceHandle>::empty(),
    {
        DriverContext { handles: Vec::new() }
    }

    /// Record the outcome of opening a device: the handle the kernel gave, if any.
    pub fn open_device(&mut self, opened: Option<u64>) -> (h: Option<DeviceHandle>)
        ensures
            h == (match opened {
                Some(raw) => Some(DeviceHandle(raw)),
                None => None,
            }),
            final(self).spec_handles() == (match opened {
                Some(raw) => old(self).spec_handles().push(DeviceHandle(raw)),
                None => old(self).spec_handles(),
            }),
    {
        match opened {
            Some(raw) => {
                let h = DeviceHandle(raw);
                self.handles.push(h);
                Some(h)
            },
            None => None,
        }
    }
}

/// A pending accent.
#[derive(Clone, Copy, Debug, PartialEq, Eq, Structural)]
pub enum DeadKey {
    Off,
    Acute,
    Grave,
    Circumflex,
    Diaeresis,
    Tilde,
}

/// A decoded key.
#[derive(Clone, Copy, Debug, PartialEq, Eq, Structural)]
pub enum KeyCode {
    Printable(char),
    Backspace,
    Tab,
    Enter,
    Escape,
    Space,
    Function(u8),
    ArrowUp,
    ArrowDown,
    ArrowLeft,
    ArrowRight,
    Home,
    End,
    PageUp,
    PageDown,
    Insert,
    Delete,
    YieldNow,
    Unknown(u8),
}

/// A key going down or up.
#[derive(Clone, Copy, Debug, PartialEq, Eq, Structural)]
pub struct KeyEvent {
    pub code: KeyCode,
    pub pressed: bool,
    pub scancode: u8,
}

/// What a key press reports: its scancode and, when it has one, its symbol.
#[derive(Clone, Copy, Debug, PartialEq, Eq, Structural)]
pub struct KeyPress {
    pub scancode: u8,
    pub key: Option<Symbol>,
}

/// The modifier and accent state of the keyboard decoder.
#[derive(Clone, Copy, Debug, PartialEq, Eq, Structural)]
pub struct KeyboardState {
    pub shift: bool,
    pub caps_lock: bool,
    pub altgr: bool,
    pub deadkey: DeadKey,
    pub prefix: u8,
}

/// The letter a scancode types, in lower case.
pub open spec fn spec_letter(scancode: u8) -> Option<char> {
    match scancode {
        0x10 => Some('q'),
        0x11 => Some('w'),
        0x12 => Some('e'),
        0x13 => Some('r'),
        0x14 => Some('t'),
        0x15 => Some('y'),
        0x16 => Some('u'),
        0x17 => Some('i'),
        0x18 => Some('o'),
        0x19 => Some('p'),
        0x1E => Some('a'),
        0x1F => Some('s'),
        0x20 => Some('d'),
        0x21 => Some('f'),
        0x22 => Some('g'),
        0x23 => Some('h'),
        0x24 => Some('j'),
        0x25 => Some('k'),
        0x26 => Some('l'),
        0x2C => Some('z'),
        0x2D => Some('x'),
        0x2E => Some('c'),
        0x2F => Some('v'),
        0x30 => Some('b'),
        0x31 => Some('n'),
        0x32 => Some('m'),
        _ => None,
    }
}

/// The digit a scancode types, or the symbol above it with shift.
pub open spec fn spec_digit(scancode: u8, shift: bool) -> Option<char> {
    let base: Option<char> = match scancode {
        0x0B => Some('0'),
        0x02 => Some('1'),
        0x03 => Some('2'),
        0x04 => Some('3'),
        0x05 => Some('4'),
        0x06 => Some('5'),
        0x07 => Some('6'),
        0x08 => Some('7'),
        0x09 => Some('8'),
        0x0A => Some('9'),
        _ => None,
    };
    match base {
        None => None,
        Some(c) => if shift {
            Some(match c {
                '1' => '!',
                '2' => '@',
                '3' => '#',
                '4' => '$',
                '5' => '%',
                '6' => '^',
                '7' => '&',
                '8' => '*',
                '9' => '(',
                '0' => ')',
                other => other,
            })
        } else {
            Some(c)
        },
    }
}

/// The punctuation a scancode types.
pub open spec fn spec_symbol(scancode: u8, shift: bool, altgr: bool) -> Option<char> {
    let base: Option<char> = match scancode {
        0x1A => if altgr { Some('}') } else { None },
        0x1B => Some('['),
        0x27 => Some(';'),
        0x28 => Some('\''),
        0x29 => Some('`'),
        0x2B => Some('\\'),
        0x33 => Some(','),
        0x34 => Some('.'),
        0x35 => Some('/'),
        0x56 => if altgr { Some('\\') } else { Some('`') },
        0x73 => Some(';'),
        0x7D => if altgr { Some('|') } else { None },
        _ => None,
    };
    match base {
        None => None,
        Some(c) => if shift {
            Some(match c {
                '[' => '{',
                ']' => '}',
                ';' => ':',
                '\'' => '"',
                '`' => '~',
                '\\' => '|',
                ',' => '<',
                '.' => '>',
                '/' => '?',
                c => c,
            })
        } else {
            Some(c)
        },
    }
}

/// Whether a character is an ASCII capital letter.
pub open spec fn is_ascii_upper(c: char) -> bool {
    'A' <= c && c <= 'Z'
}

/// The ASCII lower case of a character (others unchanged).
pub open spec fn ascii_lower(c: char) -> char {
    if is_ascii_upper(c) {
        ((c as u32) + 32) as char
    } else {
        c
    }
}

/// The ASCII upper case of a character (others unchanged).
pub open spec fn ascii_upper(c: char) -> char {
    if 'a' <= c && c <= 'z' {
        ((c as u32) - 32) as char
    } else {
        c
    }
}

/// The accented letter an accent and a lower-case letter make.
pub open spec fn spec_compose(dead: DeadKey, lower: char) -> Option<char> {
    match (dead, lower) {
        (DeadKey::Acute, 'a') => Some('\u{e1}'),
        (DeadKey::Acute, 'e') => Some('\u{e9}'),
        (DeadKey::Acute, 'i') => Some('\u{ed}'),
        (DeadKey::Acute, 'o') => Some('\u{f3}'),
        (DeadKey::Acute, 'u') => Some('\u{fa}'),
        (DeadKey::Acute, 'c') => Some('\u{107}'),
        (DeadKey::Acute, 'n') => Some('\u{144}'),
        (DeadKey::Grave, 'a') => Some('\u{e0}'),
        (DeadKey::Grave, 'e') => Some('\u{e8}'),
        (DeadKey::Grave, 'i') => Some('\u{ec}'),
        (DeadKey::Grave, 'o') => Some('\u{f2}'),
        (DeadKey::Grave, 'u') => Some('\u{f9}'),
        (DeadKey::Circumflex, 'a') => Some('\u{e2}'),
        (DeadKey::Circumflex, 'e') => Some('\u{ea}'),
        (DeadKey::Circumflex, 'i') => Some('\u{ee}'),
        (DeadKey::Circumflex, 'o') => Some('\u{f4}'),
        (DeadKey::Circumflex, 'u') => Some('\u{fb}'),
        (DeadKey::Circumflex, 'c') => Some('\u{109}'),
        (DeadKey::Diaeresis, 'a') => Some('\u{e4}'),
        (DeadKey::Diaeresis, 'e') => Some('\u{eb}'),
        (DeadKey::Diaeresis, 'i') => Some('\u{ef}'),
        (DeadKey::Diaeresis, 'o') => Some('\u{f6}'),
        (DeadKey::Diaeresis, 'u') => Some('\u{fc}'),
        (DeadKey::Diaeresis, 'y') => Some('\u{ff}'),
        (DeadKey::Tilde, 'a') => Some('\u{e3}'),
        (DeadKey::Tilde, 'o') => Some('\u{f5}'),
        (DeadKey::Tilde, 'n') => Some('\u{f1}'),
        _ => None,
    }
}

/// The first character of the upper-case mapping of a character.
pub uninterp spec fn spec_to_upper_first(c: char) -> Option<char>;

/// The first character of `char::to_uppercase`.
/// Trusted: the result is that of `to_uppercase().next()` on `c`; which
/// character that is rests on the Unicode case tables of `core` and is left to
/// the name.
#[verifier::external_body]
fn to_upper_first(c: char) -> (r: Option<char>)
    ensures
        r == spec_to_upper_first(c),
{
    c.to_uppercase().next()
}

/// The character an accent and a typed character make: the accented letter
/// (in upper case when the typed one was), or `None` when they do not combine.
pub open spec fn spec_apply_dead_key(dead: DeadKey, ch: char) -> Option<char> {
    match spec_compose(dead, ascii_lower(ch)) {
        None => None,
        Some(c) => if is_ascii_upper(ch) {
            spec_to_upper_first(c)
        } else {
            Some(c)
        },
    }
}

/// The symbol a key reports.
pub open spec fn spec_key_symbol(code: KeyCode) -> Option<u32> {
    match code {
        KeyCode::Printable(c) => Some(c as u32),
        KeyCode::Tab => Some(0x544200),
        KeyCode::Enter => Some(0x454e00),
        KeyCode::Escape => Some(0x455300),
        KeyCode::Space => Some(0x20),
        KeyCode::Function(idx) => Some((0xF000u32 | (idx as u32)) as u32),
        KeyCode::ArrowUp => Some(0x415500),
        KeyCode::ArrowDown => Some(0x414400),
        KeyCode::ArrowLeft => Some(0x414c00),
        KeyCode::ArrowRight => Some(0x415200),
        KeyCode::Home => Some(0x484d00),
        KeyCode::End => Some(0x454400),
        KeyCode::PageUp => Some(0x505500),
        KeyCode::PageDown => Some(0x504400),
        KeyCode::Insert => Some(0x494e00),
        KeyCode::Delete => Some(0x444c00),
        KeyCode::YieldNow => Some(0x594c00),
        KeyCode::Backspace => Some(0x425300),
        KeyCode::Unknown(_) => None,
    }
}

/// Shift, AltGr and Caps Lock scancodes update the state and are consumed.
pub open spec fn spec_update_modifier(s: KeyboardState, scancode: u8) -> (KeyboardState, bool) {
    let released = scancode >= 0x80;
    let code = scancode % 0x80;
    if code == 0x2A || code == 0x36 {
        (KeyboardState { shift: !released, ..s }, true)
    } else if code == 0x38 {
        (KeyboardState { altgr: !released, ..s }, true)
    } else if code == 0x3A && !released {
        (KeyboardState { caps_lock: !s.caps_lock, ..s }, true)
    } else {
        (s, false)
    }
}

/// After the extended prefix, right Alt (AltGr) updates the state and is consumed.
pub open spec fn spec_update_modifier_extended(s: KeyboardState, scancode: u8) -> (KeyboardState, bool) {
    if scancode == 0x38 || scancode == 0xB8 {
        (KeyboardState { altgr: scancode < 0x80, ..s }, true)
    } else {
        (s, false)
    }
}

/// Accent keys arm an accent and are consumed.
pub open spec fn spec_start_dead_key(s: KeyboardState, scancode: u8) -> (KeyboardState, bool) {
    if scancode == 0x28 {
        (KeyboardState { deadkey: DeadKey::Acute, ..s }, true)
    } else if scancode == 0x29 {
        (KeyboardState { deadkey: if s.shift { DeadKey::Tilde } else { DeadKey::Grave }, ..s }, true)
    } else if scancode == 0x2B {
        (KeyboardState { deadkey: DeadKey::Circumflex, ..s }, true)
    } else if scancode == 0x1A {
        (KeyboardState { deadkey: DeadKey::Diaeresis, ..s }, true)
    } else {
        (s, false)
    }
}

/// The character a scancode types under the current modifiers, the armed
/// accent applied to it (and disarmed); no character leaves the accent armed.
pub open spec fn spec_scancode_to_char(s: KeyboardState, scancode: u8) -> (KeyboardState, Option<char>) {
    let uppercase = s.shift != s.caps_lock;
    let ch: Option<char> = match spec_letter(scancode) {
        Some(l) => Some(if uppercase { ascii_upper(l) } else { l }),
        None => match spec_digit(scancode, s.shift) {
            Some(d) => Some(d),
            None => spec_symbol(scancode, s.shift, s.altgr),
        },
    };
    match ch {
        None => (s, None),
        Some(c) => {
            let s2 = KeyboardState { deadkey: DeadKey::Off, ..s };
            match spec_apply_dead_key(s.deadkey, c) {
                Some(composed) => (s2, Some(composed)),
                None => (s2, Some(c)),
            }
        },
    }
}

/// Decode a scancode without prefix.
pub open spec fn spec_decode_basic(s: KeyboardState, scancode: u8) -> (KeyboardState, Option<KeyEvent>) {
    let pressed = scancode < 0x80;
    let code = (scancode % 0x80) as u8;
    let key: Option<KeyCode> = if code == 0x01 {
        Some(KeyCode::Escape)
    } else if code == 0x0F {
        Some(KeyCode::Tab)
    } else if code == 0x1C {
        Some(KeyCode::Enter)
    } else if code == 0x39 {
        Some(KeyCode::Space)
    } else if code == 0x0E {
        Some(KeyCode::Backspace)
    } else if code == 0x38 {
        Some(KeyCode::YieldNow)
    } else if 0x3B <= code && code <= 0x44 {
        Some(KeyCode::Function((code - 0x3A) as u8))
    } else if code == 0x48 {
        Some(KeyCode::ArrowUp)
    } else if code == 0x50 {
        Some(KeyCode::ArrowDown)
    } else if code == 0x4B {
        Some(KeyCode::ArrowLeft)
    } else if code == 0x4D {
        Some(KeyCode::ArrowRight)
    } else {
        None
    };
    match key {
        Some(k) => (s, Some(KeyEvent { code: k, pressed, scancode: code })),
        None => {
            let (s1, armed) = spec_start_dead_key(s, code);
            if armed {
                (s1, None)
            } else {
                let (s2, c) = spec_scancode_to_char(s, code);
                match c {
                    Some(ch) => (s2, Some(KeyEvent { code: KeyCode::Printable(ch), pressed, scancode: code })),
                    None => (s2, None),
                }
            }
        },
    }
}

/// Decode a scancode after the extended prefix.
pub open spec fn spec_decode_extended(scancode: u8) -> Option<KeyEvent> {
    let pressed = scancode < 0x80;
    let code = (scancode % 0x80) as u8;
    let key: Option<KeyCode> = if code == 0x1C {
        Some(KeyCode::Enter)
    } else if code == 0x48 {
        Some(KeyCode::ArrowUp)
    } else if code == 0x50 {
        Some(KeyCode::ArrowDown)
    } else if code == 0x4B {
        Some(KeyCode::ArrowLeft)
    } else if code == 0x4D {
        Some(KeyCode::ArrowRight)
    } else if code == 0x47 {
        Some(KeyCode::Home)
    } else if code == 0x49 {
        Some(KeyCode::PageUp)
    } else if code == 0x4F {
        Some(KeyCode::End)
    } else if code == 0x51 {
        Some(KeyCode::PageDown)
    } else if code == 0x52 {
        Some(KeyCode::Insert)
    } else if code == 0x53 {
        Some(KeyCode::Delete)
    } else {
        None
    };
    match key {
        Some(k) => Some(KeyEvent { code: k, pressed, scancode: code }),
        None => None,
    }
}

/// One step of the keyboard decoder.
pub open spec fn spec_process(s: KeyboardState, scancode: u8) -> (KeyboardState, Option<KeyEvent>) {
    if s.prefix == 0xE0 {
        let s0 = KeyboardState { prefix: 0, ..s };
        let (s1, consumed) = spec_update_modifier_extended(s0, scancode);
        if consumed {
            (s1, None)
        } else {
            (s0, spec_decode_extended(scancode))
        }
    } else if scancode == 0xE0 {
        (KeyboardState { prefix: 0xE0, ..s }, None)
    } else {
        let (s1, consumed) = spec_update_modifier(s, scancode);
        if consumed {
            (s1, None)
        } else {
            spec_decode_basic(s, scancode)
        }
    }
}

/// What a decoded key event reports: presses only.
pub open spec fn spec_key_press(ev: KeyEvent) -> Option<KeyPress> {
    if ev.pressed {
        Some(KeyPress {
            scancode: ev.scancode,
            key: match spec_key_symbol(ev.code) {
                Some(c) => Some(Symbol(c)),
                None => None,
            },
        })
    } else {
        None
    }
}

/// Run the decoder over bytes: the state after and the presses reported, in order.
pub open spec fn spec_keyboard_run(s: KeyboardState, bytes: Seq<u8>) -> (KeyboardState, Seq<KeyPress>)
    decreases bytes.len(),
{
    if bytes.len() == 0 {
        (s, Seq::empty())
    } else {
        let (s1, presses) = spec_keyboard_run(s, bytes.drop_last());
        let (s2, ev) = spec_process(s1, bytes.last());
        match ev {
            Some(e) => match spec_key_press(e) {
                Some(p) => (s2, presses.push(p)),
                None => (s2, presses),
            },
            None => (s2, presses),
        }
    }
}

fn letter_from_scancode(scancode: u8) -> (r: Option<char>)
    ensures
        r == spec_letter(scancode),
{
    match scancode {
            0x10 => Some('q'),
            0x11 => Some('w'),
            0x12 => Some('e'),
            0x13 => Some('r'),
            0x14 => Some('t'),
            0x15 => Some('y'),
            0x16 => Some('u'),
            0x17 => Some('i'),
            0x18 => Some('o'),
            0x19 => Some('p'),
            0x1E => Some('a'),
            0x1F => Some('s'),
            0x20 => Some('d'),
            0x21 => Some('f'),
            0x22 => Some('g'),
            0x23 => Some('h'),
            0x24 => Some('j'),
            0x25 => Some('k'),
            0x26 => Some('l'),
            0x2C => Some('z'),
            0x2D => Some('x'),
            0x2E => Some('c'),
            0x2F => Some('v'),
            0x30 => Some('b'),
            0x31 => Some('n'),
            0x32 => Some('m'),
            _ => None,
    }
}

fn digit_from_scancode(scancode: u8, shift: bool) -> (r: Option<char>)
    ensures
        r == spec_digit(scancode, shift),
{
    let base: Option<char> = match scancode {
            0x0B => Some('0'),
            0x02 => Some('1'),
            0x03 => Some('2'),
            0x04 => Some('3'),
            0x05 => Some('4'),
            0x06 => Some('5'),
            0x07 => Some('6'),
            0x08 => Some('7'),
            0x09 => Some('8'),
            0x0A => Some('9'),
            _ => None,
    };
    match base {
        None => None,
        Some(c) => if shift {
            Some(match c {
                '1' => '!',
                '2' => '@',
                '3' => '#',
                '4' => '$',
                '5' => '%',
                '6' => '^',
                '7' => '&',
                '8' => '*',
                '9' => '(',
                '0' => ')',
                other => other,
            })
        } else {
            Some(c)
        },
    }
}

fn symbol_from_scancode(scancode: u8, shift: bool, altgr: bool) -> (r: Option<char>)
    ensures
        r == spec_symbol(scancode, shift, altgr),
{
    let base: Option<char> = match scancode {
        0x1A => if altgr { Some('}') } else { None },
        0x1B => Some('['),
        0x27 => Some(';'),
        0x28 => Some('\''),
        0x29 => Some('`'),
        0x2B => Some('\\'),
        0x33 => Some(','),
        0x34 => Some('.'),
        0x35 => Some('/'),
        0x56 => if altgr { Some('\\') } else { Some('`') },
        0x73 => Some(';'),
        0x7D => if altgr { Some('|') } else { None },
        _ => None,
    };
    match base {
        None => None,
        Some(c) => if shift {
            Some(match c {
                '[' => '{',
                ']' => '}',
                ';' => ':',
                '\'' => '"',
                '`' => '~',
                '\\' => '|',
                ',' => '<',
                '.' => '>',
                '/' => '?',
                c => c,
            })
        } else {
            Some(c)
        },
    }
}

fn to_ascii_lower(c: char) -> (r: char)
    ensures
        r == ascii_lower(c),
{
    if 'A' <= c && c <= 'Z' {
        let code: u8 = ((c as u32) + 32) as u8;
        code as char
    } else {
        c
    }
}

fn to_ascii_upper(c: char) -> (r: char)
    ensures
        r == ascii_upper(c),
{
    if 'a' <= c && c <= 'z' {
        let code: u8 = ((c as u32) - 32) as u8;
        code as char
    } else {
        c
    }
}

fn compose(dead: DeadKey, lower: char) -> (r: Option<char>)
    ensures
        r == spec_compose(dead, lower),
{
    match (dead, lower) {
            (DeadKey::Acute, 'a') => Some('\u{e1}'),
            (DeadKey::Acute, 'e') => Some('\u{e9}'),
            (DeadKey::Acute, 'i') => Some('\u{ed}'),
            (DeadKey::Acute, 'o') => Some('\u{f3}'),
            (DeadKey::Acute, 'u') => Some('\u{fa}'),
            (DeadKey::Acute, 'c') => Some('\u{107}'),
            (DeadKey::Acute, 'n') => Some('\u{144}'),
            (DeadKey::Grave, 'a') => Some('\u{e0}'),
            (DeadKey::Grave, 'e') => Some('\u{e8}'),
            (DeadKey::Grave, 'i') => Some('\u{ec}'),
            (DeadKey::Grave, 'o') => Some('\u{f2}'),
            (DeadKey::Grave, 'u') => Some('\u{f9}'),
            (DeadKey::Circumflex, 'a') => Some('\u{e2}'),
            (DeadKey::Circumflex, 'e') => Some('\u{ea}'),
            (DeadKey::Circumflex, 'i') => Some('\u{ee}'),
            (DeadKey::Circumflex, 'o') => Some('\u{f4}'),
            (DeadKey::Circumflex, 'u') => Some('\u{fb}'),
            (DeadKey::Circumflex, 'c') => Some('\u{109}'),
            (DeadKey::Diaeresis, 'a') => Some('\u{e4}'),
            (DeadKey::Diaeresis, 'e') => Some('\u{eb}'),
            (DeadKey::Diaeresis, 'i') => Some('\u{ef}'),
            (DeadKey::Diaeresis, 'o') => Some('\u{f6}'),
            (DeadKey::Diaeresis, 'u') => Some('\u{fc}'),
            (DeadKey::Diaeresis, 'y') => Some('\u{ff}'),
            (DeadKey::Tilde, 'a') => Some('\u{e3}'),
            (DeadKey::Tilde, 'o') => Some('\u{f5}'),
            (DeadKey::Tilde, 'n') => Some('\u{f1}'),
            _ => None,
    }
}

fn apply_dead_key(dead: DeadKey, ch: char) -> (r: Option<char>)
    ensures
        r == spec_apply_dead_key(dead, ch),
{
    let lower = to_ascii_lower(ch);
    match compose(dead, lower) {
        None => None,
        Some(c) => if 'A' <= ch && ch <= 'Z' {
            to_upper_first(c)
        } else {
            Some(c)
        },
    }
}

fn key_symbol(code: KeyCode) -> (r: Option<Symbol>)
    ensures
        r == (match spec_key_symbol(code) {
            Some(c) => Some(Symbol(c)),
            None => None,
        }),
{
    match code {
        KeyCode::Printable(c) => Some(Symbol(c as u32)),
        KeyCode::Tab => Some(Symbol(0x544200)),
        KeyCode::Enter => Some(Symbol(0x454e00)),
        KeyCode::Escape => Some(Symbol(0x455300)),
        KeyCode::Space => Some(Symbol(0x20)),
        KeyCode::Function(idx) => Some(Symbol(0xF000u32 | (idx as u32))),
        KeyCode::ArrowUp => Some(Symbol(0x415500)),
        KeyCode::ArrowDown => Some(Symbol(0x414400)),
        KeyCode::ArrowLeft => Some(Symbol(0x414c00)),
        KeyCode::ArrowRight => Some(Symbol(0x415200)),
        KeyCode::Home => Some(Symbol(0x484d00)),
        KeyCode::End => Some(Symbol(0x454400)),
        KeyCode::PageUp => Some(Symbol(0x505500)),
        KeyCode::PageDown => Some(Symbol(0x504400)),
        KeyCode::Insert => Some(Symbol(0x494e00)),
        KeyCode::Delete => Some(Symbol(0x444c00)),
        KeyCode::YieldNow => Some(Symbol(0x594c00)),
        KeyCode::Backspace => Some(Symbol(0x425300)),
        KeyCode::Unknown(_) => None,
    }
}

/// The PS/2 keyboard driver: a device handle and the decoder state.
pub struct KeyboardDriver {
    pub dev: DeviceHandle,
    pub state: KeyboardState,
}

impl KeyboardDriver {
    /// Start a driver on the keyboard the caller opened, if it could be opened.
    pub fn init(ctx: &mut DriverContext, opened: Option<u64>) -> (d: Option<KeyboardDriver>)
        ensures
            d is Some <==> opened is Some,
            d matches Some(k) ==> Some(k.dev.0) == opened && k.state == KeyboardDriver::initial(),
            final(ctx).spec_handles() == (match opened {
                Some(raw) => old(ctx).spec_handles().push(DeviceHandle(raw)),
                None => old(ctx).spec_handles(),
            }),
    {
        match ctx.open_device(opened) {
            Some(dev) => Some(KeyboardDriver::from_handle(dev)),
            None => None,
        }
    }

    /// No modifier held, no accent armed, no prefix pending.
    pub open spec fn initial() -> KeyboardState {
        KeyboardState { shift: false, caps_lock: false, altgr: false, deadkey: DeadKey::Off, prefix: 0 }
    }

    /// A driver on an open keyboard, in the initial state.
    pub fn from_handle(dev: DeviceHandle) -> (d: KeyboardDriver)
        ensures
            d.dev == dev,
            d.state == KeyboardDriver::initial(),
    {
        KeyboardDriver {
            dev,
            state: KeyboardState { shift: false, caps_lock: false, altgr: false, deadkey: DeadKey::Off, prefix: 0 },
        }
    }

    /// Decode the bytes read from the device, reporting each key press.
    pub fn poll(&mut self, bytes: &[u8]) -> (presses: Vec<KeyPress>)
        ensures
            final(self).dev == old(self).dev,
            (final(self).state, presses@) == spec_keyboard_run(old(self).state, bytes@),
    {
        let ghost s0 = self.state;
        let mut out: Vec<KeyPress> = Vec::new();
        let mut i: usize = 0;
        while i < bytes.len()
            invariant
                i <= bytes@.len(),
                self.dev == old(self).dev,
                s0 == old(self).state,
                (self.state, out@) == spec_keyboard_run(s0, bytes@.take(i as int)),
            decreases bytes@.len() - i,
        {
            proof {
                assert(bytes@.take(i + 1).drop_last() =~= bytes@.take(i as int));
                assert(bytes@.take(i + 1).last() == bytes@[i as int]);
            }
            match self.process_scancode(bytes[i]) {
                Some(ev) => match KeyboardDriver::key_press(ev) {
                    Some(p) => out.push(p),
                    None => {},
                },
                None => {},
            }
            i = i + 1;
        }
        proof {
            assert(bytes@.take(i as int) =~= bytes@);
        }
        out
    }

    /// What a decoded event reports: presses only.
    pub fn key_press(ev: KeyEvent) -> (p: Option<KeyPress>)
        ensures
            p == spec_key_press(ev),
    {
        if ev.pressed {
            Some(KeyPress { scancode: ev.scancode, key: key_symbol(ev.code) })
        } else {
            None
        }
    }

    /// One step of the decoder.
    pub fn process_scancode(&mut self, scancode: u8) -> (ev: Option<KeyEvent>)
        ensures
            final(self).dev == old(self).dev,
            (final(self).state, ev) == spec_process(old(self).state, scancode),
    {
        if self.state.prefix == 0xE0 {
            self.state.prefix = 0;
            if self.update_modifier_extended(scancode) {
                return None;
            }
            return KeyboardDriver::decode_extended(scancode);
        }
        if scancode == 0xE0 {
            self.state.prefix = 0xE0;
            return None;
        }
        let before = self.state;
        if self.update_modifier(scancode) {
            return None;
        }
        proof {
            assert(self.state == before);
        }
        self.decode_basic(scancode)
    }

    fn update_modifier(&mut self, scancode: u8) -> (consumed: bool)
        ensures
            final(self).dev == old(self).dev,
            (final(self).state, consumed) == spec_update_modifier(old(self).state, scancode),
    {
        let released = scancode & 0x80 != 0;
        let code = scancode & 0x7F;
        assert((scancode & 0x80u8 != 0) == (scancode >= 0x80)) by (bit_vector);
        assert(scancode & 0x7Fu8 == scancode % 0x80) by (bit_vector);
        if code == 0x2A || code == 0x36 {
            self.state.shift = !released;
            true
        } else if code == 0x38 {
            self.state.altgr = !released;
            true
        } else if code == 0x3A && !released {
            self.state.caps_lock = !self.state.caps_lock;
            true
        } else {
            false
        }
    }

    fn update_modifier_extended(&mut self, scancode: u8) -> (consumed: bool)
        ensures
            final(self).dev == old(self).dev,
            (final(self).state, consumed) == spec_update_modifier_extended(old(self).state, scancode),
    {
        let released = scancode & 0x80 != 0;
        assert((scancode & 0x80u8 != 0) == (scancode >= 0x80)) by (bit_vector);
        if scancode == 0x38 || scancode == 0xB8 {
            self.state.altgr = !released;
            true
        } else {
            false
        }
    }

    fn start_dead_key(&mut self, scancode: u8) -> (armed: bool)
        ensures
            final(self).dev == old(self).dev,
            (final(self).state, armed) == spec_start_dead_key(old(self).state, scancode),
    {
        if scancode == 0x28 {
            self.state.deadkey = DeadKey::Acute;
            true
        } else if scancode == 0x29 {
            self.state.deadkey = if self.state.shift {
                DeadKey::Tilde
            } else {
                DeadKey::Grave
            };
            true
        } else if scancode == 0x2B {
            self.state.deadkey = DeadKey::Circumflex;
            true
        } else if scancode == 0x1A {
            self.state.deadkey = DeadKey::Diaeresis;
            true
        } else {
            false
        }
    }

    fn decode_basic(&mut self, scancode: u8) -> (ev: Option<KeyEvent>)
        ensures
            final(self).dev == old(self).dev,
            (final(self).state, ev) == spec_decode_basic(old(self).state, scancode),
    {
        let pressed = scancode & 0x80 == 0;
        let code = scancode & 0x7F;
        assert((scancode & 0x80u8 == 0) == (scancode < 0x80)) by (bit_vector);
        assert(scancode & 0x7Fu8 == scancode % 0x80) by (bit_vector);
        let key = if code == 0x01 {
            KeyCode::Escape
        } else if code == 0x0F {
            KeyCode::Tab
        } else if code == 0x1C {
            KeyCode::Enter
        } else if code == 0x39 {
            KeyCode::Space
        } else if code == 0x0E {
            KeyCode::Backspace
        } else if code == 0x38 {
            KeyCode::YieldNow
        } else if 0x3B <= code && code <= 0x44 {
            KeyCode::Function(code - 0x3A)
        } else if code == 0x48 {
            KeyCode::ArrowUp
        } else if code == 0x50 {
            KeyCode::ArrowDown
        } else if code == 0x4B {
            KeyCode::ArrowLeft
        } else if code == 0x4D {
            KeyCode::ArrowRight
        } else {
            let before = self.state;
            if self.start_dead_key(code) {
                return None;
            }
            proof {
                assert(self.state == before);
            }
            return match self.scancode_to_char(code) {
                Some(c) => Some(KeyEvent { code: KeyCode::Printable(c), pressed, scancode: code }),
                None => None,
            };
        };
        Some(KeyEvent { code: key, pressed, scancode: code })
    }

    fn decode_extended(scancode: u8) -> (ev: Option<KeyEvent>)
        ensures
            ev == spec_decode_extended(scancode),
    {
        let pressed = scancode & 0x80 == 0;
        let code = scancode & 0x7F;
        assert((scancode & 0x80u8 == 0) == (scancode < 0x80)) by (bit_vector);
        assert(scancode & 0x7Fu8 == scancode % 0x80) by (bit_vector);
        let key = if code == 0x1C {
            KeyCode::Enter
        } else if code == 0x48 {
            KeyCode::ArrowUp
        } else if code == 0x50 {
            KeyCode::ArrowDown
        } else if code == 0x4B {
            KeyCode::ArrowLeft
        } else if code == 0x4D {
            KeyCode::ArrowRight
        } else if code == 0x47 {
            KeyCode::Home
        } else if code == 0x49 {
            KeyCode::PageUp
        } else if code == 0x4F {
            KeyCode::End
        } else if code == 0x51 {
            KeyCode::PageDown
        } else if code == 0x52 {
            KeyCode::Insert
        } else if code == 0x53 {
            KeyCode::Delete
        } else {
            return None;
        };
        Some(KeyEvent { code: key, pressed, scancode: code })
    }

    fn scancode_to_char(&mut self, scancode: u8) -> (c: Option<char>)
        ensures
            final(self).dev == old(self).dev,
            (final(self).state, c) == spec_scancode_to_char(old(self).state, scancode),
    {
        let uppercase = self.state.shift ^ self.state.caps_lock;
        let ch = match letter_from_scancode(scancode) {
            Some(letter) => if uppercase {
                to_ascii_upper(letter)
            } else {
                letter
            },
            None => match digit_from_scancode(scancode, self.state.shift) {
                Some(d) => d,
                None => match symbol_from_scancode(scancode, self.state.shift, self.state.altgr) {
                    Some(s) => s,
                    None => {
                        return None;
                    },
                },
            },
        };
        let dead = self.state.deadkey;
        self.state.deadkey = DeadKey::Off;
        match apply_dead_key(dead, ch) {
            Some(composed) => Some(composed),
            None => Some(ch),
        }
    }
}

/// The payload of a key-press event: its scancode, and its key when known.
pub open spec fn spec_key_payload(p: KeyPress) -> Map<u32, ValueView> {
    let m = map![SCANCODE => ValueView::U64(p.scancode as u64)];
    match p.key {
        Some(k) => m.insert(KEY, ValueView::Symbol(k.0)),
        None => m,
    }
}

/// The payload of a key-press event.
pub fn key_payload(p: &KeyPress) -> (m: SymbolMap)
    ensures
        m@ == spec_key_payload(*p),
{
    let mut m = SymbolMap::new();
    m.insert(Symbol(SCANCODE), Value::U64(p.scancode as u64));
    match p.key {
        Some(k) => m.insert(Symbol(KEY), Value::Symbol(k)),
        None => {},
    }
    proof {
        assert(Map::<u32, ValueView>::empty().insert(SCANCODE, ValueView::U64(p.scancode as u64)) =~= map![SCANCODE => ValueView::U64(p.scancode as u64)]);
    }
    m
}

/// A decoded mouse packet.
#[derive(Clone, Copy, Debug, PartialEq, Eq, Structural)]
pub struct MouseEvent {
    pub dx: i8,
    pub dy: i8,
    pub left: bool,
    pub right: bool,
    pub middle: bool,
}

/// A byte read as a two's complement `i8`.
pub open spec fn as_signed(b: u8) -> i8 {
    if b < 128 {
        b as i8
    } else {
        (b - 256) as i8
    }
}

/// Negation wrapping at the bottom of `i8`.
pub open spec fn wrapping_neg_i8(v: i8) -> i8 {
    if v == -128 {
        -128i8
    } else {
        (-v) as i8
    }
}

/// The event a complete packet decodes to: none when either overflow bit is set.
pub open spec fn spec_packet_event(flags: u8, b1: u8, b2: u8) -> Option<MouseEvent> {
    if flags & 0x40 != 0 || flags & 0x80 != 0 {
        None
    } else {
        Some(MouseEvent {
            dx: as_signed(b1),
            dy: wrapping_neg_i8(as_signed(b2)),
            left: flags & 0x01 != 0,
            right: flags & 0x02 != 0,
            middle: flags & 0x04 != 0,
        })
    }
}

/// The state of the packet decoder: the bytes of the packet so far.
pub struct PacketView {
    pub packet: Seq<u8>,
    pub index: int,
}

/// One byte fed to the decoder: a first byte without the always-set bit 3
/// is dropped (resynchronisation); the third byte completes a packet.
pub open spec fn spec_feed(p: Seq<u8>, index: int, byte: u8) -> (Seq<u8>, int, Option<MouseEvent>) {
    if index == 0 && byte & 0x08 == 0 {
        (p, index, None)
    } else {
        let p2 = p.update(index, byte);
        let i2 = (index + 1) % 3;
        if i2 != 0 {
            (p2, i2, None)
        } else {
            (p2, i2, spec_packet_event(p2[0], p2[1], p2[2]))
        }
    }
}

/// Decoder of 3-byte PS/2 mouse packets.
pub struct PacketDecoder {
    packet: [u8; 3],
    index: usize,
}

impl PacketDecoder {
    /// The bytes held and the position of the next one.
    pub closed spec fn spec_state(&self) -> (Seq<u8>, int) {
        (self.packet@, self.index as int)
    }

    /// The position is within the packet.
    pub closed spec fn wf(&self) -> bool {
        self.index < 3
    }

    /// An empty decoder.
    pub fn new() -> (d: PacketDecoder)
        ensures
            d.wf(),
            d.spec_state() == (seq![0u8, 0u8, 0u8], 0int),
    {
        let d = PacketDecoder { packet: [0u8; 3], index: 0 };
        assert(d.packet@ =~= seq![0u8, 0u8, 0u8]);
        d
    }

    /// Feed one byte.
    pub fn feed(&mut self, byte: u8) -> (ev: Option<MouseEvent>)
        requires
            old(self).wf(),
        ensures
            final(self).wf(),
            (final(self).spec_state().0, final(self).spec_state().1, ev) == spec_feed(
                old(self).spec_state().0,
                old(self).spec_state().1,
                byte,
            ),
    {
        if self.index == 0 && byte & 0x08 == 0 {
            return None;
        }
        let i = self.index;
        self.packet[i] = byte;
        self.index = (self.index + 1) % 3;
        if self.index != 0 {
            return None;
        }
        let flags = self.packet[0];
        let b1 = self.packet[1];
        let b2 = self.packet[2];
        if flags & 0x40 != 0 || flags & 0x80 != 0 {
            return None;
        }
        let dx: i8 = if b1 < 128 {
            b1 as i8
        } else {
            ((b1 as i16) - 256) as i8
        };
        let s2: i8 = if b2 < 128 {
            b2 as i8
        } else {
            ((b2 as i16) - 256) as i8
        };
        let dy: i8 = if s2 == -128 {
            -128
        } else {
            -s2
        };
        Some(MouseEvent { dx, dy, left: flags & 0x01 != 0, right: flags & 0x02 != 0, middle: flags & 0x04 != 0 })
    }
}

/// Run the packet decoder over bytes: its state after and the events, in order.
pub open spec fn spec_mouse_run(p: Seq<u8>, index: int, bytes: Seq<u8>) -> (Seq<u8>, int, Seq<MouseEvent>)
    decreases bytes.len(),
{
    if bytes.len() == 0 {
        (p, index, Seq::empty())
    } else {
        let (p1, i1, evs) = spec_mouse_run(p, index, bytes.drop_last());
        let (p2, i2, ev) = spec_feed(p1, i1, bytes.last());
        match ev {
            Some(e) => (p2, i2, evs.push(e)),
            None => (p2, i2, evs),
        }
    }
}

/// The PS/2 mouse driver.
pub struct MouseDriver {
    pub dev: DeviceHandle,
    pub decoder: PacketDecoder,
}

impl MouseDriver {
    /// Start a driver on the mouse the caller opened, if it could be opened.
    pub fn init(ctx: &mut DriverContext, opened: Option<u64>) -> (d: Option<MouseDriver>)
        ensures
            d is Some <==> opened is Some,
            d matches Some(m) ==> Some(m.dev.0) == opened && m.decoder.wf() && m.decoder.spec_state() == (
                seq![0u8, 0u8, 0u8],
                0int,
            ),
            final(ctx).spec_handles() == (match opened {
                Some(raw) => old(ctx).spec_handles().push(DeviceHandle(raw)),
                None => old(ctx).spec_handles(),
            }),
    {
        match ctx.open_device(opened) {
            Some(dev) => Some(MouseDriver::from_handle(dev)),
            None => None,
        }
    }

    /// A driver on an open mouse, with no packet byte seen yet.
    pub fn from_handle(dev: DeviceHandle) -> (d: MouseDriver)
        ensures
            d.dev == dev,
            d.decoder.wf(),
            d.decoder.spec_state() == (seq![0u8, 0u8, 0u8], 0int),
    {
        MouseDriver { dev, decoder: PacketDecoder::new() }
    }

    /// Decode the bytes read from the device into mouse events.
    pub fn poll(&mut self, bytes: &[u8]) -> (events: Vec<MouseEvent>)
        requires
            old(self).decoder.wf(),
        ensures
            final(self).decoder.wf(),
            final(self).dev == old(self).dev,
            (final(self).decoder.spec_state().0, final(self).decoder.spec_state().1, events@) == spec_mouse_run(
                old(self).decoder.spec_state().0,
                old(self).decoder.spec_state().1,
                bytes@,
            ),
    {
        let ghost st = old(self).decoder.spec_state();
        let mut out: Vec<MouseEvent> = Vec::new();
        let mut i: usize = 0;
        while i < bytes.len()
            invariant
                i <= bytes@.len(),
                self.decoder.wf(),
                self.dev == old(self).dev,
                st == old(self).decoder.spec_state(),
                (self.decoder.spec_state().0, self.decoder.spec_state().1, out@) == spec_mouse_run(
                    st.0,
                    st.1,
                    bytes@.take(i as int),
                ),
            decreases bytes@.len() - i,
        {
            proof {
                assert(bytes@.take(i + 1).drop_last() =~= bytes@.take(i as int));
                assert(bytes@.take(i + 1).last() == bytes@[i as int]);
            }
            match self.decoder.feed(bytes[i]) {
                Some(e) => out.push(e),
                None => {},
            }
            i = i + 1;
        }
        proof {
            assert(bytes@.take(i as int) =~= bytes@);
        }
        out
    }
}

/// The payload of a mouse event: the motion and the buttons as a bit set.
pub open spec fn spec_mouse_payload(e: MouseEvent) -> Map<u32, ValueView> {
    map![
        DX => ValueView::I64(e.dx as i64),
        DY => ValueView::I64(e.dy as i64),
        BUTTONS => ValueView::U64(((if e.left { 1int } else { 0 }) + (if e.right { 2int } else { 0 }) + (if e.middle { 4int } else { 0 })) as u64)
    ]
}

/// The payload of a mouse event.
pub fn mouse_payload(e: &MouseEvent) -> (m: SymbolMap)
    ensures
        m@ == spec_mouse_payload(*e),
{
    let mut m = SymbolMap::new();
    m.insert(Symbol(DX), Value::I64(e.dx as i64));
    m.insert(Symbol(DY), Value::I64(e.dy as i64));
    let l: u8 = if e.left { 1 } else { 0 };
    let r: u8 = if e.right { 1 } else { 0 };
    let md: u8 = if e.middle { 1 } else { 0 };
    let buttons: u8 = l | (r << 1u8) | (md << 2u8);
    assert(buttons == l + 2 * r + 4 * md) by (bit_vector)
        requires
            l <= 1 && r <= 1 && md <= 1,
            buttons == l | (r << 1u8) | (md << 2u8),
    ;
    m.insert(Symbol(BUTTONS), Value::U64(buttons as u64));
    proof {
        assert(m@ =~= spec_mouse_payload(*e));
    }
    m
}

/// Width, height, pitch and depth of a framebuffer.
#[derive(Clone, Copy, Debug, PartialEq, Eq, Structural)]
pub struct FramebufferInfo {
    pub width: usize,
    pub height: usize,
    pub pitch: usize,
    pub bpp: u16,
}

/// The little-endian `u32` at `at`.
pub open spec fn le_u32(b: Seq<u8>, at: int) -> u32 {
    (b[at] as int + 0x100 * b[at + 1] as int + 0x1_0000 * b[at + 2] as int + 0x100_0000 * b[at + 3] as int) as u32
}

fn read_le_u32(b: &[u8], at: usize) -> (v: u32)
    requires
        at + 4 <= b@.len(),
    ensures
        v == le_u32(b@, at as int),
{
    let b0 = b[at] as u32;
    let b1 = b[at + 1] as u32;
    let b2 = b[at + 2] as u32;
    let b3 = b[at + 3] as u32;
    b0 + 0x100 * b1 + 0x1_0000 * b2 + 0x100_0000 * b3
}

impl FramebufferInfo {
    /// Read the geometry record a framebuffer device gives: four little-endian
    /// `u32` (width, height, pitch, depth); `None` when fewer than 16 bytes came.
    pub fn from_device(data: &[u8]) -> (r: Option<FramebufferInfo>)
        ensures
            data@.len() < 16 ==> r is None,
            data@.len() >= 16 ==> r == Some(FramebufferInfo {
                width: le_u32(data@, 0) as usize,
                height: le_u32(data@, 4) as usize,
                pitch: le_u32(data@, 8) as usize,
                bpp: le_u32(data@, 12) as u16,
            }),
    {
        if data.len() < 16 {
            return None;
        }
        let width = read_le_u32(data, 0) as usize;
        let height = read_le_u32(data, 4) as usize;
        let pitch = read_le_u32(data, 8) as usize;
        let bpp = read_le_u32(data, 12) as u16;
        Some(FramebufferInfo { width, height, pitch, bpp })
    }
}

/// The serial port driver.
pub struct SerialDriver {
    pub dev: DeviceHandle,
}

impl SerialDriver {
    /// Start a driver on the serial port the caller opened, if it could be opened.
    pub fn init(ctx: &mut DriverContext, opened: Option<u64>) -> (d: Option<SerialDriver>)
        ensures
            d is Some <==> opened is Some,
            d matches Some(s) ==> Some(s.dev.0) == opened,
            final(ctx).spec_handles() == (match opened {
                Some(raw) => old(ctx).spec_handles().push(DeviceHandle(raw)),
                None => old(ctx).spec_handles(),
            }),
    {
        match ctx.open_device(opened) {
            Some(dev) => Some(SerialDriver { dev }),
            None => None,
        }
    }
}

} // verus!
