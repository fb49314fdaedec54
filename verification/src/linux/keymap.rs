use crate::linux::codes::{
    BTN_LEFT, BTN_MIDDLE, BTN_RIGHT,
    KEY_ESC, KEY_1, KEY_2, KEY_3, KEY_4, KEY_5, KEY_6, KEY_7, KEY_8, KEY_9, KEY_0, KEY_MINUS,
    KEY_EQUAL, KEY_BACKSPACE, KEY_TAB, KEY_Q, KEY_W, KEY_E, KEY_R, KEY_T, KEY_Y, KEY_U, KEY_I,
    KEY_O, KEY_P, KEY_LEFTBRACE, KEY_RIGHTBRACE, KEY_ENTER, KEY_LEFTCTRL, KEY_A, KEY_S, KEY_D,
    KEY_F, KEY_G, KEY_H, KEY_J, KEY_K, KEY_L, KEY_SEMICOLON, KEY_APOSTROPHE, KEY_GRAVE,
    KEY_LEFTSHIFT, KEY_BACKSLASH, KEY_Z, KEY_X, KEY_C, KEY_V, KEY_B, KEY_N, KEY_M, KEY_COMMA,
    KEY_DOT, KEY_SLASH, KEY_RIGHTSHIFT, KEY_KPASTERISK, KEY_LEFTALT, KEY_SPACE, KEY_CAPSLOCK,
    KEY_F1, KEY_F2, KEY_F3, KEY_F4, KEY_F5, KEY_F6, KEY_F7, KEY_F8, KEY_F9, KEY_F10, KEY_NUMLOCK,
    KEY_SCROLLLOCK, KEY_KP7, KEY_KP8, KEY_KP9, KEY_KPMINUS, KEY_KP4, KEY_KP5, KEY_KP6, KEY_KPPLUS,
    KEY_KP1, KEY_KP2, KEY_KP3, KEY_KP0, KEY_F11, KEY_F12, KEY_KPENTER, KEY_RIGHTCTRL, KEY_KPSLASH,
    KEY_RIGHTALT, KEY_HOME, KEY_UP, KEY_PAGEUP, KEY_LEFT, KEY_RIGHT, KEY_END, KEY_DOWN,
    KEY_PAGEDOWN, KEY_INSERT, KEY_DELETE, KEY_PAUSE, KEY_LEFTMETA, KEY_RIGHTMETA, KEY_PRINT,
};
use crate::rdev::{Button, EventType, Key};
use vstd::prelude::*;

verus! {

/// The mouse button that a Linux key code stands for.
pub open spec fn button_of_code(code: u16) -> Option<Button> {
    match code {
        BTN_LEFT => Some(Button::Left),
        BTN_RIGHT => Some(Button::Right),
        BTN_MIDDLE => Some(Button::Middle),
        _ => None,
    }
}

/// The keyboard key that a Linux key code stands for.
///
/// `KEY_DELETE` is always [`Key::Delete`]: the keypad's delete key behaves like it
/// most of the time. `KEY_BACKSLASH` is always [`Key::BackSlash`]: Linux has no
/// separate international backslash.
pub open spec fn key_of_code(code: u16) -> Option<Key> {
    match code {
        KEY_ESC => Some(Key::Escape),
        KEY_1 => Some(Key::Num1),
        KEY_2 => Some(Key::Num2),
        KEY_3 => Some(Key::Num3),
        KEY_4 => Some(Key::Num4),
        KEY_5 => Some(Key::Num5),
        KEY_6 => Some(Key::Num6),
        KEY_7 => Some(Key::Num7),
        KEY_8 => Some(Key::Num8),
        KEY_9 => Some(Key::Num9),
        KEY_0 => Some(Key::Num0),
        KEY_MINUS => Some(Key::Minus),
        KEY_EQUAL => Some(Key::Equal),
        KEY_BACKSPACE => Some(Key::Backspace),
        KEY_TAB => Some(Key::Tab),
        KEY_Q => Some(Key::KeyQ),
        KEY_W => Some(Key::KeyW),
        KEY_E => Some(Key::KeyE),
        KEY_R => Some(Key::KeyR),
        KEY_T => Some(Key::KeyT),
        KEY_Y => Some(Key::KeyY),
        KEY_U => Some(Key::KeyU),
        KEY_I => Some(Key::KeyI),
        KEY_O => Some(Key::KeyO),
        KEY_P => Some(Key::KeyP),
        KEY_LEFTBRACE => Some(Key::LeftBracket),
        KEY_RIGHTBRACE => Some(Key::RightBracket),
        KEY_ENTER => Some(Key::Return),
        KEY_LEFTCTRL => Some(Key::ControlLeft),
        KEY_A => Some(Key::KeyA),
        KEY_S => Some(Key::KeyS),
        KEY_D => Some(Key::KeyD),
        KEY_F => Some(Key::KeyF),
        KEY_G => Some(Key::KeyG),
        KEY_H => Some(Key::KeyH),
        KEY_J => Some(Key::KeyJ),
        KEY_K => Some(Key::KeyK),
        KEY_L => Some(Key::KeyL),
        KEY_SEMICOLON => Some(Key::SemiColon),
        KEY_APOSTROPHE => Some(Key::Quote),
        KEY_GRAVE => Some(Key::BackQuote),
        KEY_LEFTSHIFT => Some(Key::ShiftLeft),
        KEY_BACKSLASH => Some(Key::BackSlash),
        KEY_Z => Some(Key::KeyZ),
        KEY_X => Some(Key::KeyX),
        KEY_C => Some(Key::KeyC),
        KEY_V => Some(Key::KeyV),
        KEY_B => Some(Key::KeyB),
        KEY_N => Some(Key::KeyN),
        KEY_M => Some(Key::KeyM),
        KEY_COMMA => Some(Key::Comma),
        KEY_DOT => Some(Key::Dot),
        KEY_SLASH => Some(Key::Slash),
        KEY_RIGHTSHIFT => Some(Key::ShiftRight),
        KEY_KPASTERISK => Some(Key::KpMultiply),
        KEY_LEFTALT => Some(Key::Alt),
        KEY_SPACE => Some(Key::Space),
        KEY_CAPSLOCK => Some(Key::CapsLock),
        KEY_F1 => Some(Key::F1),
        KEY_F2 => Some(Key::F2),
        KEY_F3 => Some(Key::F3),
        KEY_F4 => Some(Key::F4),
        KEY_F5 => Some(Key::F5),
        KEY_F6 => Some(Key::F6),
        KEY_F7 => Some(Key::F7),
        KEY_F8 => Some(Key::F8),
        KEY_F9 => Some(Key::F9),
        KEY_F10 => Some(Key::F10),
        KEY_NUMLOCK => Some(Key::NumLock),
        KEY_SCROLLLOCK => Some(Key::ScrollLock),
        KEY_KP7 => Some(Key::Kp7),
        KEY_KP8 => Some(Key::Kp8),
        KEY_KP9 => Some(Key::Kp9),
        KEY_KPMINUS => Some(Key::KpMinus),
        KEY_KP4 => Some(Key::Kp4),
        KEY_KP5 => Some(Key::Kp5),
        KEY_KP6 => Some(Key::Kp6),
        KEY_KPPLUS => Some(Key::KpPlus),
        KEY_KP1 => Some(Key::Kp1),
        KEY_KP2 => Some(Key::Kp2),
        KEY_KP3 => Some(Key::Kp3),
        KEY_KP0 => Some(Key::Kp0),
        KEY_F11 => Some(Key::F11),
        KEY_F12 => Some(Key::F12),
        KEY_KPENTER => Some(Key::KpReturn),
        KEY_RIGHTCTRL => Some(Key::ControlRight),
        KEY_KPSLASH => Some(Key::KpDivide),
        KEY_RIGHTALT => Some(Key::AltGr),
        KEY_HOME => Some(Key::Home),
        KEY_UP => Some(Key::UpArrow),
        KEY_PAGEUP => Some(Key::PageUp),
        KEY_LEFT => Some(Key::LeftArrow),
        KEY_RIGHT => Some(Key::RightArrow),
        KEY_END => Some(Key::End),
        KEY_DOWN => Some(Key::DownArrow),
        KEY_PAGEDOWN => Some(Key::PageDown),
        KEY_INSERT => Some(Key::Insert),
        KEY_DELETE => Some(Key::Delete),
        KEY_PAUSE => Some(Key::Pause),
        KEY_LEFTMETA => Some(Key::MetaLeft),
        KEY_RIGHTMETA => Some(Key::MetaRight),
        KEY_PRINT => Some(Key::PrintScreen),
        _ => None,
    }
}

/// The Linux key code of a key, for the keys that have one of their own.
pub open spec fn code_of_key(key: Key) -> Option<u16> {
    match key {
        Key::Escape => Some(KEY_ESC),
        Key::Num1 => Some(KEY_1),
        Key::Num2 => Some(KEY_2),
        Key::Num3 => Some(KEY_3),
        Key::Num4 => Some(KEY_4),
        Key::Num5 => Some(KEY_5),
        Key::Num6 => Some(KEY_6),
        Key::Num7 => Some(KEY_7),
        Key::Num8 => Some(KEY_8),
        Key::Num9 => Some(KEY_9),
        Key::Num0 => Some(KEY_0),
        Key::Minus => Some(KEY_MINUS),
        Key::Equal => Some(KEY_EQUAL),
        Key::Backspace => Some(KEY_BACKSPACE),
        Key::Tab => Some(KEY_TAB),
        Key::KeyQ => Some(KEY_Q),
        Key::KeyW => Some(KEY_W),
        Key::KeyE => Some(KEY_E),
        Key::KeyR => Some(KEY_R),
        Key::KeyT => Some(KEY_T),
        Key::KeyY => Some(KEY_Y),
        Key::KeyU => Some(KEY_U),
        Key::KeyI => Some(KEY_I),
        Key::KeyO => Some(KEY_O),
        Key::KeyP => Some(KEY_P),
        Key::LeftBracket => Some(KEY_LEFTBRACE),
        Key::RightBracket => Some(KEY_RIGHTBRACE),
        Key::Return => Some(KEY_ENTER),
        Key::ControlLeft => Some(KEY_LEFTCTRL),
        Key::KeyA => Some(KEY_A),
        Key::KeyS => Some(KEY_S),
        Key::KeyD => Some(KEY_D),
        Key::KeyF => Some(KEY_F),
        Key::KeyG => Some(KEY_G),
        Key::KeyH => Some(KEY_H),
        Key::KeyJ => Some(KEY_J),
        Key::KeyK => Some(KEY_K),
        Key::KeyL => Some(KEY_L),
        Key::SemiColon => Some(KEY_SEMICOLON),
        Key::Quote => Some(KEY_APOSTROPHE),
        Key::BackQuote => Some(KEY_GRAVE),
        Key::ShiftLeft => Some(KEY_LEFTSHIFT),
        Key::BackSlash => Some(KEY_BACKSLASH),
        Key::KeyZ => Some(KEY_Z),
        Key::KeyX => Some(KEY_X),
        Key::KeyC => Some(KEY_C),
        Key::KeyV => Some(KEY_V),
        Key::KeyB => Some(KEY_B),
        Key::KeyN => Some(KEY_N),
        Key::KeyM => Some(KEY_M),
        Key::Comma => Some(KEY_COMMA),
        Key::Dot => Some(KEY_DOT),
        Key::Slash => Some(KEY_SLASH),
        Key::ShiftRight => Some(KEY_RIGHTSHIFT),
        Key::KpMultiply => Some(KEY_KPASTERISK),
        Key::Alt => Some(KEY_LEFTALT),
        Key::Space => Some(KEY_SPACE),
        Key::CapsLock => Some(KEY_CAPSLOCK),
        Key::F1 => Some(KEY_F1),
        Key::F2 => Some(KEY_F2),
        Key::F3 => Some(KEY_F3),
        Key::F4 => Some(KEY_F4),
        Key::F5 => Some(KEY_F5),
        Key::F6 => Some(KEY_F6),
        Key::F7 => Some(KEY_F7),
        Key::F8 => Some(KEY_F8),
        Key::F9 => Some(KEY_F9),
        Key::F10 => Some(KEY_F10),
        Key::NumLock => Some(KEY_NUMLOCK),
        Key::ScrollLock => Some(KEY_SCROLLLOCK),
        Key::Kp7 => Some(KEY_KP7),
        Key::Kp8 => Some(KEY_KP8),
        Key::Kp9 => Some(KEY_KP9),
        Key::KpMinus => Some(KEY_KPMINUS),
        Key::Kp4 => Some(KEY_KP4),
        Key::Kp5 => Some(KEY_KP5),
        Key::Kp6 => Some(KEY_KP6),
        Key::KpPlus => Some(KEY_KPPLUS),
        Key::Kp1 => Some(KEY_KP1),
        Key::Kp2 => Some(KEY_KP2),
        Key::Kp3 => Some(KEY_KP3),
        Key::Kp0 => Some(KEY_KP0),
        Key::F11 => Some(KEY_F11),
        Key::F12 => Some(KEY_F12),
        Key::KpReturn => Some(KEY_KPENTER),
        Key::ControlRight => Some(KEY_RIGHTCTRL),
        Key::KpDivide => Some(KEY_KPSLASH),
        Key::AltGr => Some(KEY_RIGHTALT),
        Key::Home => Some(KEY_HOME),
        Key::UpArrow => Some(KEY_UP),
        Key::PageUp => Some(KEY_PAGEUP),
        Key::LeftArrow => Some(KEY_LEFT),
        Key::RightArrow => Some(KEY_RIGHT),
        Key::End => Some(KEY_END),
        Key::DownArrow => Some(KEY_DOWN),
        Key::PageDown => Some(KEY_PAGEDOWN),
        Key::Insert => Some(KEY_INSERT),
        Key::Delete => Some(KEY_DELETE),
        Key::Pause => Some(KEY_PAUSE),
        Key::MetaLeft => Some(KEY_LEFTMETA),
        Key::MetaRight => Some(KEY_RIGHTMETA),
        Key::PrintScreen => Some(KEY_PRINT),
        Key::KpDelete => None,
        Key::IntlBackslash => None,
    }
}

/// The button behind a Linux key code, if it is one of the three mouse buttons.
pub fn evdev_key_to_rdev_button(code: u16) -> (button: Option<Button>)
    ensures
        button == button_of_code(code),
{
    match code {
        BTN_LEFT => Some(Button::Left),
        BTN_RIGHT => Some(Button::Right),
        BTN_MIDDLE => Some(Button::Middle),
        _ => None,
    }
}

/// The key behind a Linux key code, if it is a known key of the keyboard.
pub fn evdev_key_to_rdev_key(code: u16) -> (key: Option<Key>)
    ensures
        key == key_of_code(code),
{
    match code {
        KEY_ESC => Some(Key::Escape),
        KEY_1 => Some(Key::Num1),
        KEY_2 => Some(Key::Num2),
        KEY_3 => Some(Key::Num3),
        KEY_4 => Some(Key::Num4),
        KEY_5 => Some(Key::Num5),
        KEY_6 => Some(Key::Num6),
        KEY_7 => Some(Key::Num7),
        KEY_8 => Some(Key::Num8),
        KEY_9 => Some(Key::Num9),
        KEY_0 => Some(Key::Num0),
        KEY_MINUS => Some(Key::Minus),
        KEY_EQUAL => Some(Key::Equal),
        KEY_BACKSPACE => Some(Key::Backspace),
        KEY_TAB => Some(Key::Tab),
        KEY_Q => Some(Key::KeyQ),
        KEY_W => Some(Key::KeyW),
        KEY_E => Some(Key::KeyE),
        KEY_R => Some(Key::KeyR),
        KEY_T => Some(Key::KeyT),
        KEY_Y => Some(Key::KeyY),
        KEY_U => Some(Key::KeyU),
        KEY_I => Some(Key::KeyI),
        KEY_O => Some(Key::KeyO),
        KEY_P => Some(Key::KeyP),
        KEY_LEFTBRACE => Some(Key::LeftBracket),
        KEY_RIGHTBRACE => Some(Key::RightBracket),
        KEY_ENTER => Some(Key::Return),
        KEY_LEFTCTRL => Some(Key::ControlLeft),
        KEY_A => Some(Key::KeyA),
        KEY_S => Some(Key::KeyS),
        KEY_D => Some(Key::KeyD),
        KEY_F => Some(Key::KeyF),
        KEY_G => Some(Key::KeyG),
        KEY_H => Some(Key::KeyH),
        KEY_J => Some(Key::KeyJ),
        KEY_K => Some(Key::KeyK),
        KEY_L => Some(Key::KeyL),
        KEY_SEMICOLON => Some(Key::SemiColon),
        KEY_APOSTROPHE => Some(Key::Quote),
        KEY_GRAVE => Some(Key::BackQuote),
        KEY_LEFTSHIFT => Some(Key::ShiftLeft),
        KEY_BACKSLASH => Some(Key::BackSlash),
        KEY_Z => Some(Key::KeyZ),
        KEY_X => Some(Key::KeyX),
        KEY_C => Some(Key::KeyC),
        KEY_V => Some(Key::KeyV),
        KEY_B => Some(Key::KeyB),
        KEY_N => Some(Key::KeyN),
        KEY_M => Some(Key::KeyM),
        KEY_COMMA => Some(Key::Comma),
        KEY_DOT => Some(Key::Dot),
        KEY_SLASH => Some(Key::Slash),
        KEY_RIGHTSHIFT => Some(Key::ShiftRight),
        KEY_KPASTERISK => Some(Key::KpMultiply),
        KEY_LEFTALT => Some(Key::Alt),
        KEY_SPACE => Some(Key::Space),
        KEY_CAPSLOCK => Some(Key::CapsLock),
        KEY_F1 => Some(Key::F1),
        KEY_F2 => Some(Key::F2),
        KEY_F3 => Some(Key::F3),
        KEY_F4 => Some(Key::F4),
        KEY_F5 => Some(Key::F5),
        KEY_F6 => Some(Key::F6),
        KEY_F7 => Some(Key::F7),
        KEY_F8 => Some(Key::F8),
        KEY_F9 => Some(Key::F9),
        KEY_F10 => Some(Key::F10),
        KEY_NUMLOCK => Some(Key::NumLock),
        KEY_SCROLLLOCK => Some(Key::ScrollLock),
        KEY_KP7 => Some(Key::Kp7),
        KEY_KP8 => Some(Key::Kp8),
        KEY_KP9 => Some(Key::Kp9),
        KEY_KPMINUS => Some(Key::KpMinus),
        KEY_KP4 => Some(Key::Kp4),
        KEY_KP5 => Some(Key::Kp5),
        KEY_KP6 => Some(Key::Kp6),
        KEY_KPPLUS => Some(Key::KpPlus),
        KEY_KP1 => Some(Key::Kp1),
        KEY_KP2 => Some(Key::Kp2),
        KEY_KP3 => Some(Key::Kp3),
        KEY_KP0 => Some(Key::Kp0),
        KEY_F11 => Some(Key::F11),
        KEY_F12 => Some(Key::F12),
        KEY_KPENTER => Some(Key::KpReturn),
        KEY_RIGHTCTRL => Some(Key::ControlRight),
        KEY_KPSLASH => Some(Key::KpDivide),
        KEY_RIGHTALT => Some(Key::AltGr),
        KEY_HOME => Some(Key::Home),
        KEY_UP => Some(Key::UpArrow),
        KEY_PAGEUP => Some(Key::PageUp),
        KEY_LEFT => Some(Key::LeftArrow),
        KEY_RIGHT => Some(Key::RightArrow),
        KEY_END => Some(Key::End),
        KEY_DOWN => Some(Key::DownArrow),
        KEY_PAGEDOWN => Some(Key::PageDown),
        KEY_INSERT => Some(Key::Insert),
        KEY_DELETE => Some(Key::Delete),
        KEY_PAUSE => Some(Key::Pause),
        KEY_LEFTMETA => Some(Key::MetaLeft),
        KEY_RIGHTMETA => Some(Key::MetaRight),
        KEY_PRINT => Some(Key::PrintScreen),
        _ => None,
    }
}

/// What kind of thing an input event reports.
#[derive(Clone, Copy, Debug, PartialEq, Eq, Hash, Structural)]
pub enum EventCode {
    /// A key or a button, by its Linux key code.
    Key(u16),
    /// Anything else.
    Other,
}

/// An event of an input device.
#[derive(Clone, Copy, Debug, PartialEq, Eq, Hash, Structural)]
pub struct InputEvent {
    pub event_code: EventCode,
    /// Of a key: 0 when it is released, otherwise it is pressed or repeats.
    pub value: i32,
}

/// What an input event means: a release if the value is 0 and a press otherwise,
/// of a mouse button or of a key.
pub open spec fn meaning(event: InputEvent) -> Option<EventType> {
    match event.event_code {
        EventCode::Key(code) => match (button_of_code(code), key_of_code(code)) {
            (Some(button), _) => if event.value == 0 {
                Some(EventType::ButtonRelease(button))
            } else {
                Some(EventType::ButtonPress(button))
            },
            (None, Some(key)) => if event.value == 0 {
                Some(EventType::KeyRelease(key))
            } else {
                Some(EventType::KeyPress(key))
            },
            (None, None) => None,
        },
        EventCode::Other => None,
    }
}

/// Turns an event of an input device into the event that it means, or `None` if it
/// concerns neither a known button nor a known key.
pub fn evdev_event_to_rdev_event(event: &InputEvent) -> (event_type: Option<EventType>)
    ensures
        event_type == meaning(*event),
        event_type matches Some(EventType::ButtonRelease(_)) ==> event.value == 0,
        event_type matches Some(EventType::KeyRelease(_)) ==> event.value == 0,
        event_type matches Some(EventType::ButtonPress(_)) ==> event.value != 0,
        event_type matches Some(EventType::KeyPress(_)) ==> event.value != 0,
{
    match event.event_code {
        EventCode::Key(code) => {
            if let Some(button) = evdev_key_to_rdev_button(code) {
                if event.value == 0 {
                    Some(EventType::ButtonRelease(button))
                } else {
                    Some(EventType::ButtonPress(button))
                }
            } else if let Some(key) = evdev_key_to_rdev_key(code) {
                if event.value == 0 {
                    Some(EventType::KeyRelease(key))
                } else {
                    Some(EventType::KeyPress(key))
                }
            } else {
                None
            }
        },
        EventCode::Other => None,
    }
}

/// The kernel's numbering of the keys, number by number. The codes from 1 to 82 run through the
/// main block and the keypad without a gap, those from 102 to 111 through the cursor block; no
/// code besides those listed is a key.
pub proof fn law_numbers_of_the_keys()
    ensures
        key_of_code(1) == Some(Key::Escape),
        key_of_code(2) == Some(Key::Num1),
        key_of_code(3) == Some(Key::Num2),
        key_of_code(4) == Some(Key::Num3),
        key_of_code(5) == Some(Key::Num4),
        key_of_code(6) == Some(Key::Num5),
        key_of_code(7) == Some(Key::Num6),
        key_of_code(8) == Some(Key::Num7),
        key_of_code(9) == Some(Key::Num8),
        key_of_code(10) == Some(Key::Num9),
        key_of_code(11) == Some(Key::Num0),
        key_of_code(12) == Some(Key::Minus),
        key_of_code(13) == Some(Key::Equal),
        key_of_code(14) == Some(Key::Backspace),
        key_of_code(15) == Some(Key::Tab),
        key_of_code(16) == Some(Key::KeyQ),
        key_of_code(17) == Some(Key::KeyW),
        key_of_code(18) == Some(Key::KeyE),
        key_of_code(19) == Some(Key::KeyR),
        key_of_code(20) == Some(Key::KeyT),
        key_of_code(21) == Some(Key::KeyY),
        key_of_code(22) == Some(Key::KeyU),
        key_of_code(23) == Some(Key::KeyI),
        key_of_code(24) == Some(Key::KeyO),
        key_of_code(25) == Some(Key::KeyP),
        key_of_code(26) == Some(Key::LeftBracket),
        key_of_code(27) == Some(Key::RightBracket),
        key_of_code(28) == Some(Key::Return),
        key_of_code(29) == Some(Key::ControlLeft),
        key_of_code(30) == Some(Key::KeyA),
        key_of_code(31) == Some(Key::KeyS),
        key_of_code(32) == Some(Key::KeyD),
        key_of_code(33) == Some(Key::KeyF),
        key_of_code(34) == Some(Key::KeyG),
        key_of_code(35) == Some(Key::KeyH),
        key_of_code(36) == Some(Key::KeyJ),
        key_of_code(37) == Some(Key::KeyK),
        key_of_code(38) == Some(Key::KeyL),
        key_of_code(39) == Some(Key::SemiColon),
        key_of_code(40) == Some(Key::Quote),
        key_of_code(41) == Some(Key::BackQuote),
        key_of_code(42) == Some(Key::ShiftLeft),
        key_of_code(43) == Some(Key::BackSlash),
        key_of_code(44) == Some(Key::KeyZ),
        key_of_code(45) == Some(Key::KeyX),
        key_of_code(46) == Some(Key::KeyC),
        key_of_code(47) == Some(Key::KeyV),
        key_of_code(48) == Some(Key::KeyB),
        key_of_code(49) == Some(Key::KeyN),
        key_of_code(50) == Some(Key::KeyM),
        key_of_code(51) == Some(Key::Comma),
        key_of_code(52) == Some(Key::Dot),
        key_of_code(53) == Some(Key::Slash),
        key_of_code(54) == Some(Key::ShiftRight),
        key_of_code(55) == Some(Key::KpMultiply),
        key_of_code(56) == Some(Key::Alt),
        key_of_code(57) == Some(Key::Space),
        key_of_code(58) == Some(Key::CapsLock),
        key_of_code(59) == Some(Key::F1),
        key_of_code(60) == Some(Key::F2),
        key_of_code(61) == Some(Key::F3),
        key_of_code(62) == Some(Key::F4),
        key_of_code(63) == Some(Key::F5),
        key_of_code(64) == Some(Key::F6),
        key_of_code(65) == Some(Key::F7),
        key_of_code(66) == Some(Key::F8),
        key_of_code(67) == Some(Key::F9),
        key_of_code(68) == Some(Key::F10),
        key_of_code(69) == Some(Key::NumLock),
        key_of_code(70) == Some(Key::ScrollLock),
        key_of_code(71) == Some(Key::Kp7),
        key_of_code(72) == Some(Key::Kp8),
        key_of_code(73) == Some(Key::Kp9),
        key_of_code(74) == Some(Key::KpMinus),
        key_of_code(75) == Some(Key::Kp4),
        key_of_code(76) == Some(Key::Kp5),
        key_of_code(77) == Some(Key::Kp6),
        key_of_code(78) == Some(Key::KpPlus),
        key_of_code(79) == Some(Key::Kp1),
        key_of_code(80) == Some(Key::Kp2),
        key_of_code(81) == Some(Key::Kp3),
        key_of_code(82) == Some(Key::Kp0),
        key_of_code(87) == Some(Key::F11),
        key_of_code(88) == Some(Key::F12),
        key_of_code(96) == Some(Key::KpReturn),
        key_of_code(97) == Some(Key::ControlRight),
        key_of_code(98) == Some(Key::KpDivide),
        key_of_code(100) == Some(Key::AltGr),
        key_of_code(102) == Some(Key::Home),
        key_of_code(103) == Some(Key::UpArrow),
        key_of_code(104) == Some(Key::PageUp),
        key_of_code(105) == Some(Key::LeftArrow),
        key_of_code(106) == Some(Key::RightArrow),
        key_of_code(107) == Some(Key::End),
        key_of_code(108) == Some(Key::DownArrow),
        key_of_code(109) == Some(Key::PageDown),
        key_of_code(110) == Some(Key::Insert),
        key_of_code(111) == Some(Key::Delete),
        key_of_code(119) == Some(Key::Pause),
        key_of_code(125) == Some(Key::MetaLeft),
        key_of_code(126) == Some(Key::MetaRight),
        key_of_code(210) == Some(Key::PrintScreen),
        forall|code: u16|
            !(1 <= code <= 82) && !(87 <= code <= 88) && !(96 <= code <= 98) && code != 100 && !(102 <= code <= 111) && code != 119 && !(125 <= code <= 126) && code != 210 ==> #[trigger] key_of_code(code) is None,
{
}

/// The kernel's numbering of the mouse buttons: three codes in a row, and no code besides.
pub proof fn law_numbers_of_the_buttons(code: u16)
    ensures
        button_of_code(code) == Some(Button::Left) <==> code == 0x110,
        button_of_code(code) == Some(Button::Right) <==> code == 0x111,
        button_of_code(code) == Some(Button::Middle) <==> code == 0x112,
        button_of_code(code) is None <==> !(0x110 <= code <= 0x112),
{
}

/// An event whose value is 0 is a release, and one with any other value is a press, of exactly
/// the button or the key that its code stands for. An event of any other code, and one that is
/// not about a code, means nothing.
pub proof fn law_zero_is_release(code: u16, value: i32)
    ensures
        ({
            let meant = meaning(InputEvent { event_code: EventCode::Key(code), value });
            &&& button_of_code(code) matches Some(button) ==> {
                &&& meant == Some(EventType::ButtonRelease(button)) <==> value == 0
                &&& meant == Some(EventType::ButtonPress(button)) <==> value != 0
            }
            &&& key_of_code(code) matches Some(key) ==> {
                &&& meant == Some(EventType::KeyRelease(key)) <==> value == 0
                &&& meant == Some(EventType::KeyPress(key)) <==> value != 0
            }
            &&& (button_of_code(code) is None && key_of_code(code) is None) <==> meant is None
        }),
        meaning(InputEvent { event_code: EventCode::Other, value }) is None,
{
}

/// A key code stands for a key exactly if it is that key's own code. So no two codes
/// give the same key, and every key but the keypad's delete and the international
/// backslash has a code that gives it.
pub proof fn law_key_codes_are_exact(code: u16, key: Key)
    ensures
        key_of_code(code) == Some(key) <==> code_of_key(key) == Some(code),
        code_of_key(key) is None <==> (key == Key::KpDelete || key == Key::IntlBackslash),
{
}

/// No two codes give the same button.
pub proof fn law_button_codes_are_exact(code: u16, other: u16)
    requires
        button_of_code(code) is Some,
        button_of_code(code) == button_of_code(other),
    ensures
        code == other,
{
}

/// No code is both a mouse button and a key, so which of the two is tried first makes
/// no difference.
pub proof fn law_buttons_are_not_keys(code: u16)
    ensures
        button_of_code(code) is None || key_of_code(code) is None,
{
}

/// Two input events of the keyboard and the mouse mean the same only if they concern
/// the same code and are both releases or both presses.
pub proof fn law_meaning_is_exact(event: InputEvent, other: InputEvent)
    requires
        meaning(event) is Some,
        meaning(event) == meaning(other),
    ensures
        event.event_code == other.event_code,
        (event.value == 0) == (other.value == 0),
{
    if let EventCode::Key(code) = event.event_code {
        if let Some(key) = key_of_code(code) {
            law_key_codes_are_exact(code, key);
            if let EventCode::Key(other_code) = other.event_code {
                law_key_codes_are_exact(other_code, key);
            }
        }
    }
}

} // verus!
