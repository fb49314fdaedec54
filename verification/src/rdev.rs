use vstd::prelude::*;

verus! {

/// A key of the keyboard, named after its place on a US layout.
#[derive(Clone, Copy, Debug, PartialEq, Eq, Hash, Structural)]
pub enum Key {
    Escape,
    Num1,
    Num2,
    Num3,
    Num4,
    Num5,
    Num6,
    Num7,
    Num8,
    Num9,
    Num0,
    Minus,
    Equal,
    Backspace,
    Tab,
    KeyQ,
    KeyW,
    KeyE,
    KeyR,
    KeyT,
    KeyY,
    KeyU,
    KeyI,
    KeyO,
    KeyP,
    LeftBracket,
    RightBracket,
    Return,
    ControlLeft,
    KeyA,
    KeyS,
    KeyD,
    KeyF,
    KeyG,
    KeyH,
    KeyJ,
    KeyK,
    KeyL,
    SemiColon,
    Quote,
    BackQuote,
    ShiftLeft,
    BackSlash,
    KeyZ,
    KeyX,
    KeyC,
    KeyV,
    KeyB,
    KeyN,
    KeyM,
    Comma,
    Dot,
    Slash,
    ShiftRight,
    KpMultiply,
    Alt,
    Space,
    CapsLock,
    F1,
    F2,
    F3,
    F4,
    F5,
    F6,
    F7,
    F8,
    F9,
    F10,
    NumLock,
    ScrollLock,
    Kp7,
    Kp8,
    Kp9,
    KpMinus,
    Kp4,
    Kp5,
    Kp6,
    KpPlus,
    Kp1,
    Kp2,
    Kp3,
    Kp0,
    F11,
    F12,
    KpReturn,
    ControlRight,
    KpDivide,
    AltGr,
    Home,
    UpArrow,
    PageUp,
    LeftArrow,
    RightArrow,
    End,
    DownArrow,
    PageDown,
    Insert,
    Delete,
    Pause,
    MetaLeft,
    MetaRight,
    PrintScreen,
    KpDelete,
    IntlBackslash,
}

/// A button of the mouse.
#[derive(Clone, Copy, Debug, PartialEq, Eq, Hash, Structural)]
pub enum Button {
    Left,
    Right,
    Middle,
}

/// What happened to a key or to a mouse button.
#[derive(Clone, Copy, Debug, PartialEq, Eq, Hash, Structural)]
pub enum EventType {
    KeyPress(Key),
    KeyRelease(Key),
    ButtonPress(Button),
    ButtonRelease(Button),
}

/// The text that a key press stands for.
#[derive(Debug)]
pub struct UnicodeInfo {
    pub name: Option<String>,
    pub unicode: Vec<u16>,
    pub is_dead: bool,
}

/// An event as it is handed to a callback.
///
/// `T` says what happened. It is [`EventType`] for keys and buttons; a platform
/// that also reports positions brings a type of its own.
#[derive(Debug)]
pub struct Event<T> {
    pub event_type: T,
    /// When the event was seen.
    pub time: std::time::SystemTime,
    /// The text of the event, where the platform knows it.
    pub unicode: Option<UnicodeInfo>,
    /// The platform's own number for the key.
    pub platform_code: u32,
    /// The place of the key on the keyboard.
    pub position_code: u32,
    pub usb_hid: u32,
    /// The word that the sender of the event attached to it, on platforms that
    /// have one.
    pub extra_data: Option<usize>,
}

/// Why grabbing the keyboard could not start.
#[derive(Clone, Copy, Debug, PartialEq, Eq, Structural)]
pub enum GrabError {
    /// The keyboard could not be opened.
    KeyboardError,
}

/// Why listening could not start; each carries the system's error code.
#[derive(Clone, Copy, Debug, PartialEq, Eq, Structural)]
pub enum ListenError {
    MouseHookError(u32),
    KeyHookError(u32),
}

} // verus!
