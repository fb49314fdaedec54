use rdev::linux::codes;
use rdev::linux::keymap::{
    evdev_event_to_rdev_event, evdev_key_to_rdev_button, evdev_key_to_rdev_key, EventCode,
    InputEvent,
};
use rdev::rdev::{Button, EventType, Key};

fn key(code: u16, value: i32) -> Option<EventType> {
    evdev_event_to_rdev_event(&InputEvent { event_code: EventCode::Key(code), value })
}

#[test]
fn buttons_are_recognised() {
    assert_eq!(evdev_key_to_rdev_button(codes::BTN_LEFT), Some(Button::Left));
    assert_eq!(evdev_key_to_rdev_button(codes::BTN_RIGHT), Some(Button::Right));
    assert_eq!(evdev_key_to_rdev_button(codes::BTN_MIDDLE), Some(Button::Middle));
    assert_eq!(evdev_key_to_rdev_button(0x110), Some(Button::Left));
    assert_eq!(evdev_key_to_rdev_button(0x113), None);
    assert_eq!(evdev_key_to_rdev_button(codes::KEY_A), None);
}

#[test]
fn keys_are_recognised() {
    assert_eq!(evdev_key_to_rdev_key(codes::KEY_ESC), Some(Key::Escape));
    assert_eq!(evdev_key_to_rdev_key(1), Some(Key::Escape));
    assert_eq!(evdev_key_to_rdev_key(30), Some(Key::KeyA));
    assert_eq!(evdev_key_to_rdev_key(codes::KEY_LEFTBRACE), Some(Key::LeftBracket));
    assert_eq!(evdev_key_to_rdev_key(codes::KEY_ENTER), Some(Key::Return));
    assert_eq!(evdev_key_to_rdev_key(codes::KEY_KPENTER), Some(Key::KpReturn));
    assert_eq!(evdev_key_to_rdev_key(codes::KEY_LEFTALT), Some(Key::Alt));
    assert_eq!(evdev_key_to_rdev_key(codes::KEY_RIGHTALT), Some(Key::AltGr));
    assert_eq!(evdev_key_to_rdev_key(codes::KEY_PRINT), Some(Key::PrintScreen));
    assert_eq!(evdev_key_to_rdev_key(0), None);
    assert_eq!(evdev_key_to_rdev_key(codes::BTN_LEFT), None);
    assert_eq!(evdev_key_to_rdev_key(u16::MAX), None);
}

#[test]
fn the_first_of_two_rows_wins() {
    assert_eq!(evdev_key_to_rdev_key(codes::KEY_DELETE), Some(Key::Delete));
    assert_eq!(evdev_key_to_rdev_key(codes::KEY_BACKSLASH), Some(Key::BackSlash));
}

#[test]
fn every_key_has_one_code() {
    let mut keys: Vec<Key> = Vec::new();
    let mut codes_seen = 0;
    for code in 0..=u16::MAX {
        if let Some(key) = evdev_key_to_rdev_key(code) {
            assert!(!keys.contains(&key));
            assert_eq!(evdev_key_to_rdev_button(code), None);
            keys.push(key);
            codes_seen += 1;
        }
    }
    assert_eq!(codes_seen, 102);
    assert!(!keys.contains(&Key::KpDelete));
    assert!(!keys.contains(&Key::IntlBackslash));
}

#[test]
fn values_tell_release_from_press() {
    assert_eq!(key(codes::KEY_Q, 0), Some(EventType::KeyRelease(Key::KeyQ)));
    assert_eq!(key(codes::KEY_Q, 1), Some(EventType::KeyPress(Key::KeyQ)));
    assert_eq!(key(codes::KEY_Q, 2), Some(EventType::KeyPress(Key::KeyQ)));
    assert_eq!(key(codes::KEY_Q, -1), Some(EventType::KeyPress(Key::KeyQ)));
    assert_eq!(key(codes::BTN_RIGHT, 0), Some(EventType::ButtonRelease(Button::Right)));
    assert_eq!(key(codes::BTN_RIGHT, 1), Some(EventType::ButtonPress(Button::Right)));
}

#[test]
fn other_events_mean_nothing() {
    assert_eq!(key(0, 1), None);
    let other = InputEvent { event_code: EventCode::Other, value: 5 };
    assert_eq!(evdev_event_to_rdev_event(&other), None);
}
