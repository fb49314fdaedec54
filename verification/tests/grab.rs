use rdev::linux::grab::{
    callback_event_step, convert_event, convert_event_at, disable_grab, enable_grab, exit_grab,
    is_grabbed, send_grab_control, start_grab_listen, start_grab_service, CallbackAction,
    GrabControl, GrabEvent, GrabService, KeyReading, StartAction, StartPhase, StartReply,
};
use rdev::rdev::{EventType, GrabError, Key, UnicodeInfo};
use std::time::{Duration, SystemTime};

type Service = GrabService<&'static str, u32, &'static str>;

#[test]
fn requests_are_sent_in_order() {
    let mut outbox = Vec::new();
    enable_grab(&mut outbox);
    disable_grab(&mut outbox);
    send_grab_control(&mut outbox, GrabControl::Grab);
    exit_grab(&mut outbox);
    assert_eq!(
        outbox,
        vec![GrabControl::Grab, GrabControl::UnGrab, GrabControl::Grab, GrabControl::Exit]
    );
}

#[test]
fn listening_starts() {
    let mut service = Service::new();
    assert!(!is_grabbed(&service));
    let (phase, action) =
        start_grab_listen(&mut service, StartPhase::Called, StartReply::Begin("first"));
    assert_eq!(action, StartAction::Open);
    assert!(is_grabbed(&service));
    assert_eq!(service.callback, Some("first"));
    let opened = StartReply::Opened { sender: 4, keyboard: Some("keyboard") };
    let (phase, action) = start_grab_listen(&mut service, phase, opened);
    assert_eq!(action, StartAction::StartGrabThread);
    assert_eq!(service.sender, Some(4));
    assert_eq!(service.keyboard, Some("keyboard"));
    let (phase, action) = start_grab_listen(&mut service, phase, StartReply::Done);
    assert_eq!(action, StartAction::StartCallbackThread);
    let (phase, action) = start_grab_listen(&mut service, phase, StartReply::Done);
    assert_eq!(action, StartAction::Settle { millis: 100 });
    let (phase, action) = start_grab_listen(&mut service, phase, StartReply::Done);
    assert_eq!(action, StartAction::Return(Ok(())));
    assert_eq!(phase, StartPhase::Returned);
}

#[test]
fn listening_starts_once_even_after_a_failure() {
    let mut service = Service::new();
    let (phase, _) =
        start_grab_listen(&mut service, StartPhase::Called, StartReply::Begin("first"));
    let opened = StartReply::Opened { sender: 4, keyboard: None };
    let (_, action) = start_grab_listen(&mut service, phase, opened);
    assert_eq!(action, StartAction::Return(Err(GrabError::KeyboardError)));
    assert_eq!(service.sender, Some(4));
    let (_, action) =
        start_grab_listen(&mut service, StartPhase::Called, StartReply::Begin("second"));
    assert_eq!(action, StartAction::Return(Ok(())));
    assert_eq!(service.callback, Some("first"));
}

#[test]
fn the_service_needs_a_keyboard() {
    let mut service = Service::new();
    assert_eq!(start_grab_service(&mut service, 1, None), Err(GrabError::KeyboardError));
    assert_eq!(start_grab_service(&mut service, 2, Some("keyboard")), Ok(()));
    assert_eq!(service.sender, Some(2));
}

#[test]
fn key_events_are_called_back_until_the_end() {
    let received = vec![
        Some(GrabEvent::KeyEvent(1)),
        None,
        Some(GrabEvent::KeyEvent(2)),
        Some(GrabEvent::Exit),
        Some(GrabEvent::KeyEvent(3)),
    ];
    let mut called = Vec::new();
    for message in received {
        match callback_event_step(message, true) {
            CallbackAction::Call(event) => called.push(event),
            CallbackAction::Receive => {}
            CallbackAction::End => break,
        }
    }
    assert_eq!(called, vec![1, 2]);
}

#[test]
fn events_are_dropped_only_while_there_is_no_callback() {
    let received = vec![
        (Some(GrabEvent::KeyEvent(1)), true),
        (Some(GrabEvent::KeyEvent(2)), false),
        (None, false),
        (Some(GrabEvent::KeyEvent(3)), true),
    ];
    let mut called = Vec::new();
    for (message, has_callback) in received {
        if let CallbackAction::Call(event) = callback_event_step(message, has_callback) {
            called.push(event);
        }
    }
    assert_eq!(called, vec![1, 3]);
}

#[test]
fn without_a_callback_events_are_dropped() {
    assert_eq!(callback_event_step(Some(GrabEvent::KeyEvent(1)), false), CallbackAction::Receive);
    assert_eq!(callback_event_step::<u8>(Some(GrabEvent::Exit), false), CallbackAction::End);
    assert_eq!(callback_event_step::<u8>(None, false), CallbackAction::Receive);
}

#[test]
fn events_hold_what_the_keyboard_reads() {
    let time = SystemTime::UNIX_EPOCH + Duration::from_secs(5);
    let unicode = UnicodeInfo { name: Some("a".to_string()), unicode: vec![97], is_dead: false };
    let reading = KeyReading { unicode: Some(unicode), keysym: 0x61 };
    let press = EventType::KeyPress(Key::KeyA);
    let event = convert_event_at(press, time, Some(reading), 38);
    assert_eq!(event.event_type, press);
    assert_eq!(event.time, time);
    assert_eq!(event.unicode.unwrap().unicode, vec![97]);
    assert_eq!(event.platform_code, 0x61);
    assert_eq!(event.position_code, 38);
    assert_eq!(event.usb_hid, 0);
    assert_eq!(event.extra_data, None);
}

#[test]
fn events_without_a_keyboard_have_no_text() {
    let before = SystemTime::now();
    let event = convert_event(EventType::KeyRelease(Key::Space), None, 65);
    assert!(event.unicode.is_none());
    assert_eq!(event.platform_code, 0);
    assert_eq!(event.position_code, 65);
    assert!(event.time >= before);
}
