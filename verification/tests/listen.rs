use rdev::rdev::ListenError;
use rdev::windows::listen::{
    hook_event_at, listen, raw_callback, raw_callback_at, stop_listen, HookAction, HookCall,
    HookError, HookPhase, HookReply, ListenAction, ListenPhase, ListenReply, Listener,
    STOP_LISTENING,
};
use std::time::{Duration, SystemTime};

type State = Listener<&'static str, u32>;

fn next_call(action: &HookAction<u8>) -> Option<(i32, usize, isize)> {
    match action {
        HookAction::CallNext { code, param, lpdata } => Some((*code, *param, *lpdata)),
        _ => None,
    }
}

#[test]
fn hook_errors_become_listen_errors() {
    assert_eq!(ListenError::from(HookError::Mouse(3)), ListenError::MouseHookError(3));
    assert_eq!(ListenError::from(HookError::Key(4)), ListenError::KeyHookError(4));
}

#[test]
fn a_hook_reports_its_event_and_hands_the_call_on() {
    let call = HookCall { code: 0, param: 0x100, lpdata: 77 };
    let (phase, action) = raw_callback::<u8>(&call, HookPhase::Called, HookReply::Begin, true);
    assert!(matches!(action, HookAction::Convert { param: 0x100, lpdata: 77 }));
    let converted = HookReply::Converted { event_type: Some(9), platform_code: 65 };
    let (phase, action) = raw_callback(&call, phase, converted, true);
    assert!(matches!(action, HookAction::Describe { lpdata: 77 }));
    let described = HookReply::Described { scan_code: 30, extra_data: 12 };
    let before = SystemTime::now();
    let (phase, action) = raw_callback(&call, phase, described, true);
    match action {
        HookAction::Deliver(event) => {
            assert_eq!(event.event_type, 9);
            assert!(event.time >= before);
            assert!(event.unicode.is_none());
            assert_eq!(event.platform_code, 65);
            assert_eq!(event.position_code, 30);
            assert_eq!(event.usb_hid, 0);
            assert_eq!(event.extra_data, Some(12));
        }
        _ => panic!("the event is not delivered"),
    }
    let (_, action) = raw_callback(&call, phase, HookReply::Delivered, true);
    assert_eq!(next_call(&action), Some((0, 0x100, 77)));
}

#[test]
fn a_hook_without_an_event_only_hands_the_call_on() {
    let call = HookCall { code: 3, param: 1, lpdata: 2 };
    let (_, action) = raw_callback(&call, HookPhase::Called, HookReply::Begin, true);
    assert_eq!(next_call(&action), Some((3, 1, 2)));

    let call = HookCall { code: 0, param: 1, lpdata: 2 };
    let converted = HookReply::Converted { event_type: None, platform_code: 0 };
    let (_, action) = raw_callback(&call, HookPhase::Converting, converted, true);
    assert_eq!(next_call(&action), Some((0, 1, 2)));
}

#[test]
fn a_hook_without_a_callback_delivers_nothing() {
    let call = HookCall { code: 0, param: 1, lpdata: 2 };
    let time = SystemTime::UNIX_EPOCH;
    let phase = HookPhase::Describing { event_type: 9, platform_code: 65 };
    let described = HookReply::Described { scan_code: 30, extra_data: 12 };
    let (_, action) = raw_callback_at(&call, phase, described, false, time);
    assert_eq!(next_call(&action), Some((0, 1, 2)));
}

#[test]
fn hook_events_bear_their_time() {
    let time = SystemTime::UNIX_EPOCH + Duration::from_secs(8);
    let event = hook_event_at(1u8, time, 2, 3, 4);
    assert_eq!(event.time, time);
    assert_eq!(event.platform_code, 2);
    assert_eq!(event.position_code, 3);
    assert_eq!(event.extra_data, Some(4));
}

#[test]
fn listening_runs_until_it_is_stopped() {
    let mut state = State::new();
    let (phase, action) = listen(&mut state, ListenPhase::Called, ListenReply::Begin("callback"));
    assert_eq!(action, ListenAction::SetKeyHook);
    assert_eq!(state.callback, Some("callback"));
    let (phase, action) = listen(&mut state, phase, ListenReply::Hooked(Ok(())));
    assert_eq!(action, ListenAction::AskKeyboardOnly);
    let (phase, action) = listen(&mut state, phase, ListenReply::KeyboardOnly(false));
    assert_eq!(action, ListenAction::SetMouseHook);
    let (phase, action) = listen(&mut state, phase, ListenReply::Hooked(Ok(())));
    assert_eq!(action, ListenAction::OpenStopChannel);
    let (phase, action) = listen(&mut state, phase, ListenReply::StopChannel(6));
    assert_eq!(action, ListenAction::Poll);
    let (phase, action) = listen(&mut state, phase, ListenReply::Polled(None));
    assert_eq!(action, ListenAction::PumpMessages);
    let (phase, action) = listen(&mut state, phase, ListenReply::Pumped);
    assert_eq!(action, ListenAction::Poll);
    let (phase, action) = listen(&mut state, phase, ListenReply::Polled(Some(false)));
    assert_eq!(action, ListenAction::PumpMessages);
    let (phase, _) = listen(&mut state, phase, ListenReply::Pumped);
    let stop = stop_listen(&mut state).unwrap();
    assert_eq!(stop.sender, 6);
    assert_eq!(stop.message, STOP_LISTENING);
    assert_eq!(state.stop_loop, None);
    let (phase, action) = listen(&mut state, phase, ListenReply::Polled(Some(stop.message)));
    assert_eq!(action, ListenAction::Return(Ok(())));
    assert_eq!(phase, ListenPhase::Returned);
}

#[test]
fn the_mouse_is_left_alone_if_only_the_keyboard_is_wanted() {
    let mut state = State::new();
    let (_, action) =
        listen(&mut state, ListenPhase::AskingKeyboardOnly, ListenReply::KeyboardOnly(true));
    assert_eq!(action, ListenAction::OpenStopChannel);
}

#[test]
fn a_hook_that_cannot_be_set_is_an_error() {
    let mut state = State::new();
    let failed = ListenReply::Hooked(Err(HookError::Key(5)));
    let (_, action) = listen(&mut state, ListenPhase::SettingKeyHook, failed);
    assert_eq!(action, ListenAction::Return(Err(ListenError::KeyHookError(5))));
    let failed = ListenReply::Hooked(Err(HookError::Mouse(6)));
    let (_, action) = listen(&mut state, ListenPhase::SettingMouseHook, failed);
    assert_eq!(action, ListenAction::Return(Err(ListenError::MouseHookError(6))));
    assert_eq!(state.stop_loop, None);
}

#[test]
fn stopping_twice_tells_once() {
    let mut state = State::new();
    assert!(stop_listen(&mut state).is_none());
    listen(&mut state, ListenPhase::OpeningStopChannel, ListenReply::StopChannel(1));
    listen(&mut state, ListenPhase::OpeningStopChannel, ListenReply::StopChannel(2));
    listen(&mut state, ListenPhase::Polling, ListenReply::Polled(None));
    listen(&mut state, ListenPhase::Pumping, ListenReply::Pumped);
    let stop = stop_listen(&mut state).unwrap();
    assert_eq!((stop.sender, stop.message), (2, true));
    assert!(stop_listen(&mut state).is_none());
    listen(&mut state, ListenPhase::Polling, ListenReply::Polled(None));
    assert!(stop_listen(&mut state).is_none());
}
