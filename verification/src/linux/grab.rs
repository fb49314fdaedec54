use crate::clock::system_time_now;
use crate::rdev::{Event, GrabError, UnicodeInfo};
use vstd::prelude::*;

verus! {

/// How long to let the X server settle after the keyboard was grabbed or ungrabbed, or
/// after that was asked for.
pub const CONTROL_SETTLE_MILLIS: u64 = 50;

/// How long to let a new grab service settle.
pub const START_SETTLE_MILLIS: u64 = 100;

/// What the thread that grabs the keyboard is asked to do.
#[derive(Clone, Copy, Debug, PartialEq, Eq, Structural)]
pub enum GrabControl {
    /// Grab the keyboard.
    Grab,
    /// Ungrab the keyboard.
    UnGrab,
    /// End.
    Exit,
}

/// What the thread that calls back is sent.
#[derive(Debug)]
pub enum GrabEvent<V> {
    /// A key event.
    KeyEvent(V),
    /// The end.
    Exit,
}

/// Puts a request behind those that are still to be sent to the grab thread.
pub fn send_grab_control(outbox: &mut Vec<GrabControl>, control: GrabControl)
    ensures
        final(outbox)@ == old(outbox)@.push(control),
{
    outbox.push(control);
}

/// Asks for the keyboard to be grabbed.
pub fn enable_grab(outbox: &mut Vec<GrabControl>)
    ensures
        final(outbox)@ == old(outbox)@.push(GrabControl::Grab),
{
    send_grab_control(outbox, GrabControl::Grab);
}

/// Asks for the keyboard to be ungrabbed.
pub fn disable_grab(outbox: &mut Vec<GrabControl>)
    ensures
        final(outbox)@ == old(outbox)@.push(GrabControl::UnGrab),
{
    send_grab_control(outbox, GrabControl::UnGrab);
}

/// Asks for the grab thread to end.
pub fn exit_grab(outbox: &mut Vec<GrabControl>)
    ensures
        final(outbox)@ == old(outbox)@.push(GrabControl::Exit),
{
    send_grab_control(outbox, GrabControl::Exit);
}

/// The state that grabbing the keyboard keeps for the whole process: the callback `C`, the
/// sending end `S` to the thread that calls it, and the keyboard `K`.
pub struct GrabService<C, S, K> {
    pub is_grabbing: bool,
    pub callback: Option<C>,
    pub sender: Option<S>,
    pub keyboard: Option<K>,
}

impl<C, S, K> GrabService<C, S, K> {
    /// What every state of the service keeps: there is a callback exactly while grabbing,
    /// and a keyboard only with somewhere to send its events.
    pub open spec fn inv(self) -> bool {
        &&& self.is_grabbing <==> self.callback is Some
        &&& self.keyboard is Some ==> self.sender is Some
    }

    /// The state at the start of the process.
    pub fn new() -> (service: Self)
        ensures
            service == (GrabService::<C, S, K> {
                is_grabbing: false,
                callback: None,
                sender: None,
                keyboard: None,
            }),
            service.inv(),
    {
        GrabService { is_grabbing: false, callback: None, sender: None, keyboard: None }
    }
}

/// Whether grabbing has been started.
pub fn is_grabbed<C, S, K>(service: &GrabService<C, S, K>) -> (grabbed: bool)
    ensures
        grabbed == service.is_grabbing,
{
    service.is_grabbing
}

/// What comes of starting the service with a new channel to the thread that calls back and
/// with the keyboard, if it could be opened. It fails exactly if it could not; the channel
/// is kept either way.
pub open spec fn service_started<C, S, K>(
    service: GrabService<C, S, K>,
    sender: S,
    keyboard: Option<K>,
) -> (GrabService<C, S, K>, Result<(), GrabError>) {
    (
        GrabService { sender: Some(sender), keyboard, ..service },
        match keyboard {
            Some(_) => Ok(()),
            None => Err(GrabError::KeyboardError),
        },
    )
}

/// Starts the service with a new channel to the thread that calls back and with the
/// keyboard, if it could be opened.
pub fn start_grab_service<C, S, K>(
    service: &mut GrabService<C, S, K>,
    sender: S,
    keyboard: Option<K>,
) -> (started: Result<(), GrabError>)
    ensures
        (*final(service), started) == service_started(*old(service), sender, keyboard),
        old(service).inv() ==> final(service).inv(),
{
    service.sender = Some(sender);
    service.keyboard = keyboard;
    if service.keyboard.is_none() {
        return Err(GrabError::KeyboardError);
    }
    Ok(())
}

/// How far a call of `start_grab_listen` has got.
#[derive(Clone, Copy, Debug, PartialEq, Eq, Structural)]
pub enum StartPhase {
    /// Listening is asked for.
    Called,
    /// The channel to the thread that calls back and the keyboard are being opened.
    Opening,
    /// The thread that grabs the keyboard is being started.
    StartingGrabThread,
    /// The thread that calls back is being started.
    StartingCallbackThread,
    /// The service is left to settle.
    Settling,
    /// The start is over.
    Returned,
}

/// What starting to listen does next.
#[derive(Clone, Copy, Debug, PartialEq, Eq)]
pub enum StartAction {
    /// Open a channel to the thread that calls back, and the keyboard.
    Open,
    /// Start the thread that grabs the keyboard.
    StartGrabThread,
    /// Start the thread that calls back.
    StartCallbackThread,
    /// Let the service settle.
    Settle { millis: u64 },
    /// Return to the caller.
    Return(Result<(), GrabError>),
}

/// What came of the last action.
#[derive(Debug)]
pub enum StartReply<C, S, K> {
    /// Nothing was asked yet: listen with this callback.
    Begin(C),
    /// The sending end of the channel, and the keyboard if it could be opened.
    Opened { sender: S, keyboard: Option<K> },
    /// The action was done.
    Done,
}

/// Which replies fit a phase.
pub open spec fn start_fits<C, S, K>(phase: StartPhase, reply: StartReply<C, S, K>) -> bool {
    match phase {
        StartPhase::Called => reply is Begin,
        StartPhase::Opening => reply is Opened,
        StartPhase::StartingGrabThread => reply is Done,
        StartPhase::StartingCallbackThread => reply is Done,
        StartPhase::Settling => reply is Done,
        StartPhase::Returned => false,
    }
}

/// What a reply changes in the state. A callback is taken only if grabbing has not been
/// started before.
pub open spec fn service_after<C, S, K>(
    service: GrabService<C, S, K>,
    reply: StartReply<C, S, K>,
) -> GrabService<C, S, K> {
    match reply {
        StartReply::Begin(callback) => if service.is_grabbing {
            service
        } else {
            GrabService { is_grabbing: true, callback: Some(callback), ..service }
        },
        StartReply::Opened { sender, keyboard } => service_started(service, sender, keyboard).0,
        StartReply::Done => service,
    }
}

/// What starting to listen does with a reply: the phase that it goes to and what it does
/// next.
pub open spec fn start_next<C, S, K>(
    service: GrabService<C, S, K>,
    phase: StartPhase,
    reply: StartReply<C, S, K>,
) -> (StartPhase, StartAction) {
    match (phase, reply) {
        (_, StartReply::Begin(_)) => if service.is_grabbing {
            (StartPhase::Returned, StartAction::Return(Ok(())))
        } else {
            (StartPhase::Opening, StartAction::Open)
        },
        (_, StartReply::Opened { sender, keyboard }) => match service_started(
            service,
            sender,
            keyboard,
        ).1 {
            Ok(()) => (StartPhase::StartingGrabThread, StartAction::StartGrabThread),
            Err(error) => (StartPhase::Returned, StartAction::Return(Err(error))),
        },
        (StartPhase::StartingGrabThread, _) => (
            StartPhase::StartingCallbackThread,
            StartAction::StartCallbackThread,
        ),
        (StartPhase::StartingCallbackThread, _) => (
            StartPhase::Settling,
            StartAction::Settle { millis: START_SETTLE_MILLIS },
        ),
        _ => (StartPhase::Returned, StartAction::Return(Ok(()))),
    }
}

/// Starts to listen to the grabbed keyboard.
///
/// One call takes what came of the last action and gives the next.
pub fn start_grab_listen<C, S, K>(
    service: &mut GrabService<C, S, K>,
    phase: StartPhase,
    reply: StartReply<C, S, K>,
) -> (step: (StartPhase, StartAction))
    requires
        start_fits(phase, reply),
    ensures
        step == start_next(*old(service), phase, reply),
        *final(service) == service_after(*old(service), reply),
        old(service).inv() ==> final(service).inv(),
{
    match reply {
        StartReply::Begin(callback) => {
            if is_grabbed(service) {
                return (StartPhase::Returned, StartAction::Return(Ok(())));
            }
            service.is_grabbing = true;
            service.callback = Some(callback);
            (StartPhase::Opening, StartAction::Open)
        },
        StartReply::Opened { sender, keyboard } => {
            match start_grab_service(service, sender, keyboard) {
                Ok(()) => (StartPhase::StartingGrabThread, StartAction::StartGrabThread),
                Err(error) => (StartPhase::Returned, StartAction::Return(Err(error))),
            }
        },
        StartReply::Done => match phase {
            StartPhase::StartingGrabThread => (
                StartPhase::StartingCallbackThread,
                StartAction::StartCallbackThread,
            ),
            StartPhase::StartingCallbackThread => (
                StartPhase::Settling,
                StartAction::Settle { millis: START_SETTLE_MILLIS },
            ),
            _ => (StartPhase::Returned, StartAction::Return(Ok(()))),
        },
    }
}

/// What the thread that calls back does with what it received.
#[derive(Debug, PartialEq)]
pub enum CallbackAction<V> {
    /// Call the callback with an event, then receive again.
    Call(V),
    /// Receive again.
    Receive,
    /// End.
    End,
}

/// What is done with what was received, or with a failure to receive: key events go to the
/// callback if there is one.
pub open spec fn callback_action<V>(
    received: Option<GrabEvent<V>>,
    has_callback: bool,
) -> CallbackAction<V> {
    match received {
        Some(GrabEvent::KeyEvent(event)) if has_callback => CallbackAction::Call(event),
        Some(GrabEvent::Exit) => CallbackAction::End,
        _ => CallbackAction::Receive,
    }
}

/// Decides what the thread that calls back does with what it received, or with a failure to
/// receive.
pub fn callback_event_step<V>(received: Option<GrabEvent<V>>, has_callback: bool) -> (action:
    CallbackAction<V>)
    ensures
        action == callback_action(received, has_callback),
{
    if let Some(data) = received {
        match data {
            GrabEvent::KeyEvent(event) => {
                if has_callback {
                    return CallbackAction::Call(event);
                }
            },
            GrabEvent::Exit => {
                return CallbackAction::End;
            },
        }
    }
    CallbackAction::Receive
}

/// What the keyboard says of a key event.
#[derive(Debug)]
pub struct KeyReading {
    /// The text that the key stands for, if any.
    pub unicode: Option<UnicodeInfo>,
    /// The X key symbol.
    pub keysym: u32,
}

/// The event that a key of the grabbed keyboard makes. Without a keyboard it has neither a
/// text nor a platform code.
pub open spec fn key_event<T>(
    event_type: T,
    time: std::time::SystemTime,
    reading: Option<KeyReading>,
    code: u32,
) -> Event<T> {
    Event {
        event_type,
        time,
        unicode: match reading {
            Some(reading) => reading.unicode,
            None => None,
        },
        platform_code: match reading {
            Some(reading) => reading.keysym,
            None => 0,
        },
        position_code: code,
        usb_hid: 0,
        extra_data: None,
    }
}

/// Makes the event of a key of the grabbed keyboard, seen at a given time.
pub fn convert_event_at<T>(
    event_type: T,
    time: std::time::SystemTime,
    reading: Option<KeyReading>,
    code: u32,
) -> (event: Event<T>)
    ensures
        event == key_event(event_type, time, reading, code),
        event.event_type == event_type,
        event.time == time,
        event.position_code == code,
        event.usb_hid == 0,
        event.extra_data is None,
        reading matches Some(read) ==> event.unicode == read.unicode && event.platform_code
            == read.keysym,
        reading is None ==> event.unicode is None && event.platform_code == 0,
{
    let (unicode, platform_code) = match reading {
        Some(reading) => (reading.unicode, reading.keysym),
        None => (None, 0),
    };
    Event {
        event_type,
        time,
        unicode,
        platform_code,
        position_code: code,
        usb_hid: 0,
        extra_data: None,
    }
}

/// Makes the event of a key of the grabbed keyboard, seen now.
pub fn convert_event<T>(event_type: T, reading: Option<KeyReading>, code: u32) -> (event: Event<T>)
    ensures
        event == key_event(event_type, event.time, reading, code),
{
    convert_event_at(event_type, system_time_now(), reading, code)
}

/// Where the fields of a key event come from: what happened, the time and the key's place are those
/// given; the text and the platform code are what the keyboard reads, each as it is, and without a
/// keyboard there are none.
pub proof fn law_key_event_fields<T>(
    event_type: T,
    time: std::time::SystemTime,
    reading: KeyReading,
    code: u32,
)
    ensures
        ({
            let read = key_event(event_type, time, Some(reading), code);
            let unread = key_event(event_type, time, None, code);
            &&& read.unicode == reading.unicode
            &&& read.platform_code == reading.keysym
            &&& unread.unicode is None
            &&& unread.platform_code == 0
            &&& read.event_type == event_type && unread.event_type == event_type
            &&& read.time == time && unread.time == time
            &&& read.position_code == code && unread.position_code == code
            &&& read.usb_hid == 0 && unread.usb_hid == 0
            &&& read.extra_data is None && unread.extra_data is None
        }),
{
}

/// A new service is given twice as long to settle as a request to the grab thread, which gets a
/// twentieth of a second.
pub proof fn law_settling_times()
    ensures
        CONTROL_SETTLE_MILLIS * 20 == 1000,
        START_SETTLE_MILLIS == 2 * CONTROL_SETTLE_MILLIS,
{
}

/// Starting the service keeps the new channel and the keyboard, and neither the callback nor
/// whether the keyboard counts as grabbed changes. It succeeds exactly with a keyboard.
pub proof fn law_service_start<C, S, K>(
    service: GrabService<C, S, K>,
    sender: S,
    keyboard: Option<K>,
)
    ensures
        ({
            let (after, started) = service_started(service, sender, keyboard);
            &&& after.sender == Some(sender)
            &&& after.keyboard == keyboard
            &&& after.callback == service.callback
            &&& after.is_grabbing == service.is_grabbing
            &&& started is Ok <==> keyboard is Some
            &&& keyboard is None ==> started == Err::<(), GrabError>(GrabError::KeyboardError)
        }),
{
}

/// Beginning to listen counts as grabbing from then on and touches neither the channel nor the
/// keyboard. The callback is the given one, unless there was grabbing before: then it is the one
/// that there was.
pub proof fn law_beginning_to_listen<C, S, K>(service: GrabService<C, S, K>, callback: C)
    ensures
        ({
            let after = service_after(service, StartReply::Begin(callback));
            &&& after.is_grabbing
            &&& after.sender == service.sender
            &&& after.keyboard == service.keyboard
            &&& service.is_grabbing ==> after.callback == service.callback
            &&& !service.is_grabbing ==> after.callback == Some(callback)
            &&& service_after(service, StartReply::Done) == service
        }),
{
}

/// What a call of `start_grab_listen` is answered.
pub struct StartAnswers<C, S, K> {
    pub callback: C,
    pub sender: S,
    pub keyboard: Option<K>,
}

/// The reply that a phase gets by the answers.
pub open spec fn start_reply<C, S, K>(
    phase: StartPhase,
    answers: StartAnswers<C, S, K>,
) -> StartReply<C, S, K> {
    match phase {
        StartPhase::Called => StartReply::Begin(answers.callback),
        StartPhase::Opening => StartReply::Opened {
            sender: answers.sender,
            keyboard: answers.keyboard,
        },
        _ => StartReply::Done,
    }
}

/// How many more actions a phase can lead to.
pub open spec fn start_rank(phase: StartPhase) -> nat {
    match phase {
        StartPhase::Called => 5,
        StartPhase::Opening => 4,
        StartPhase::StartingGrabThread => 3,
        StartPhase::StartingCallbackThread => 2,
        StartPhase::Settling => 1,
        StartPhase::Returned => 0,
    }
}

/// Everything that a call of `start_grab_listen` does from a phase on, and the state that it
/// leaves.
pub open spec fn start_deeds<C, S, K>(
    service: GrabService<C, S, K>,
    phase: StartPhase,
    answers: StartAnswers<C, S, K>,
) -> (GrabService<C, S, K>, Seq<StartAction>)
    decreases start_rank(phase),
{
    if phase is Returned {
        (service, seq![])
    } else {
        let reply = start_reply(phase, answers);
        let (after, action) = start_next(service, phase, reply);
        let (left, deeds) = start_deeds(service_after(service, reply), after, answers);
        (left, seq![action] + deeds)
    }
}

/// What a call of `start_grab_listen` does as a whole. If grabbing has been started before,
/// it returns at once and changes nothing. Otherwise the keyboard counts as grabbed with
/// the given callback from then on, also if it cannot be opened; in that case the call fails
/// and starts no thread.
pub proof fn law_start_deeds<C, S, K>(
    service: GrabService<C, S, K>,
    answers: StartAnswers<C, S, K>,
)
    ensures
        start_deeds(service, StartPhase::Called, answers) == (if service.is_grabbing {
            (service, seq![StartAction::Return(Ok(()))])
        } else {
            (
                GrabService {
                    is_grabbing: true,
                    callback: Some(answers.callback),
                    sender: Some(answers.sender),
                    keyboard: answers.keyboard,
                },
                match answers.keyboard {
                    Some(_) => seq![
                        StartAction::Open,
                        StartAction::StartGrabThread,
                        StartAction::StartCallbackThread,
                        StartAction::Settle { millis: 100 },
                        StartAction::Return(Ok(())),
                    ],
                    None => seq![
                        StartAction::Open,
                        StartAction::Return(Err(GrabError::KeyboardError)),
                    ],
                },
            )
        }),
{
    reveal_with_fuel(start_deeds, 6);
}

/// Once listening has been started, starting it again returns at once without an error and
/// changes nothing, even if the keyboard could not be opened the first time.
pub proof fn law_listening_starts_once<C, S, K>(
    service: GrabService<C, S, K>,
    first: StartAnswers<C, S, K>,
    second: StartAnswers<C, S, K>,
)
    ensures
        ({
            let listening = start_deeds(service, StartPhase::Called, first).0;
            start_deeds(listening, StartPhase::Called, second) == (
                listening,
                seq![StartAction::Return(Ok(()))],
            )
        }),
{
    law_start_deeds(service, first);
    law_start_deeds(start_deeds(service, StartPhase::Called, first).0, second);
}

/// The events that the callback is called with, of a run of things received, each with
/// whether there was a callback then.
pub open spec fn called<V>(received: Seq<(Option<GrabEvent<V>>, bool)>) -> Seq<V>
    decreases received.len(),
{
    if received.len() == 0 {
        seq![]
    } else {
        match callback_action(received[0].0, received[0].1) {
            CallbackAction::Call(event) => seq![event] + called(received.drop_first()),
            CallbackAction::Receive => called(received.drop_first()),
            CallbackAction::End => seq![],
        }
    }
}

/// The key events that found a callback, of a run of things received.
pub open spec fn met_events<V>(received: Seq<(Option<GrabEvent<V>>, bool)>) -> Seq<V>
    decreases received.len(),
{
    if received.len() == 0 {
        seq![]
    } else {
        match received[0] {
            (Some(GrabEvent::KeyEvent(event)), true) => seq![event] + met_events(
                received.drop_first(),
            ),
            _ => met_events(received.drop_first()),
        }
    }
}

/// Up to the end the callback is called with every key event that found it there, once and in
/// order, whatever failures to receive and whatever events without a callback lie between.
pub proof fn law_every_key_event_is_called_back<V>(received: Seq<(Option<GrabEvent<V>>, bool)>)
    requires
        forall|i: int|
            0 <= i < received.len() ==> (#[trigger] received[i]).0 != Some(GrabEvent::<V>::Exit),
    ensures
        called(received) == met_events(received),
    decreases received.len(),
{
    if received.len() > 0 {
        let rest = received.drop_first();
        assert forall|i: int| 0 <= i < rest.len() implies (#[trigger] rest[i]).0 != Some(
            GrabEvent::<V>::Exit,
        ) by {
            assert(rest[i] == received[i + 1]);
        }
        law_every_key_event_is_called_back(rest);
        assert(received[0].0 != Some(GrabEvent::<V>::Exit));
    }
}

/// Nothing that is received after the end is called back.
pub proof fn law_nothing_is_called_back_after_the_end<V>(
    before: Seq<(Option<GrabEvent<V>>, bool)>,
    has_callback: bool,
    after: Seq<(Option<GrabEvent<V>>, bool)>,
)
    ensures
        called(before + seq![(Some(GrabEvent::<V>::Exit), has_callback)] + after) == called(before),
    decreases before.len(),
{
    let end = seq![(Some(GrabEvent::<V>::Exit), has_callback)];
    let all = before + end + after;
    if before.len() > 0 {
        law_nothing_is_called_back_after_the_end(before.drop_first(), has_callback, after);
        assert(all.drop_first() =~= before.drop_first() + end + after);
        assert(all[0] == before[0]);
    } else {
        assert(all[0] == end[0]);
    }
}

/// An event that finds no callback is dropped, and what comes before and after it is called
/// back as if it had not been there.
pub proof fn law_event_without_callback_is_dropped<V>(
    before: Seq<(Option<GrabEvent<V>>, bool)>,
    event: V,
    after: Seq<(Option<GrabEvent<V>>, bool)>,
)
    ensures
        called(before + seq![(Some(GrabEvent::KeyEvent(event)), false)] + after) == called(
            before + after,
        ),
    decreases before.len(),
{
    let dropped = seq![(Some(GrabEvent::KeyEvent(event)), false)];
    let all = before + dropped + after;
    if before.len() > 0 {
        law_event_without_callback_is_dropped(before.drop_first(), event, after);
        assert(all.drop_first() =~= before.drop_first() + dropped + after);
        assert((before + after).drop_first() =~= before.drop_first() + after);
        assert(all[0] == before[0]);
        assert((before + after)[0] == before[0]);
    } else {
        assert(all[0] == dropped[0]);
        assert(all.drop_first() =~= before + after);
    }
}

} // verus!
