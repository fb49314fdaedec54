use crate::clock::system_time_now;
use crate::rdev::{Event, ListenError};
use vstd::prelude::*;

verus! {

/// The hook code that stands for an event; with any other there is nothing to look at.
pub const HC_ACTION: i32 = 0;

/// Why a hook could not be set; each carries the system's error code.
#[derive(Clone, Copy, Debug, PartialEq, Eq, Structural)]
pub enum HookError {
    Mouse(u32),
    Key(u32),
}

/// The error of listening that an error of setting a hook becomes.
pub open spec fn listen_error(error: HookError) -> ListenError {
    match error {
        HookError::Mouse(code) => ListenError::MouseHookError(code),
        HookError::Key(code) => ListenError::KeyHookError(code),
    }
}

impl From<HookError> for ListenError {
    fn from(error: HookError) -> (listen: ListenError) {
        match error {
            HookError::Mouse(code) => ListenError::MouseHookError(code),
            HookError::Key(code) => ListenError::KeyHookError(code),
        }
    }
}

impl vstd::std_specs::convert::FromSpecImpl<HookError> for ListenError {
    open spec fn obeys_from_spec() -> bool {
        true
    }

    open spec fn from_spec(error: HookError) -> ListenError {
        listen_error(error)
    }
}

/// What a hook is called with.
#[derive(Clone, Copy, Debug, PartialEq, Eq, Structural)]
pub struct HookCall {
    pub code: i32,
    pub param: usize,
    pub lpdata: isize,
}

/// How far a call of a hook has got.
#[derive(Debug)]
pub enum HookPhase<T> {
    /// The hook was called.
    Called,
    /// The data of the call are being looked at for an event.
    Converting,
    /// An event was found, with its platform code; the rest of it is being read.
    Describing { event_type: T, platform_code: u32 },
    /// The callback is being called.
    Delivering,
    /// The call was handed on.
    HandedOn,
}

/// What a hook does next.
#[derive(Debug)]
pub enum HookAction<T> {
    /// Look at the data of the call for an event.
    Convert { param: usize, lpdata: isize },
    /// Read the scan code and the extra word from the data of the call.
    Describe { lpdata: isize },
    /// Call the callback.
    Deliver(Event<T>),
    /// Hand the call on to the next hook and return what that returns.
    CallNext { code: i32, param: usize, lpdata: isize },
}

/// What came of the last action.
#[derive(Debug)]
pub enum HookReply<T> {
    /// Nothing was asked yet.
    Begin,
    /// What event the data hold, if any, and its platform code.
    Converted { event_type: Option<T>, platform_code: u32 },
    /// The scan code and the extra word.
    Described { scan_code: u32, extra_data: usize },
    /// The callback was called.
    Delivered,
}

/// Which replies fit a phase.
pub open spec fn hook_fits<T>(phase: HookPhase<T>, reply: HookReply<T>) -> bool {
    match phase {
        HookPhase::Called => reply is Begin,
        HookPhase::Converting => reply is Converted,
        HookPhase::Describing { .. } => reply is Described,
        HookPhase::Delivering => reply is Delivered,
        HookPhase::HandedOn => false,
    }
}

/// The event of a hook.
pub open spec fn hook_event<T>(
    event_type: T,
    time: std::time::SystemTime,
    platform_code: u32,
    scan_code: u32,
    extra_data: usize,
) -> Event<T> {
    Event {
        event_type,
        time,
        unicode: None,
        platform_code,
        position_code: scan_code,
        usb_hid: 0,
        extra_data: Some(extra_data),
    }
}

/// Handing the call on, just as it came.
pub open spec fn hand_on<T>(call: HookCall) -> (HookPhase<T>, HookAction<T>) {
    (
        HookPhase::HandedOn,
        HookAction::CallNext { code: call.code, param: call.param, lpdata: call.lpdata },
    )
}

/// What a hook does with a reply, the clock showing `time`: the phase that it goes to and
/// what it does next.
pub open spec fn hook_next<T>(
    call: HookCall,
    phase: HookPhase<T>,
    reply: HookReply<T>,
    has_callback: bool,
    time: std::time::SystemTime,
) -> (HookPhase<T>, HookAction<T>) {
    match (phase, reply) {
        (HookPhase::Called, _) if call.code == HC_ACTION => (
            HookPhase::Converting,
            HookAction::Convert { param: call.param, lpdata: call.lpdata },
        ),
        (
            HookPhase::Converting,
            HookReply::Converted { event_type: Some(event_type), platform_code },
        ) => (
            HookPhase::Describing { event_type, platform_code },
            HookAction::Describe { lpdata: call.lpdata },
        ),
        (
            HookPhase::Describing { event_type, platform_code },
            HookReply::Described { scan_code, extra_data },
        ) if has_callback => (
            HookPhase::Delivering,
            HookAction::Deliver(
                hook_event(event_type, time, platform_code, scan_code, extra_data),
            ),
        ),
        _ => hand_on(call),
    }
}

/// Makes the event of a hook, seen at a given time.
pub fn hook_event_at<T>(
    event_type: T,
    time: std::time::SystemTime,
    platform_code: u32,
    scan_code: u32,
    extra_data: usize,
) -> (event: Event<T>)
    ensures
        event == hook_event(event_type, time, platform_code, scan_code, extra_data),
        event.event_type == event_type,
        event.time == time,
        event.unicode is None,
        event.platform_code == platform_code,
        event.position_code == scan_code,
        event.usb_hid == 0,
        event.extra_data == Some(extra_data),
{
    Event {
        event_type,
        time,
        unicode: None,
        platform_code,
        position_code: scan_code,
        usb_hid: 0,
        extra_data: Some(extra_data),
    }
}

/// Runs a hook: tells the callback of the event that the call stands for, if it stands for
/// one and there is a callback, and hands the call on.
///
/// One call takes what came of the last action and gives the next. An event bears the time
/// at which it is made.
pub fn raw_callback<T>(
    call: &HookCall,
    phase: HookPhase<T>,
    reply: HookReply<T>,
    has_callback: bool,
) -> (step: (HookPhase<T>, HookAction<T>))
    requires
        hook_fits(phase, reply),
    ensures
        exists|time: std::time::SystemTime|
            step == #[trigger] hook_next(*call, phase, reply, has_callback, time),
{
    let time = system_time_now();
    raw_callback_at(call, phase, reply, has_callback, time)
}

/// Runs a hook as `raw_callback` does, at a given time.
pub fn raw_callback_at<T>(
    call: &HookCall,
    phase: HookPhase<T>,
    reply: HookReply<T>,
    has_callback: bool,
    time: std::time::SystemTime,
) -> (step: (HookPhase<T>, HookAction<T>))
    requires
        hook_fits(phase, reply),
    ensures
        step == hook_next(*call, phase, reply, has_callback, time),
{
    match (phase, reply) {
        (HookPhase::Called, _) if call.code == HC_ACTION => (
            HookPhase::Converting,
            HookAction::Convert { param: call.param, lpdata: call.lpdata },
        ),
        (
            HookPhase::Converting,
            HookReply::Converted { event_type: Some(event_type), platform_code },
        ) => (
            HookPhase::Describing { event_type, platform_code },
            HookAction::Describe { lpdata: call.lpdata },
        ),
        (
            HookPhase::Describing { event_type, platform_code },
            HookReply::Described { scan_code, extra_data },
        ) if has_callback => (
            HookPhase::Delivering,
            HookAction::Deliver(
                hook_event_at(event_type, time, platform_code, scan_code, extra_data),
            ),
        ),
        _ => (
            HookPhase::HandedOn,
            HookAction::CallNext { code: call.code, param: call.param, lpdata: call.lpdata },
        ),
    }
}

/// What a call of a hook finds: what its data convert to and, if that is an event, how the
/// event is described.
pub struct HookData<T> {
    pub event_type: Option<T>,
    pub platform_code: u32,
    pub scan_code: u32,
    pub extra_data: usize,
}

/// The reply that a phase gets when the call finds `data`.
pub open spec fn hook_reply<T>(phase: HookPhase<T>, data: HookData<T>) -> HookReply<T> {
    match phase {
        HookPhase::Called => HookReply::Begin,
        HookPhase::Converting => HookReply::Converted {
            event_type: data.event_type,
            platform_code: data.platform_code,
        },
        HookPhase::Describing { .. } => HookReply::Described {
            scan_code: data.scan_code,
            extra_data: data.extra_data,
        },
        _ => HookReply::Delivered,
    }
}

/// How many more actions a phase can lead to.
pub open spec fn hook_rank<T>(phase: HookPhase<T>) -> nat {
    match phase {
        HookPhase::Called => 4,
        HookPhase::Converting => 3,
        HookPhase::Describing { .. } => 2,
        HookPhase::Delivering => 1,
        HookPhase::HandedOn => 0,
    }
}

/// Everything that a call of a hook does from a phase on, when it finds `data`.
pub open spec fn hook_deeds<T>(
    call: HookCall,
    phase: HookPhase<T>,
    data: HookData<T>,
    has_callback: bool,
    time: std::time::SystemTime,
) -> Seq<HookAction<T>>
    decreases hook_rank(phase),
{
    if phase is HandedOn {
        seq![]
    } else {
        let (after, action) = hook_next(call, phase, hook_reply(phase, data), has_callback, time);
        seq![action] + hook_deeds(call, after, data, has_callback, time)
    }
}

/// What a call of a hook does as a whole. Its data are looked at only if its code says that
/// there is an event, and described only if there is one; the callback, if there is one, is
/// told of it once. Whatever the call was, it is handed on once, last and unchanged.
pub proof fn law_hook_deeds<T>(
    call: HookCall,
    data: HookData<T>,
    has_callback: bool,
    time: std::time::SystemTime,
)
    ensures
        ({
            let convert = HookAction::<T>::Convert { param: call.param, lpdata: call.lpdata };
            let describe = HookAction::<T>::Describe { lpdata: call.lpdata };
            let call_next = HookAction::<T>::CallNext {
                code: call.code,
                param: call.param,
                lpdata: call.lpdata,
            };
            hook_deeds(call, HookPhase::Called, data, has_callback, time) == (if call.code != 0 {
                seq![call_next]
            } else {
                match data.event_type {
                    None => seq![convert, call_next],
                    Some(event_type) => if has_callback {
                        seq![
                            convert,
                            describe,
                            HookAction::Deliver(
                                Event {
                                    event_type,
                                    time,
                                    unicode: None,
                                    platform_code: data.platform_code,
                                    position_code: data.scan_code,
                                    usb_hid: 0,
                                    extra_data: Some(data.extra_data),
                                },
                            ),
                            call_next,
                        ]
                    } else {
                        seq![convert, describe, call_next]
                    },
                }
            })
        }),
{
    reveal_with_fuel(hook_deeds, 5);
}

/// Where the fields of a delivered event come from: the kind of event and the platform code from
/// the conversion, the position code from the scan code, the extra data from the extra word and the
/// time from the clock, each as it is. Such an event has no text.
pub proof fn law_delivered_event<T>(
    call: HookCall,
    data: HookData<T>,
    event_type: T,
    time: std::time::SystemTime,
)
    requires
        call.code == 0,
        data.event_type == Some(event_type),
    ensures
        ({
            let deeds = hook_deeds(call, HookPhase::Called, data, true, time);
            &&& deeds.len() == 4
            &&& deeds[2] matches HookAction::Deliver(event) && {
                &&& event.event_type == event_type
                &&& event.platform_code == data.platform_code
                &&& event.position_code == data.scan_code
                &&& event.extra_data == Some(data.extra_data)
                &&& event.time == time
                &&& event.unicode is None
                &&& event.usb_hid == 0
            }
        }),
{
    law_hook_deeds(call, data, true, time);
}

/// An error of setting a hook becomes the error of the same device, with the same code.
pub proof fn law_hook_errors_keep_device_and_code(code: u32)
    ensures
        listen_error(HookError::Key(code)) == ListenError::KeyHookError(code),
        listen_error(HookError::Mouse(code)) == ListenError::MouseHookError(code),
{
}

/// The state that listening keeps for the whole process: the callback `C` and the sending
/// end `S` of the channel by which listening is stopped.
pub struct Listener<C, S> {
    pub callback: Option<C>,
    pub stop_loop: Option<S>,
}

impl<C, S> Listener<C, S> {
    /// The state at the start of the process.
    pub fn new() -> (listener: Self)
        ensures
            listener == (Listener::<C, S> { callback: None, stop_loop: None }),
    {
        Listener { callback: None, stop_loop: None }
    }
}

/// How far a call of `listen` has got.
#[derive(Clone, Copy, Debug, PartialEq, Eq, Structural)]
pub enum ListenPhase {
    /// Listening is asked for.
    Called,
    /// The keyboard hook is being set.
    SettingKeyHook,
    /// It is being asked whether only the keyboard is wanted.
    AskingKeyboardOnly,
    /// The mouse hook is being set.
    SettingMouseHook,
    /// The channel by which listening is stopped is being opened.
    OpeningStopChannel,
    /// It is being asked whether to stop.
    Polling,
    /// The messages of the system are being seen to.
    Pumping,
    /// Listening is over.
    Returned,
}

/// What listening does next.
#[derive(Clone, Copy, Debug, PartialEq, Eq)]
pub enum ListenAction {
    /// Set the keyboard hook.
    SetKeyHook,
    /// Ask whether only the keyboard is wanted.
    AskKeyboardOnly,
    /// Set the mouse hook.
    SetMouseHook,
    /// Open the channel by which listening is stopped.
    OpenStopChannel,
    /// See without waiting whether the channel holds anything.
    Poll,
    /// See to the messages of the system.
    PumpMessages,
    /// Return to the caller.
    Return(Result<(), ListenError>),
}

/// What came of the last action.
#[derive(Debug)]
pub enum ListenReply<C, S> {
    /// Nothing was asked yet: listen with this callback.
    Begin(C),
    /// Whether a hook was set.
    Hooked(Result<(), HookError>),
    /// Whether only the keyboard is wanted.
    KeyboardOnly(bool),
    /// The sending end of the channel.
    StopChannel(S),
    /// What the channel held, if anything: whether to stop.
    Polled(Option<bool>),
    /// The messages were seen to.
    Pumped,
}

/// Which replies fit a phase.
pub open spec fn listen_fits<C, S>(phase: ListenPhase, reply: ListenReply<C, S>) -> bool {
    match phase {
        ListenPhase::Called => reply is Begin,
        ListenPhase::SettingKeyHook => reply is Hooked,
        ListenPhase::AskingKeyboardOnly => reply is KeyboardOnly,
        ListenPhase::SettingMouseHook => reply is Hooked,
        ListenPhase::OpeningStopChannel => reply is StopChannel,
        ListenPhase::Polling => reply is Polled,
        ListenPhase::Pumping => reply is Pumped,
        ListenPhase::Returned => false,
    }
}

/// What a reply changes in the state: beginning installs the callback, opening the channel
/// installs its sending end, and nothing else changes anything.
pub open spec fn listener_after<C, S>(listener: Listener<C, S>, reply: ListenReply<C, S>) -> Listener<
    C,
    S,
> {
    match reply {
        ListenReply::Begin(callback) => Listener { callback: Some(callback), ..listener },
        ListenReply::StopChannel(sender) => Listener { stop_loop: Some(sender), ..listener },
        _ => listener,
    }
}

/// What listening does with a reply: the phase that it goes to and what it does next.
pub open spec fn listen_next<C, S>(phase: ListenPhase, reply: ListenReply<C, S>) -> (
    ListenPhase,
    ListenAction,
) {
    match (phase, reply) {
        (_, ListenReply::Begin(_)) => (ListenPhase::SettingKeyHook, ListenAction::SetKeyHook),
        (_, ListenReply::Hooked(Err(error))) => (
            ListenPhase::Returned,
            ListenAction::Return(Err(listen_error(error))),
        ),
        (ListenPhase::SettingKeyHook, _) => (
            ListenPhase::AskingKeyboardOnly,
            ListenAction::AskKeyboardOnly,
        ),
        (_, ListenReply::KeyboardOnly(false)) => (
            ListenPhase::SettingMouseHook,
            ListenAction::SetMouseHook,
        ),
        (_, ListenReply::KeyboardOnly(true)) => (
            ListenPhase::OpeningStopChannel,
            ListenAction::OpenStopChannel,
        ),
        (ListenPhase::SettingMouseHook, _) => (
            ListenPhase::OpeningStopChannel,
            ListenAction::OpenStopChannel,
        ),
        (_, ListenReply::Polled(Some(true))) => (
            ListenPhase::Returned,
            ListenAction::Return(Ok(())),
        ),
        (_, ListenReply::Polled(_)) => (ListenPhase::Pumping, ListenAction::PumpMessages),
        _ => (ListenPhase::Polling, ListenAction::Poll),
    }
}

/// Listens to the keyboard and, unless only the keyboard is wanted, to the mouse, until
/// told to stop.
///
/// One call takes what came of the last action and gives the next.
pub fn listen<C, S>(
    listener: &mut Listener<C, S>,
    phase: ListenPhase,
    reply: ListenReply<C, S>,
) -> (step: (ListenPhase, ListenAction))
    requires
        listen_fits(phase, reply),
    ensures
        step == listen_next(phase, reply),
        *final(listener) == listener_after(*old(listener), reply),
{
    match reply {
        ListenReply::Begin(callback) => {
            listener.callback = Some(callback);
            (ListenPhase::SettingKeyHook, ListenAction::SetKeyHook)
        },
        ListenReply::Hooked(Err(error)) => (
            ListenPhase::Returned,
            ListenAction::Return(Err(ListenError::from(error))),
        ),
        ListenReply::Hooked(Ok(())) => {
            if phase == ListenPhase::SettingKeyHook {
                (ListenPhase::AskingKeyboardOnly, ListenAction::AskKeyboardOnly)
            } else {
                (ListenPhase::OpeningStopChannel, ListenAction::OpenStopChannel)
            }
        },
        ListenReply::KeyboardOnly(keyboard_only) => {
            if !keyboard_only {
                (ListenPhase::SettingMouseHook, ListenAction::SetMouseHook)
            } else {
                (ListenPhase::OpeningStopChannel, ListenAction::OpenStopChannel)
            }
        },
        ListenReply::StopChannel(sender) => {
            listener.stop_loop = Some(sender);
            (ListenPhase::Polling, ListenAction::Poll)
        },
        ListenReply::Polled(received) => {
            if let Some(stop_listen) = received {
                if stop_listen {
                    return (ListenPhase::Returned, ListenAction::Return(Ok(())));
                }
            }
            (ListenPhase::Pumping, ListenAction::PumpMessages)
        },
        ListenReply::Pumped => (ListenPhase::Polling, ListenAction::Poll),
    }
}

/// What is sent to the listening loop to stop it.
pub const STOP_LISTENING: bool = true;

/// A message to the listening loop: what to send, and by which channel.
#[derive(Debug)]
pub struct StopMessage<S> {
    pub sender: S,
    pub message: bool,
}

/// What comes of stopping: the message that stops the loop, if there is a channel to send it by,
/// which is then forgotten.
pub open spec fn stopped<C, S>(listener: Listener<C, S>) -> (
    Listener<C, S>,
    Option<StopMessage<S>>,
) {
    (
        Listener { stop_loop: None, ..listener },
        match listener.stop_loop {
            Some(sender) => Some(StopMessage { sender, message: STOP_LISTENING }),
            None => None,
        },
    )
}

/// Stops listening: gives the message that tells the listening loop to stop, if there is one to
/// tell.
pub fn stop_listen<C, S>(listener: &mut Listener<C, S>) -> (stop: Option<StopMessage<S>>)
    ensures
        (*final(listener), stop) == stopped(*old(listener)),
{
    match listener.stop_loop.take() {
        Some(sender) => Some(StopMessage { sender, message: STOP_LISTENING }),
        None => None,
    }
}

/// Stopping twice is stopping once: the second time there is nothing to tell.
pub proof fn law_stopping_twice_is_stopping_once<C, S>(listener: Listener<C, S>)
    ensures
        stopped(stopped(listener).0) == (stopped(listener).0, None::<StopMessage<S>>),
{
}

/// The state that a run of replies leaves.
pub open spec fn listener_run<C, S>(
    listener: Listener<C, S>,
    replies: Seq<ListenReply<C, S>>,
) -> Listener<C, S>
    decreases replies.len(),
{
    if replies.len() == 0 {
        listener
    } else {
        listener_after(listener_run(listener, replies.drop_last()), replies.last())
    }
}

/// Only the opening of a channel changes whom stopping tells, whatever other replies come.
pub proof fn law_only_a_new_channel_changes_the_stop<C, S>(
    listener: Listener<C, S>,
    replies: Seq<ListenReply<C, S>>,
)
    requires
        forall|i: int| 0 <= i < replies.len() ==> !(#[trigger] replies[i] is StopChannel),
    ensures
        listener_run(listener, replies).stop_loop == listener.stop_loop,
    decreases replies.len(),
{
    if replies.len() > 0 {
        let before = replies.drop_last();
        assert forall|i: int| 0 <= i < before.len() implies !(#[trigger] before[
            i
        ] is StopChannel) by {
            assert(before[i] == replies[i]);
        }
        law_only_a_new_channel_changes_the_stop(listener, before);
        assert(!(replies[replies.len() - 1] is StopChannel));
    }
}

/// Stopping tells the loop that opened its channel last, whatever replies came before that and
/// whatever others came after it.
pub proof fn law_stopping_tells_the_last_listener<C, S>(
    listener: Listener<C, S>,
    before: Seq<ListenReply<C, S>>,
    sender: S,
    after: Seq<ListenReply<C, S>>,
)
    requires
        forall|i: int| 0 <= i < after.len() ==> !(#[trigger] after[i] is StopChannel),
    ensures
        ({
            let opened = listener_after(
                listener_run(listener, before),
                ListenReply::StopChannel(sender),
            );
            stopped(listener_run(opened, after)).1 == Some(
                StopMessage { sender, message: STOP_LISTENING },
            )
        }),
{
    let opened = listener_after(listener_run(listener, before), ListenReply::StopChannel(sender));
    law_only_a_new_channel_changes_the_stop(opened, after);
}

/// Only beginning to listen changes the callback, whatever other replies come, and stopping does
/// not change it either.
pub proof fn law_only_beginning_changes_the_callback<C, S>(
    listener: Listener<C, S>,
    replies: Seq<ListenReply<C, S>>,
)
    requires
        forall|i: int| 0 <= i < replies.len() ==> !(#[trigger] replies[i] is Begin),
    ensures
        listener_run(listener, replies).callback == listener.callback,
        stopped(listener).0.callback == listener.callback,
    decreases replies.len(),
{
    if replies.len() > 0 {
        let before = replies.drop_last();
        assert forall|i: int| 0 <= i < before.len() implies !(#[trigger] before[i] is Begin) by {
            assert(before[i] == replies[i]);
        }
        law_only_beginning_changes_the_callback(listener, before);
        assert(!(replies[replies.len() - 1] is Begin));
    }
}

/// Events go to the callback that listening was last begun with, whatever callback there was
/// before, whatever other replies come after, and whether or not listening was stopped in between.
pub proof fn law_last_callback_counts<C, S>(
    listener: Listener<C, S>,
    before: Seq<ListenReply<C, S>>,
    callback: C,
    after: Seq<ListenReply<C, S>>,
    later: Seq<ListenReply<C, S>>,
)
    requires
        forall|i: int| 0 <= i < after.len() ==> !(#[trigger] after[i] is Begin),
        forall|i: int| 0 <= i < later.len() ==> !(#[trigger] later[i] is Begin),
    ensures
        ({
            let begun = listener_after(
                listener_run(listener, before),
                ListenReply::Begin(callback),
            );
            let going = listener_run(begun, after);
            &&& begun.callback == Some(callback)
            &&& begun.stop_loop == listener_run(listener, before).stop_loop
            &&& going.callback == Some(callback)
            &&& listener_run(stopped(going).0, later).callback == Some(callback)
        }),
{
    let begun = listener_after(listener_run(listener, before), ListenReply::Begin(callback));
    let going = listener_run(begun, after);
    law_only_beginning_changes_the_callback(begun, after);
    law_only_beginning_changes_the_callback(going, later);
    law_only_beginning_changes_the_callback(stopped(going).0, later);
}

/// Once listening was stopped there is nothing to tell, until a channel is opened again.
pub proof fn law_nothing_to_tell_after_a_stop<C, S>(
    listener: Listener<C, S>,
    replies: Seq<ListenReply<C, S>>,
)
    requires
        forall|i: int| 0 <= i < replies.len() ==> !(#[trigger] replies[i] is StopChannel),
    ensures
        listener_run(stopped(listener).0, replies).stop_loop is None,
        stopped(listener_run(stopped(listener).0, replies)).1 is None,
{
    law_only_a_new_channel_changes_the_stop(stopped(listener).0, replies);
}

/// What a call of `listen` is answered.
pub struct ListenAnswers<C, S> {
    pub callback: C,
    pub key_hook: Result<(), HookError>,
    pub keyboard_only: bool,
    pub mouse_hook: Result<(), HookError>,
    pub sender: S,
    /// What the channel held each time that it was asked.
    pub polls: Seq<Option<bool>>,
}

/// The reply that a phase gets by the answers.
pub open spec fn listen_reply<C, S>(
    phase: ListenPhase,
    answers: ListenAnswers<C, S>,
) -> ListenReply<C, S> {
    match phase {
        ListenPhase::Called => ListenReply::Begin(answers.callback),
        ListenPhase::SettingKeyHook => ListenReply::Hooked(answers.key_hook),
        ListenPhase::AskingKeyboardOnly => ListenReply::KeyboardOnly(answers.keyboard_only),
        ListenPhase::SettingMouseHook => ListenReply::Hooked(answers.mouse_hook),
        ListenPhase::OpeningStopChannel => ListenReply::StopChannel(answers.sender),
        ListenPhase::Polling => ListenReply::Polled(answers.polls[0]),
        _ => ListenReply::Pumped,
    }
}

/// How many phases are still to come before the channel is asked.
pub open spec fn listen_rank(phase: ListenPhase) -> nat {
    match phase {
        ListenPhase::Called => 6,
        ListenPhase::SettingKeyHook => 5,
        ListenPhase::AskingKeyboardOnly => 4,
        ListenPhase::SettingMouseHook => 3,
        ListenPhase::OpeningStopChannel => 2,
        ListenPhase::Pumping => 1,
        _ => 0,
    }
}

/// Everything that a call of `listen` does from a phase on, until the answers run out.
pub open spec fn listen_deeds<C, S>(phase: ListenPhase, answers: ListenAnswers<C, S>) -> Seq<
    ListenAction,
>
    decreases answers.polls.len(), listen_rank(phase),
{
    if phase is Returned || (phase is Polling && answers.polls.len() == 0) {
        seq![]
    } else {
        let (after, action) = listen_next(phase, listen_reply(phase, answers));
        let left = if phase is Polling {
            ListenAnswers { polls: answers.polls.drop_first(), ..answers }
        } else {
            answers
        };
        seq![action] + listen_deeds(after, left)
    }
}

/// What the loop does by what the channel holds: it returns as soon as it is told to stop,
/// and otherwise sees to the messages and asks again.
pub open spec fn loop_deeds(polls: Seq<Option<bool>>) -> Seq<ListenAction>
    decreases polls.len(),
{
    if polls.len() == 0 {
        seq![]
    } else if polls[0] == Some(true) {
        seq![ListenAction::Return(Ok(()))]
    } else {
        seq![ListenAction::PumpMessages, ListenAction::Poll] + loop_deeds(polls.drop_first())
    }
}

proof fn lemma_loop_deeds<C, S>(answers: ListenAnswers<C, S>)
    ensures
        listen_deeds(ListenPhase::Polling, answers) == loop_deeds(answers.polls),
    decreases answers.polls.len(),
{
    reveal_with_fuel(listen_deeds, 3);
    if answers.polls.len() > 0 {
        let left = ListenAnswers { polls: answers.polls.drop_first(), ..answers };
        lemma_loop_deeds(left);
        if answers.polls[0] != Some(true) {
            assert(listen_deeds(ListenPhase::Polling, answers) =~= seq![ListenAction::PumpMessages]
                + listen_deeds(ListenPhase::Pumping, left));
            assert(listen_deeds(ListenPhase::Pumping, left) =~= seq![ListenAction::Poll]
                + listen_deeds(ListenPhase::Polling, left));
        } else {
            assert(listen_deeds(ListenPhase::Returned, left) =~= seq![]);
        }
    }
}

/// What a call of `listen` does as a whole. The keyboard hook is set first and the mouse
/// hook only if the mouse is wanted; if a hook cannot be set, its error is returned at once
/// and no channel is opened. Otherwise the loop runs until it is told to stop.
pub proof fn law_listen_deeds<C, S>(answers: ListenAnswers<C, S>)
    ensures
        listen_deeds(ListenPhase::Called, answers) == (match (
            answers.key_hook,
            answers.keyboard_only,
            answers.mouse_hook,
        ) {
            (Err(error), _, _) => seq![
                ListenAction::SetKeyHook,
                ListenAction::Return(Err(listen_error(error))),
            ],
            (Ok(()), true, _) => seq![
                ListenAction::SetKeyHook,
                ListenAction::AskKeyboardOnly,
                ListenAction::OpenStopChannel,
                ListenAction::Poll,
            ] + loop_deeds(answers.polls),
            (Ok(()), false, Err(error)) => seq![
                ListenAction::SetKeyHook,
                ListenAction::AskKeyboardOnly,
                ListenAction::SetMouseHook,
                ListenAction::Return(Err(listen_error(error))),
            ],
            (Ok(()), false, Ok(())) => seq![
                ListenAction::SetKeyHook,
                ListenAction::AskKeyboardOnly,
                ListenAction::SetMouseHook,
                ListenAction::OpenStopChannel,
                ListenAction::Poll,
            ] + loop_deeds(answers.polls),
        }),
{
    reveal_with_fuel(listen_deeds, 6);
    lemma_loop_deeds(answers);
}

/// Seeing to the messages and asking again, so many times.
pub open spec fn rounds(count: nat) -> Seq<ListenAction>
    decreases count,
{
    if count == 0 {
        seq![]
    } else {
        seq![ListenAction::PumpMessages, ListenAction::Poll] + rounds((count - 1) as nat)
    }
}

proof fn lemma_loop_until_stop(
    missed: Seq<Option<bool>>,
    message: bool,
    later: Seq<Option<bool>>,
)
    requires
        message == STOP_LISTENING,
        forall|i: int|
            0 <= i < missed.len() ==> #[trigger] missed[i] != Some(STOP_LISTENING),
    ensures
        loop_deeds(missed + seq![Some(message)] + later) == rounds(missed.len()) + seq![
            ListenAction::Return(Ok(())),
        ],
    decreases missed.len(),
{
    let polls = missed + seq![Some(message)] + later;
    if missed.len() > 0 {
        let rest = missed.drop_first();
        assert forall|i: int| 0 <= i < rest.len() implies #[trigger] rest[i] != Some(
            STOP_LISTENING,
        ) by {
            assert(rest[i] == missed[i + 1]);
        }
        lemma_loop_until_stop(rest, message, later);
        assert(polls.drop_first() =~= rest + seq![Some(message)] + later);
        assert(polls[0] == missed[0]);
        assert(rest.len() == (missed.len() - 1) as nat);
        assert(rounds(missed.len()) =~= seq![ListenAction::PumpMessages, ListenAction::Poll]
            + rounds(rest.len()));
    } else {
        assert(polls[0] == Some(message));
    }
}

/// Stopping ends listening. When the message that stopping gives is found in the channel, after
/// it was missed a number of times, the loop has seen to the messages of the system once for
/// each miss and returns without an error. A loop that was seeing to the messages when listening
/// was stopped asks next. So a loop that finds the message the first time that it asks sees to
/// no more messages, and one that had just asked sees to them once. The channel is forgotten.
pub proof fn law_stopping_ends_listening<C, S>(
    listener: Listener<C, S>,
    answers: ListenAnswers<C, S>,
    missed: Seq<Option<bool>>,
    later: Seq<Option<bool>>,
)
    requires
        listener.stop_loop is Some,
        forall|i: int|
            0 <= i < missed.len() ==> #[trigger] missed[i] != Some(STOP_LISTENING),
        answers.polls == missed + seq![Some(stopped(listener).1->0.message)] + later,
    ensures
        stopped(listener).1 is Some,
        stopped(listener).0.stop_loop is None,
        listen_deeds(ListenPhase::Polling, answers) == rounds(missed.len()) + seq![
            ListenAction::Return(Ok(())),
        ],
        listen_deeds(ListenPhase::Pumping, answers) == seq![ListenAction::Poll] + rounds(
            missed.len(),
        ) + seq![ListenAction::Return(Ok(()))],
{
    lemma_loop_until_stop(missed, stopped(listener).1->0.message, later);
    lemma_loop_deeds(answers);
    assert(listen_deeds(ListenPhase::Pumping, answers) =~= seq![ListenAction::Poll]
        + listen_deeds(ListenPhase::Polling, answers));
}

/// The step that ends listening: the stop message makes the loop return, and a loop that has seen
/// to the messages of the system asks for it next.
pub proof fn law_stop_message_returns<C, S>(listener: Listener<C, S>)
    requires
        listener.stop_loop is Some,
    ensures
        listen_next(
            ListenPhase::Polling,
            ListenReply::<C, S>::Polled(Some(stopped(listener).1->0.message)),
        ) == (ListenPhase::Returned, ListenAction::Return(Ok(()))),
        listen_next(ListenPhase::Pumping, ListenReply::<C, S>::Pumped) == (
            ListenPhase::Polling,
            ListenAction::Poll,
        ),
{
}

} // verus!
