use crate::linux::devices::{
    get_device_files, input_devices, law_selection_is_exact, DeviceEntry, DEV_PATH,
};
use crate::linux::watch::{device_watch, source_of, watch_of_device, EpollEvent, Source};
use vstd::prelude::*;

verus! {

/// The next thing to be done to set the devices up. Files, devices and outputs are each named by
/// their position, in the order in which they were opened.
#[derive(Debug, PartialEq)]
pub enum SetupAction<X> {
    /// List a directory.
    ListDirectory { path: &'static str },
    /// Open the file of an entry of the listing.
    OpenFile { entry: usize },
    /// Create the epoll instance.
    CreateEpoll,
    /// Watch a file.
    Watch { file: usize, watch: EpollEvent },
    /// Make a device of a file.
    OpenDevice { file: usize },
    /// Create an output that is a copy of a device.
    CreateOutput { device: usize },
    /// Return to the caller: so many devices, each with its output, or what failed.
    Return(Result<usize, X>),
}

/// What came of an action.
#[derive(Debug)]
pub enum SetupReply<X> {
    /// The entries of the directory.
    Listed(Vec<DeviceEntry>),
    /// The action succeeded.
    Done,
    /// The action failed.
    Failed(X),
}

/// What the setting up is waiting for.
#[derive(Clone, Copy, Debug, PartialEq, Eq, Structural)]
pub enum SetupPhase {
    Listing,
    OpeningFile { file: usize },
    CreatingEpoll,
    Watching { file: usize },
    OpeningDevice { file: usize },
    CreatingOutput { device: usize },
    Finished,
}

/// The state of the setting up.
#[verifier::ext_equal]
pub struct SetupState {
    pub phase: SetupPhase,
    /// The entries of the listing that are input devices.
    pub picked: Seq<usize>,
}

impl SetupState {
    /// The same state, waiting for something else.
    pub open spec fn at(self, phase: SetupPhase) -> SetupState {
        SetupState { phase, ..self }
    }

    /// What every state keeps: a position that it holds is that of a picked file.
    pub open spec fn inv(self) -> bool {
        &&& self.picked.len() <= usize::MAX
        &&& match self.phase {
            SetupPhase::OpeningFile { file } => file < self.picked.len(),
            SetupPhase::Watching { file } => file < self.picked.len(),
            SetupPhase::OpeningDevice { file } => file < self.picked.len(),
            SetupPhase::CreatingOutput { device } => device < self.picked.len(),
            _ => true,
        }
    }
}

/// The state before anything has been done.
pub open spec fn initial_setup() -> SetupState {
    SetupState { phase: SetupPhase::Listing, picked: seq![] }
}

/// Which replies the action that a state waits for can have.
pub open spec fn setup_fits<X>(s: SetupState, reply: SetupReply<X>) -> bool {
    match s.phase {
        SetupPhase::Listing => reply is Listed || reply is Failed,
        SetupPhase::Finished => false,
        _ => reply is Done || reply is Failed,
    }
}

/// Opens the picked files from a position on, then creates the epoll instance.
pub open spec fn open_from<X>(s: SetupState, file: nat) -> (SetupState, SetupAction<X>) {
    if file < s.picked.len() {
        (
            s.at(SetupPhase::OpeningFile { file: file as usize }),
            SetupAction::OpenFile { entry: s.picked[file as int] },
        )
    } else {
        (s.at(SetupPhase::CreatingEpoll), SetupAction::CreateEpoll)
    }
}

/// Watches the files from a position on, each under its position, then makes devices of them.
pub open spec fn watch_from<X>(s: SetupState, file: nat) -> (SetupState, SetupAction<X>) {
    if file < s.picked.len() {
        let file = file as usize;
        (
            s.at(SetupPhase::Watching { file }),
            SetupAction::Watch { file, watch: watch_of_device(file) },
        )
    } else {
        devices_from(s, 0)
    }
}

/// Makes devices of the files from a position on, then creates the outputs.
pub open spec fn devices_from<X>(s: SetupState, file: nat) -> (SetupState, SetupAction<X>) {
    if file < s.picked.len() {
        let file = file as usize;
        (s.at(SetupPhase::OpeningDevice { file }), SetupAction::OpenDevice { file })
    } else {
        outputs_from(s, 0)
    }
}

/// Creates the outputs of the devices from a position on, then returns.
pub open spec fn outputs_from<X>(s: SetupState, device: nat) -> (SetupState, SetupAction<X>) {
    if device < s.picked.len() {
        let device = device as usize;
        (s.at(SetupPhase::CreatingOutput { device }), SetupAction::CreateOutput { device })
    } else {
        (s.at(SetupPhase::Finished), SetupAction::Return(Ok(s.picked.len() as usize)))
    }
}

/// What the setting up does with a reply: the state that it goes to and what it does next. Any
/// failure ends it.
pub open spec fn setup_next<X>(s: SetupState, reply: SetupReply<X>) -> (
    SetupState,
    SetupAction<X>,
) {
    match (s.phase, reply) {
        (_, SetupReply::Failed(error)) => (
            s.at(SetupPhase::Finished),
            SetupAction::Return(Err(error)),
        ),
        (_, SetupReply::Listed(entries)) => open_from(
            SetupState { picked: input_devices(entries@), ..s },
            0,
        ),
        (SetupPhase::OpeningFile { file }, _) => open_from(s, file as nat + 1),
        (SetupPhase::CreatingEpoll, _) => watch_from(s, 0),
        (SetupPhase::Watching { file }, _) => watch_from(s, file as nat + 1),
        (SetupPhase::OpeningDevice { file }, _) => devices_from(s, file as nat + 1),
        (SetupPhase::CreatingOutput { device }, _) => outputs_from(s, device as nat + 1),
        // No other reply fits.
        _ => (s, SetupAction::CreateEpoll),
    }
}

/// The setting up of the devices.
///
/// It says what to do next; whoever runs it does that and tells what came of it.
#[derive(Debug)]
pub struct DeviceSetup {
    phase: SetupPhase,
    picked: Vec<usize>,
}

impl View for DeviceSetup {
    type V = SetupState;

    closed spec fn view(&self) -> SetupState {
        SetupState { phase: self.phase, picked: self.picked@ }
    }
}

impl DeviceSetup {
    /// Begins to set the devices up, with the listing of the device directory.
    pub fn begin<X>() -> (begun: (DeviceSetup, SetupAction<X>))
        ensures
            begun.0@ == initial_setup(),
            begun.0@.inv(),
            begun.1 == (SetupAction::<X>::ListDirectory { path: DEV_PATH }),
            begun.1->ListDirectory_path@ == "/dev/input"@,
    {
        let setup = DeviceSetup { phase: SetupPhase::Listing, picked: Vec::new() };
        assert(setup@ =~= initial_setup());
        (setup, SetupAction::ListDirectory { path: DEV_PATH })
    }

    fn open_from<X>(&mut self, file: usize) -> (action: SetupAction<X>)
        ensures
            (final(self)@, action) == open_from::<X>(old(self)@, file as nat),
    {
        if file < self.picked.len() {
            self.phase = SetupPhase::OpeningFile { file };
            SetupAction::OpenFile { entry: self.picked[file] }
        } else {
            self.phase = SetupPhase::CreatingEpoll;
            SetupAction::CreateEpoll
        }
    }

    fn watch_from<X>(&mut self, file: usize) -> (action: SetupAction<X>)
        ensures
            (final(self)@, action) == watch_from::<X>(old(self)@, file as nat),
    {
        if file < self.picked.len() {
            self.phase = SetupPhase::Watching { file };
            SetupAction::Watch { file, watch: device_watch(file) }
        } else {
            self.devices_from(0)
        }
    }

    fn devices_from<X>(&mut self, file: usize) -> (action: SetupAction<X>)
        ensures
            (final(self)@, action) == devices_from::<X>(old(self)@, file as nat),
    {
        if file < self.picked.len() {
            self.phase = SetupPhase::OpeningDevice { file };
            SetupAction::OpenDevice { file }
        } else {
            self.outputs_from(0)
        }
    }

    fn outputs_from<X>(&mut self, device: usize) -> (action: SetupAction<X>)
        ensures
            (final(self)@, action) == outputs_from::<X>(old(self)@, device as nat),
    {
        if device < self.picked.len() {
            self.phase = SetupPhase::CreatingOutput { device };
            SetupAction::CreateOutput { device }
        } else {
            self.phase = SetupPhase::Finished;
            SetupAction::Return(Ok(self.picked.len()))
        }
    }
}

/// Sets the devices up: opens the input devices of the device directory, watches each for data to
/// read, and creates an output for each that is a copy of it.
///
/// One call takes what came of the last action and gives the next.
pub fn setup_devices<X>(setup: &mut DeviceSetup, reply: SetupReply<X>) -> (action: SetupAction<X>)
    requires
        old(setup)@.inv(),
        setup_fits(old(setup)@, reply),
    ensures
        final(setup)@.inv(),
        (final(setup)@, action) == setup_next(old(setup)@, reply),
{
    match (setup.phase, reply) {
        (_, SetupReply::Failed(error)) => {
            setup.phase = SetupPhase::Finished;
            SetupAction::Return(Err(error))
        },
        (_, SetupReply::Listed(entries)) => {
            setup.picked = get_device_files(&entries);
            assert(setup.picked.len() <= usize::MAX);
            setup.open_from(0)
        },
        (SetupPhase::OpeningFile { file }, _) => setup.open_from(file + 1),
        (SetupPhase::CreatingEpoll, _) => setup.watch_from(0),
        (SetupPhase::Watching { file }, _) => setup.watch_from(file + 1),
        (SetupPhase::OpeningDevice { file }, _) => setup.devices_from(file + 1),
        (SetupPhase::CreatingOutput { device }, _) => setup.outputs_from(device + 1),
        _ => SetupAction::CreateEpoll,
    }
}

/// The state that a setting up reaches from `s` by a run of replies.
pub open spec fn setup_run<X>(s: SetupState, replies: Seq<SetupReply<X>>) -> SetupState
    decreases replies.len(),
{
    if replies.len() == 0 {
        s
    } else {
        setup_next(setup_run(s, replies.drop_last()), replies.last()).0
    }
}

/// What a setting up does in answer to each of a run of replies.
pub open spec fn setup_actions<X>(s: SetupState, replies: Seq<SetupReply<X>>) -> Seq<SetupAction<X>>
    decreases replies.len(),
{
    if replies.len() == 0 {
        seq![]
    } else {
        setup_actions(s, replies.drop_last()).push(
            setup_next(setup_run(s, replies.drop_last()), replies.last()).1,
        )
    }
}

/// Whether every reply of a run fits the action that it answers.
pub open spec fn setup_all_fit<X>(s: SetupState, replies: Seq<SetupReply<X>>) -> bool
    decreases replies.len(),
{
    replies.len() > 0 ==> {
        &&& setup_all_fit(s, replies.drop_last())
        &&& setup_fits(setup_run(s, replies.drop_last()), replies.last())
    }
}

/// What a setting up without a failure does in answer to its replies, one after the other: each
/// picked file is opened, the epoll instance is created, each file is watched under its position,
/// a device is made of each, and an output is created for each device.
pub open spec fn setup_deed<X>(picked: Seq<usize>, at: int) -> SetupAction<X> {
    let count = picked.len();
    if at < count {
        SetupAction::OpenFile { entry: picked[at] }
    } else if at == count {
        SetupAction::CreateEpoll
    } else if at <= 2 * count {
        let file = (at - count - 1) as usize;
        SetupAction::Watch { file, watch: EpollEvent { events: 1, data: file as u64 } }
    } else if at <= 3 * count {
        SetupAction::OpenDevice { file: (at - 2 * count - 1) as usize }
    } else if at <= 4 * count {
        SetupAction::CreateOutput { device: (at - 3 * count - 1) as usize }
    } else {
        SetupAction::Return(Ok(count as usize))
    }
}

/// The phase that a setting up without a failure is in after those deeds.
spec fn setup_phase(picked: Seq<usize>, at: int) -> SetupPhase {
    let count = picked.len();
    if at < count {
        SetupPhase::OpeningFile { file: at as usize }
    } else if at == count {
        SetupPhase::CreatingEpoll
    } else if at <= 2 * count {
        SetupPhase::Watching { file: (at - count - 1) as usize }
    } else if at <= 3 * count {
        SetupPhase::OpeningDevice { file: (at - 2 * count - 1) as usize }
    } else if at <= 4 * count {
        SetupPhase::CreatingOutput { device: (at - 3 * count - 1) as usize }
    } else {
        SetupPhase::Finished
    }
}

proof fn lemma_setup_deeds<X>(entries: Vec<DeviceEntry>, replies: Seq<SetupReply<X>>)
    requires
        replies.len() > 0,
        replies[0] == SetupReply::<X>::Listed(entries),
        forall|i: int| 0 < i < replies.len() ==> #[trigger] replies[i] is Done,
        setup_all_fit(initial_setup(), replies),
    ensures
        replies.len() <= 4 * input_devices(entries@).len() + 2,
        setup_run(initial_setup(), replies) == (SetupState {
            phase: setup_phase(input_devices(entries@), replies.len() - 1),
            picked: input_devices(entries@),
        }),
        setup_actions(initial_setup(), replies).len() == replies.len(),
        forall|k: int|
            0 <= k < replies.len() ==> #[trigger] setup_actions(initial_setup(), replies)[k]
                == setup_deed::<X>(input_devices(entries@), k),
    decreases replies.len(),
{
    let before = replies.drop_last();
    let done = setup_actions(initial_setup(), replies);
    assert(entries.len() <= usize::MAX);
    law_selection_is_exact(entries@);
    if before.len() > 0 {
        assert(before[0] == replies[0]);
        assert forall|i: int| 0 < i < before.len() implies #[trigger] before[i] is Done by {
            assert(before[i] == replies[i]);
        }
        lemma_setup_deeds(entries, before);
        assert(replies[replies.len() - 1] is Done);
        assert forall|k: int| 0 <= k < replies.len() implies #[trigger] done[k] == setup_deed::<X>(
            input_devices(entries@),
            k,
        ) by {
            if k < before.len() {
                assert(done[k] == setup_actions(initial_setup(), before)[k]);
            }
        }
    } else {
        assert(before =~= seq![]);
        assert(setup_run(initial_setup(), before) == initial_setup());
        assert(setup_actions(initial_setup(), before).len() == 0);
    }
}

/// What setting the devices up does as a whole, as long as nothing fails: `setup_deed` says what
/// it answers to each reply. So it ends, if at all, with as many outputs as devices, and there is
/// one device for each input device of the directory.
pub proof fn law_setup_deeds<X>(entries: Vec<DeviceEntry>, replies: Seq<SetupReply<X>>)
    requires
        replies.len() > 0,
        replies[0] == SetupReply::<X>::Listed(entries),
        forall|i: int| 0 < i < replies.len() ==> #[trigger] replies[i] is Done,
        setup_all_fit(initial_setup(), replies),
    ensures
        replies.len() <= 4 * input_devices(entries@).len() + 2,
        setup_actions(initial_setup(), replies).len() == replies.len(),
        forall|k: int|
            0 <= k < replies.len() ==> #[trigger] setup_actions(initial_setup(), replies)[k]
                == setup_deed::<X>(input_devices(entries@), k),
{
    lemma_setup_deeds(entries, replies);
}

/// When the setting up returns without an error, there is an output for every device, and none
/// besides: device and output of every position below the number that is returned were opened,
/// and no others.
pub proof fn law_every_device_has_an_output<X>(
    entries: Vec<DeviceEntry>,
    replies: Seq<SetupReply<X>>,
    devices: usize,
    position: usize,
)
    requires
        replies.len() > 0,
        replies[0] == SetupReply::<X>::Listed(entries),
        forall|i: int| 0 < i < replies.len() ==> #[trigger] replies[i] is Done,
        setup_all_fit(initial_setup(), replies),
        setup_actions(initial_setup(), replies).last() == SetupAction::<X>::Return(Ok(devices)),
    ensures
        ({
            let done = setup_actions(initial_setup(), replies);
            &&& devices == input_devices(entries@).len()
            &&& done.contains(SetupAction::OpenDevice { file: position }) <==> position < devices
            &&& done.contains(SetupAction::CreateOutput { device: position }) <==> position
                < devices
            &&& done.contains(
                SetupAction::Watch { file: position, watch: watch_of_device(position) },
            ) <==> position < devices
        }),
{
    lemma_setup_deeds(entries, replies);
    assert(entries.len() <= usize::MAX);
    law_selection_is_exact(entries@);
    let done = setup_actions(initial_setup(), replies);
    let count = input_devices(entries@).len();
    assert(done[replies.len() - 1] == setup_deed::<X>(
        input_devices(entries@),
        replies.len() - 1,
    ));
    assert(replies.len() == 4 * count + 2);
    if position < devices {
        assert(done[count + 1 + position] == (SetupAction::<X>::Watch {
            file: position,
            watch: watch_of_device(position),
        }));
        assert(done[2 * count + 1 + position] == (SetupAction::<X>::OpenDevice { file: position }));
        assert(done[3 * count + 1 + position] == (SetupAction::<X>::CreateOutput {
            device: position,
        }));
    }
}

/// Every file is watched for data to read, under a number that leads back to its device and is
/// not taken for the device directory.
pub proof fn law_every_watch_leads_back<X>(s: SetupState, reply: SetupReply<X>)
    requires
        s.inv(),
        setup_fits(s, reply),
    ensures
        setup_next(s, reply).1 matches SetupAction::Watch { file, watch } ==> {
            &&& watch == watch_of_device(file)
            &&& source_of(watch.data) == Source::Device(file)
        },
{
}

/// A failure ends the setting up with the error that caused it, whatever was being done.
pub proof fn law_setup_failures<X>(s: SetupState, error: X)
    ensures
        setup_next(s, SetupReply::Failed(error)) == (
            s.at(SetupPhase::Finished),
            SetupAction::<X>::Return(Err(error)),
        ),
{
}

proof fn lemma_setup_phases<X>(replies: Seq<SetupReply<X>>)
    requires
        setup_all_fit(initial_setup(), replies),
    ensures
        ({
            let s = setup_run(initial_setup(), replies);
            let done = setup_actions(initial_setup(), replies);
            &&& done.len() == replies.len()
            &&& s.phase is Listing <==> replies.len() == 0
            &&& s.phase is Finished <==> replies.len() > 0 && done.last() is Return
        }),
    decreases replies.len(),
{
    if replies.len() > 0 {
        lemma_setup_phases(replies.drop_last());
    }
}

/// Listing can succeed with any entries or fail, and whatever is asked for after it can succeed
/// or fail, until the setting up returns.
pub proof fn law_setup_accepts_every_outcome<X>(replies: Seq<SetupReply<X>>, reply: SetupReply<X>)
    requires
        setup_all_fit(initial_setup(), replies),
    ensures
        replies.len() == 0 ==> (setup_fits(setup_run(initial_setup(), replies), reply)
            <==> reply is Listed || reply is Failed),
        replies.len() > 0 && !(setup_actions(initial_setup(), replies).last() is Return) ==> (
        setup_fits(setup_run(initial_setup(), replies), reply) <==> reply is Done
            || reply is Failed),
{
    lemma_setup_phases(replies);
}

} // verus!
