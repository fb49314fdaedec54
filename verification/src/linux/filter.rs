use crate::linux::watch::{
    announces_file, device_watch, directory_watch, empty_watch, is_creation, setup_inotify, source,
    source_of, watch_of_device, watch_of_nothing, DirectoryWatch, EpollEvent, Source, INOTIFY_DATA,
};
use vstd::prelude::*;

verus! {

/// Whether to continue grabbing events or to stop.
#[derive(Clone, Copy, Debug, PartialEq, Eq, Hash, Structural)]
pub enum GrabStatus {
    /// Go on grabbing.
    Continue,
    /// Ungrab the devices and end.
    Stop,
}

/// Why the loop over the events ended early.
#[derive(Debug, PartialEq)]
pub enum FilterError<X> {
    /// An operation of the system failed.
    Io(X),
    /// There are too many devices to tell them from the device directory.
    TooManyDevices,
}

/// What the loop cannot go on from.
#[derive(Clone, Copy, Debug, PartialEq, Eq, Structural)]
pub enum Fault {
    /// A device was reported that is not among the devices.
    UnknownDevice { device: usize },
    /// The device directory reported something else than a new file.
    NotACreation,
}

/// The next thing to be done. Devices are named by their position.
#[derive(Debug, PartialEq)]
#[allow(inconsistent_fields)]
pub enum Action<E, X> {
    /// Set the devices up, with an output for each.
    SetupDevices,
    /// Watch a directory for files that are created in it.
    SetupInotify { watch: DirectoryWatch },
    /// Grab a device.
    Grab { device: usize },
    /// Wait until something watched has data to read.
    Wait,
    /// Read what happened in the device directory.
    ReadDirectory,
    /// Open the device file that an event of the last reading of the directory announced,
    /// by the event's position in that reading; put the device behind the others and watch
    /// it.
    AddDevice { announced: usize, watch: EpollEvent },
    /// Ask whether a device has an event pending.
    HasPending { device: usize },
    /// Read the next event of a device.
    ReadEvent { device: usize },
    /// Watch a device no longer.
    Unwatch { device: usize, watch: EpollEvent },
    /// Give an event to the filter.
    Filter { event: E },
    /// Write an event to the output of a device.
    Write { device: usize, event: E },
    /// Ungrab a device.
    Ungrab { device: usize },
    /// Close the watch.
    Close,
    /// Return to the caller.
    Return(Result<(), FilterError<X>>),
    /// Give up.
    Abort(Fault),
}

/// What came of an action.
#[derive(Debug)]
pub enum Reply<E, X> {
    /// So many devices, and so many outputs, were opened.
    Opened { devices: usize, outputs: usize },
    /// The action succeeded.
    Done,
    /// The action failed.
    Failed(X),
    /// The numbers under which data to read was reported.
    Ready(Vec<u64>),
    /// The masks of the events of the device directory.
    Announced(Vec<u32>),
    /// Whether an event is pending.
    Pending(bool),
    /// The event that was read.
    Event(E),
    /// What the filter made of the event, and whether to go on.
    Filtered(Option<E>, GrabStatus),
}

/// What the loop is waiting for.
#[derive(Clone, Copy, Debug, PartialEq, Eq, Structural)]
pub enum Phase {
    SettingUpDevices,
    SettingUpInotify,
    Grabbing { device: usize },
    Waiting,
    ReadingDirectory,
    AddingDevice,
    Polling { device: usize },
    Reading { device: usize },
    Unwatching,
    Filtering { device: usize },
    Writing { device: usize, status: GrabStatus },
    Ungrabbing { device: usize },
    Closing,
    Finished,
}

/// The state of the loop.
#[verifier::ext_equal]
pub struct FilterState {
    pub phase: Phase,
    /// How many devices there are.
    pub devices: nat,
    /// How many of them, from the first on, have an output.
    pub outputs: nat,
    /// The reported numbers that are still to be seen to.
    pub ready: Seq<u64>,
    /// The masks of the last reading of the directory.
    pub announced: Seq<u32>,
    /// How many of those have been seen to.
    pub added: nat,
}

impl FilterState {
    /// The same state, waiting for something else.
    pub open spec fn at(self, phase: Phase) -> FilterState {
        FilterState { phase, ..self }
    }

    /// What every state of the loop keeps: a position that it holds is that of a device, no
    /// device has the number of the device directory, and no output lacks a device.
    pub open spec fn inv(self) -> bool {
        &&& self.devices < INOTIFY_DATA
        &&& self.outputs <= self.devices
        &&& self.devices <= usize::MAX
        &&& self.added <= self.announced.len()
        &&& match self.phase {
            Phase::Grabbing { device } => device < self.devices,
            Phase::Polling { device } => device < self.devices,
            Phase::Reading { device } => device < self.devices,
            Phase::Filtering { device } => device < self.devices,
            Phase::Writing { device, status: _ } => device < self.devices && device < self.outputs,
            Phase::Ungrabbing { device } => device < self.devices,
            Phase::AddingDevice => self.added < self.announced.len() && announces_file(
                self.announced[self.added as int],
            ),
            _ => true,
        }
    }
}

/// The state before anything has been done.
pub open spec fn initial_state() -> FilterState {
    FilterState {
        phase: Phase::SettingUpDevices,
        devices: 0,
        outputs: 0,
        ready: seq![],
        announced: seq![],
        added: 0,
    }
}

/// Which replies the action that a state waits for can have.
pub open spec fn fits<E, X>(s: FilterState, reply: Reply<E, X>) -> bool {
    match s.phase {
        // Every device is set up with an output of its own.
        Phase::SettingUpDevices => reply is Failed || (reply matches Reply::Opened {
            devices,
            outputs,
        } && outputs == devices),
        Phase::SettingUpInotify => reply is Done || reply is Failed,
        Phase::Grabbing { .. } => reply is Done || reply is Failed,
        Phase::Waiting => reply is Ready || reply is Failed,
        Phase::ReadingDirectory => reply is Announced || reply is Failed,
        // The list of devices cannot outgrow the machine.
        Phase::AddingDevice => reply is Failed || (reply is Done && s.devices + 1 < usize::MAX),
        Phase::Polling { .. } => reply is Pending,
        Phase::Reading { .. } => reply is Event || reply is Failed,
        Phase::Unwatching => reply is Done || reply is Failed,
        Phase::Filtering { .. } => reply is Filtered,
        Phase::Writing { .. } => reply is Done || reply is Failed,
        Phase::Ungrabbing { .. } => reply is Done || reply is Failed,
        Phase::Closing => reply is Done || reply is Failed,
        Phase::Finished => false,
    }
}

/// Grabs the devices from a position on, then waits.
pub open spec fn grab_from<E, X>(s: FilterState, device: nat) -> (FilterState, Action<E, X>) {
    if device < s.devices {
        let device = device as usize;
        (s.at(Phase::Grabbing { device }), Action::Grab { device })
    } else {
        (s.at(Phase::Waiting), Action::Wait)
    }
}

/// Ungrabs the devices from a position on, then closes the watch.
pub open spec fn ungrab_from<E, X>(s: FilterState, device: nat) -> (FilterState, Action<E, X>) {
    if device < s.devices {
        let device = device as usize;
        (s.at(Phase::Ungrabbing { device }), Action::Ungrab { device })
    } else {
        (s.at(Phase::Closing), Action::Close)
    }
}

/// Sees to the next reported number, or waits again if none is left.
pub open spec fn next_ready<E, X>(s: FilterState) -> (FilterState, Action<E, X>) {
    if s.ready.len() == 0 {
        (s.at(Phase::Waiting), Action::Wait)
    } else {
        let rest = FilterState { ready: s.ready.drop_first(), ..s };
        match source_of(s.ready[0]) {
            Source::Directory => (rest.at(Phase::ReadingDirectory), Action::ReadDirectory),
            Source::Device(device) => if device < s.devices {
                (rest.at(Phase::Polling { device }), Action::HasPending { device })
            } else {
                (rest.at(Phase::Finished), Action::Abort(Fault::UnknownDevice { device }))
            },
        }
    }
}

/// Sees to the next event of the directory, or to the next reported number if none is left.
pub open spec fn next_announced<E, X>(s: FilterState) -> (FilterState, Action<E, X>) {
    if s.added >= s.announced.len() {
        next_ready(s)
    } else if announces_file(s.announced[s.added as int]) {
        (
            s.at(Phase::AddingDevice),
            Action::AddDevice {
                announced: s.added as usize,
                watch: watch_of_device(s.devices as usize),
            },
        )
    } else {
        (s.at(Phase::Finished), Action::Abort(Fault::NotACreation))
    }
}

/// Goes on with a device after an event of it, or ends the loop if it is to stop.
pub open spec fn after_event<E, X>(s: FilterState, device: usize, status: GrabStatus) -> (
    FilterState,
    Action<E, X>,
) {
    match status {
        GrabStatus::Stop => ungrab_from(s, 0),
        GrabStatus::Continue => (
            s.at(Phase::Polling { device }),
            Action::HasPending { device },
        ),
    }
}

/// Ends the loop.
pub open spec fn finish<E, X>(s: FilterState, result: Result<(), FilterError<X>>) -> (
    FilterState,
    Action<E, X>,
) {
    (s.at(Phase::Finished), Action::Return(result))
}

/// What the loop does with a reply: the state that it goes to and what it does next.
pub open spec fn next<E, X>(s: FilterState, reply: Reply<E, X>) -> (FilterState, Action<E, X>) {
    match (s.phase, reply) {
        // A device that cannot be read is dropped; one that cannot be ungrabbed is passed
        // over. Any other failure ends the loop.
        (Phase::Reading { device }, Reply::Failed(_)) => (
            s.at(Phase::Unwatching),
            Action::Unwatch { device, watch: watch_of_nothing() },
        ),
        (Phase::Ungrabbing { device }, _) => ungrab_from(s, device as nat + 1),
        (_, Reply::Failed(error)) => finish(s, Err(FilterError::Io(error))),
        (Phase::SettingUpDevices, Reply::Opened { devices, outputs }) => if devices
            >= INOTIFY_DATA {
            finish(s, Err(FilterError::TooManyDevices))
        } else {
            (
                FilterState {
                    phase: Phase::SettingUpInotify,
                    devices: devices as nat,
                    outputs: outputs as nat,
                    ..s
                },
                Action::SetupInotify { watch: directory_watch() },
            )
        },
        (Phase::SettingUpInotify, _) => grab_from(s, 0),
        (Phase::Grabbing { device }, _) => grab_from(s, device as nat + 1),
        (Phase::Waiting, Reply::Ready(ready)) => next_ready(FilterState { ready: ready@, ..s }),
        (Phase::ReadingDirectory, Reply::Announced(masks)) => next_announced(
            FilterState { announced: masks@, added: 0, ..s },
        ),
        (Phase::AddingDevice, _) => next_announced(
            FilterState { devices: s.devices + 1, added: s.added + 1, ..s },
        ),
        (Phase::Polling { device }, Reply::Pending(pending)) => if pending {
            (s.at(Phase::Reading { device }), Action::ReadEvent { device })
        } else {
            next_ready(s)
        },
        (Phase::Reading { device }, Reply::Event(event)) => (
            s.at(Phase::Filtering { device }),
            Action::Filter { event },
        ),
        (Phase::Unwatching, _) => next_ready(s),
        (Phase::Filtering { device }, Reply::Filtered(event, status)) => match event {
            Some(event) if device < s.outputs => (
                s.at(Phase::Writing { device, status }),
                Action::Write { device, event },
            ),
            _ => after_event(s, device, status),
        },
        (Phase::Writing { device, status }, _) => after_event(s, device, status),
        (Phase::Closing, _) => finish(s, Ok(())),
        // No other reply fits.
        _ => (s, Action::Wait),
    }
}

/// The loop over the events of the grabbed devices.
///
/// It says what to do next; whoever runs it does that and tells what came of it.
#[derive(Debug)]
pub struct FilterLoop {
    phase: Phase,
    devices: usize,
    outputs: usize,
    ready: Vec<u64>,
    seen: usize,
    announced: Vec<u32>,
    added: usize,
}

impl View for FilterLoop {
    type V = FilterState;

    closed spec fn view(&self) -> FilterState {
        FilterState {
            phase: self.phase,
            devices: self.devices as nat,
            outputs: self.outputs as nat,
            ready: self.ready@.skip(self.seen as int),
            announced: self.announced@,
            added: self.added as nat,
        }
    }
}

impl FilterLoop {
    /// What every loop keeps.
    pub closed spec fn wf(&self) -> bool {
        &&& self.seen <= self.ready@.len()
        &&& self@.inv()
    }

    /// A loop that keeps what it should is in a valid state.
    pub proof fn lemma_wf_is_valid(&self)
        requires
            self.wf(),
        ensures
            self@.inv(),
    {
    }

    /// Begins a loop, with the setting up of the devices.
    pub fn begin<E, X>() -> (begun: (FilterLoop, Action<E, X>))
        ensures
            begun.0.wf(),
            begun.0@.inv(),
            begun.0@ == initial_state(),
            begun.1 == Action::<E, X>::SetupDevices,
    {
        let filter = FilterLoop {
            phase: Phase::SettingUpDevices,
            devices: 0,
            outputs: 0,
            ready: Vec::new(),
            seen: 0,
            announced: Vec::new(),
            added: 0,
        };
        assert(filter@ =~= initial_state());
        (filter, Action::SetupDevices)
    }

    fn grab_from<E, X>(&mut self, device: usize) -> (action: Action<E, X>)
        requires
            old(self).seen <= old(self).ready@.len(),
        ensures
            final(self).seen <= final(self).ready@.len(),
            (final(self)@, action) == grab_from::<E, X>(old(self)@, device as nat),
    {
        if device < self.devices {
            self.phase = Phase::Grabbing { device };
            Action::Grab { device }
        } else {
            self.phase = Phase::Waiting;
            Action::Wait
        }
    }

    fn ungrab_from<E, X>(&mut self, device: usize) -> (action: Action<E, X>)
        requires
            old(self).seen <= old(self).ready@.len(),
        ensures
            final(self).seen <= final(self).ready@.len(),
            (final(self)@, action) == ungrab_from::<E, X>(old(self)@, device as nat),
    {
        if device < self.devices {
            self.phase = Phase::Ungrabbing { device };
            Action::Ungrab { device }
        } else {
            self.phase = Phase::Closing;
            Action::Close
        }
    }

    fn next_ready<E, X>(&mut self) -> (action: Action<E, X>)
        requires
            old(self).seen <= old(self).ready@.len(),
        ensures
            final(self).seen <= final(self).ready@.len(),
            (final(self)@, action) == next_ready::<E, X>(old(self)@),
    {
        if self.seen >= self.ready.len() {
            self.phase = Phase::Waiting;
            return Action::Wait;
        }
        let data = self.ready[self.seen];
        self.seen = self.seen + 1;
        assert(self@.ready =~= old(self)@.ready.drop_first());
        match source(data) {
            Source::Directory => {
                self.phase = Phase::ReadingDirectory;
                Action::ReadDirectory
            },
            Source::Device(device) => {
                if device < self.devices {
                    self.phase = Phase::Polling { device };
                    Action::HasPending { device }
                } else {
                    self.phase = Phase::Finished;
                    Action::Abort(Fault::UnknownDevice { device })
                }
            },
        }
    }

    fn next_announced<E, X>(&mut self) -> (action: Action<E, X>)
        requires
            old(self).seen <= old(self).ready@.len(),
        ensures
            final(self).seen <= final(self).ready@.len(),
            (final(self)@, action) == next_announced::<E, X>(old(self)@),
    {
        if self.added >= self.announced.len() {
            return self.next_ready();
        }
        if is_creation(self.announced[self.added]) {
            self.phase = Phase::AddingDevice;
            Action::AddDevice { announced: self.added, watch: device_watch(self.devices) }
        } else {
            self.phase = Phase::Finished;
            Action::Abort(Fault::NotACreation)
        }
    }

    fn after_event<E, X>(&mut self, device: usize, status: GrabStatus) -> (action: Action<E, X>)
        requires
            old(self).seen <= old(self).ready@.len(),
        ensures
            final(self).seen <= final(self).ready@.len(),
            (final(self)@, action) == after_event::<E, X>(old(self)@, device, status),
    {
        match status {
            GrabStatus::Stop => self.ungrab_from(0),
            GrabStatus::Continue => {
                self.phase = Phase::Polling { device };
                Action::HasPending { device }
            },
        }
    }

    fn finish<E, X>(&mut self, result: Result<(), FilterError<X>>) -> (action: Action<E, X>)
        requires
            old(self).seen <= old(self).ready@.len(),
        ensures
            final(self).seen <= final(self).ready@.len(),
            (final(self)@, action) == finish::<E, X>(old(self)@, result),
    {
        self.phase = Phase::Finished;
        Action::Return(result)
    }
}

/// Grabs the input devices, passes each of their events through a filter and writes what
/// the filter makes of it to the output of the same device, until the filter says to stop.
///
/// One call takes what came of the last action and gives the next.
pub fn filter_map_events<E, X>(filter: &mut FilterLoop, reply: Reply<E, X>) -> (action: Action<E, X>)
    requires
        old(filter).wf(),
        fits(old(filter)@, reply),
    ensures
        final(filter).wf(),
        final(filter)@.inv(),
        (final(filter)@, action) == next(old(filter)@, reply),
{
    proof {
        lemma_next_keeps_inv(filter@, reply);
    }
    match (filter.phase, reply) {
        (Phase::Reading { device }, Reply::Failed(_)) => {
            filter.phase = Phase::Unwatching;
            Action::Unwatch { device, watch: empty_watch() }
        },
        (Phase::Ungrabbing { device }, _) => filter.ungrab_from(device + 1),
        (_, Reply::Failed(error)) => filter.finish(Err(FilterError::Io(error))),
        (Phase::SettingUpDevices, Reply::Opened { devices, outputs }) => {
            match setup_inotify(devices) {
                Err(_) => filter.finish(Err(FilterError::TooManyDevices)),
                Ok(watch) => {
                    filter.devices = devices;
                    filter.outputs = outputs;
                    filter.phase = Phase::SettingUpInotify;
                    Action::SetupInotify { watch }
                },
            }
        },
        (Phase::SettingUpInotify, _) => filter.grab_from(0),
        (Phase::Grabbing { device }, _) => filter.grab_from(device + 1),
        (Phase::Waiting, Reply::Ready(ready)) => {
            filter.ready = ready;
            filter.seen = 0;
            assert(filter.ready@.skip(0) =~= ready@);
            filter.next_ready()
        },
        (Phase::ReadingDirectory, Reply::Announced(masks)) => {
            filter.announced = masks;
            filter.added = 0;
            filter.next_announced()
        },
        (Phase::AddingDevice, _) => {
            assert(filter.added < filter.announced.len());
            filter.devices = filter.devices + 1;
            filter.added = filter.added + 1;
            filter.next_announced()
        },
        (Phase::Polling { device }, Reply::Pending(pending)) => {
            if pending {
                filter.phase = Phase::Reading { device };
                Action::ReadEvent { device }
            } else {
                filter.next_ready()
            }
        },
        (Phase::Reading { device }, Reply::Event(event)) => {
            filter.phase = Phase::Filtering { device };
            Action::Filter { event }
        },
        (Phase::Unwatching, _) => filter.next_ready(),
        (Phase::Filtering { device }, Reply::Filtered(event, status)) => {
            match event {
                Some(event) if device < filter.outputs => {
                    filter.phase = Phase::Writing { device, status };
                    Action::Write { device, event }
                },
                _ => filter.after_event(device, status),
            }
        },
        (Phase::Writing { device, status }, _) => filter.after_event(device, status),
        (Phase::Closing, _) => filter.finish(Ok(())),
        _ => Action::Wait,
    }
}

proof fn lemma_next_keeps_inv<E, X>(s: FilterState, reply: Reply<E, X>)
    requires
        s.inv(),
        fits(s, reply),
    ensures
        next(s, reply).0.inv(),
{
}

} // verus!
