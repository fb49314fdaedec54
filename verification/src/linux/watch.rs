use crate::linux::devices::DEV_PATH;
use vstd::prelude::*;

verus! {

/// The number under which new device files are announced. Every other number is the
/// position of a device.
pub const INOTIFY_DATA: u64 = 0xffff_ffff_ffff_ffff;

/// Watch for data that can be read.
pub const EPOLLIN: u32 = 0x1;

/// Watch for nothing.
pub const NO_EVENTS: u32 = 0;

/// Marks the creation of a file in a watched directory.
pub const IN_CREATE: u32 = 0x100;

/// What is watched for on a file, and the number under which it is reported.
#[derive(Clone, Copy, Debug, PartialEq, Eq, Structural)]
pub struct EpollEvent {
    pub events: u32,
    pub data: u64,
}

/// Makes an event by `epoll::Event::new`, from bits that `epoll::Events::from_bits_retain`
/// takes as they are. The event holds the given bits and the given number.
#[verifier::external_body]
fn new_epoll_event(events: u32, data: u64) -> (event: EpollEvent)
    ensures
        event == (EpollEvent { events, data }),
{
    let event = epoll::Event::new(epoll::Events::from_bits_retain(events), data);
    EpollEvent { events: event.events, data: event.data }
}

/// Tests a mask by `inotify::EventMask::contains`, for `EventMask::CREATE`. True exactly if
/// the mask has that bit: `EventMask::from_bits_truncate` drops only bits that have no name,
/// and that one has.
#[verifier::external_body]
fn event_mask_contains_create(mask: u32) -> (yes: bool)
    ensures
        yes == (mask & IN_CREATE == IN_CREATE),
{
    inotify::EventMask::from_bits_truncate(mask).contains(inotify::EventMask::CREATE)
}

/// Whether an event of the device directory announces a new file.
pub open spec fn announces_file(mask: u32) -> bool {
    mask & IN_CREATE == IN_CREATE
}

/// Whether an event of the device directory announces a new file.
pub fn is_creation(mask: u32) -> (yes: bool)
    ensures
        yes == announces_file(mask),
{
    event_mask_contains_create(mask)
}

/// How the device at a position is watched: for data to read, under its position.
pub open spec fn watch_of_device(device: usize) -> EpollEvent {
    EpollEvent { events: EPOLLIN, data: device as u64 }
}

/// How the device directory is watched: for data to read, under a number of its own.
pub open spec fn watch_of_directory() -> EpollEvent {
    EpollEvent { events: EPOLLIN, data: INOTIFY_DATA }
}

/// The event that goes with the end of a watch: it asks for nothing.
pub open spec fn watch_of_nothing() -> EpollEvent {
    EpollEvent { events: NO_EVENTS, data: 0 }
}

/// Makes the event by which the device at a position is watched.
pub fn device_watch(device: usize) -> (event: EpollEvent)
    ensures
        event == watch_of_device(device),
{
    new_epoll_event(EPOLLIN, device as u64)
}

/// Makes the event that is passed when a file is no longer watched.
pub fn empty_watch() -> (event: EpollEvent)
    ensures
        event == watch_of_nothing(),
{
    new_epoll_event(NO_EVENTS, 0)
}

/// Where a reported number comes from.
#[derive(Clone, Copy, Debug, PartialEq, Eq, Structural)]
pub enum Source {
    /// The device directory: device files were created.
    Directory,
    /// The device at a position.
    Device(usize),
}

/// Where a reported number comes from.
pub open spec fn source_of(data: u64) -> Source {
    if data == INOTIFY_DATA {
        Source::Directory
    } else {
        Source::Device(data as usize)
    }
}

/// Tells where a reported number comes from.
pub fn source(data: u64) -> (source: Source)
    ensures
        source == source_of(data),
{
    if data == INOTIFY_DATA {
        Source::Directory
    } else {
        Source::Device(data as usize)
    }
}

/// How new devices are watched for: what kind of events of which directory, and how those are
/// reported.
#[derive(Clone, Copy, Debug, PartialEq, Eq)]
pub struct DirectoryWatch {
    pub path: &'static str,
    pub mask: u32,
    pub event: EpollEvent,
}

/// New devices are watched for by the creation of files in the device directory.
pub open spec fn directory_watch() -> DirectoryWatch {
    DirectoryWatch { path: DEV_PATH, mask: IN_CREATE, event: watch_of_directory() }
}

/// There are so many devices that the number of the device directory would be that of a
/// device too.
#[derive(Clone, Copy, Debug, PartialEq, Eq, Structural)]
pub struct TooManyDevices;

impl TooManyDevices {
    /// The error in words.
    pub fn message(&self) -> (text: String)
        ensures
            text@ == "too many device files!"@,
    {
        "too many device files!".to_string()
    }
}

/// Says how the device directory is watched, beside the given number of devices. Fails if no
/// number is left for the directory.
pub fn setup_inotify(devices: usize) -> (watch: Result<DirectoryWatch, TooManyDevices>)
    ensures
        watch == (if devices >= INOTIFY_DATA {
            Err(TooManyDevices)
        } else {
            Ok(directory_watch())
        }),
{
    // Leave room for the directory behind the last device.
    if devices as u64 >= INOTIFY_DATA {
        return Err(TooManyDevices);
    }
    Ok(
        DirectoryWatch {
            path: DEV_PATH,
            mask: IN_CREATE,
            event: new_epoll_event(EPOLLIN, INOTIFY_DATA),
        },
    )
}

/// The numbers of the system. A device is watched for data to read, which is the lowest bit, under
/// its position; the directory in the same way under the highest number there is; and what goes
/// with the end of a watch is all zeros.
pub proof fn law_numbers_of_the_watches(device: usize)
    ensures
        watch_of_device(device).events == 1,
        watch_of_device(device).data == device,
        directory_watch().event.events == 1,
        directory_watch().event.data == u64::MAX,
        directory_watch().mask == 0x100,
        directory_watch().path@ == "/dev/input"@,
        watch_of_nothing().events == 0,
        watch_of_nothing().data == 0,
{
}

/// The highest number stands for the directory, and every other that can be a position for the
/// device at that position.
pub proof fn law_numbers_lead_to_sources(data: u64)
    ensures
        source_of(data) is Directory <==> data == u64::MAX,
        data < u64::MAX && data <= usize::MAX ==> (source_of(data) matches Source::Device(device)
            && device == data),
        data < u64::MAX ==> source_of(data) == Source::Device(data as usize),
{
}

/// A new file is announced exactly by the masks that are odd when divided by 256.
pub proof fn law_announcing_masks(mask: u32)
    ensures
        announces_file(mask) <==> (mask / 256) % 2 == 1,
{
    assert(mask & 0x100 == 0x100 <==> (mask / 256) % 2 == 1) by (bit_vector);
}

/// What is reported of a watched device leads back to that device, and is never taken for
/// the device directory, whenever the number of devices is one that `setup_inotify`
/// accepts.
pub proof fn law_device_watches_lead_back(devices: usize, device: usize)
    requires
        devices < INOTIFY_DATA,
        device < devices,
    ensures
        source_of(watch_of_device(device).data) == Source::Device(device),
        watch_of_device(device).data != watch_of_directory().data,
{
}

/// What is reported of the device directory leads back to it, and the kind of event that is
/// watched for there is one that announces a file.
pub proof fn law_directory_watch_leads_back()
    ensures
        source_of(directory_watch().event.data) == Source::Directory,
        announces_file(directory_watch().mask),
{
    assert(0x100u32 & 0x100u32 == 0x100u32) by (bit_vector);
}

/// No two devices are reported alike.
pub proof fn law_device_watches_differ(device: usize, other: usize)
    requires
        device != other,
    ensures
        watch_of_device(device) != watch_of_device(other),
{
}

} // verus!
