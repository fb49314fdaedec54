use rdev::linux::devices::{get_device_files, is_skipped_file_name, DeviceEntry, DEV_PATH};
use rdev::linux::watch::{
    device_watch, empty_watch, is_creation, setup_inotify, source, DirectoryWatch, EpollEvent,
    Source, TooManyDevices, EPOLLIN, INOTIFY_DATA, IN_CREATE,
};

fn entry(is_char_device: bool, name: &str) -> DeviceEntry {
    DeviceEntry { is_char_device, file_name: Some(name.as_bytes().to_vec()) }
}

#[test]
fn mice_joysticks_and_mouse_files_are_skipped() {
    assert!(is_skipped_file_name(b"mice"));
    assert!(is_skipped_file_name(b"js"));
    assert!(is_skipped_file_name(b"js0"));
    assert!(is_skipped_file_name(b"mouse"));
    assert!(is_skipped_file_name(b"mouse12"));
}

#[test]
fn other_names_are_not_skipped() {
    assert!(!is_skipped_file_name(b""));
    assert!(!is_skipped_file_name(b"j"));
    assert!(!is_skipped_file_name(b"mic"));
    assert!(!is_skipped_file_name(b"mice2"));
    assert!(!is_skipped_file_name(b"mous"));
    assert!(!is_skipped_file_name(b"event0"));
    assert!(!is_skipped_file_name(b"xjs"));
}

#[test]
fn input_devices_are_picked_in_order() {
    assert_eq!(DEV_PATH, "/dev/input");
    let entries = vec![
        entry(true, "event3"),
        entry(false, "by-id"),
        entry(true, "mice"),
        entry(true, "event0"),
        entry(true, "js1"),
        DeviceEntry { is_char_device: true, file_name: None },
        entry(true, "mouse0"),
        entry(true, "event1"),
    ];
    assert_eq!(get_device_files(&entries), vec![0, 3, 7]);
    assert_eq!(get_device_files(&Vec::new()), Vec::<usize>::new());
}

#[test]
fn watches_have_the_numbers_of_the_system() {
    assert_eq!(EPOLLIN, epoll::Events::EPOLLIN.bits());
    assert_eq!(IN_CREATE, inotify::EventMask::CREATE.bits());
    assert_eq!(IN_CREATE, inotify::WatchMask::CREATE.bits());
}

#[test]
fn watches_lead_back_to_their_devices() {
    assert_eq!(device_watch(0), EpollEvent { events: 1, data: 0 });
    assert_eq!(device_watch(5), EpollEvent { events: 1, data: 5 });
    assert_eq!(source(device_watch(5).data), Source::Device(5));
    assert_ne!(device_watch(5), device_watch(6));
    assert_eq!(empty_watch(), EpollEvent { events: 0, data: 0 });
}

#[test]
fn the_directory_has_a_number_of_its_own() {
    let watch = setup_inotify(3).unwrap();
    let event = EpollEvent { events: 1, data: u64::MAX };
    assert_eq!(watch, DirectoryWatch { path: "/dev/input", mask: 0x100, event });
    assert_eq!(watch.event.data, INOTIFY_DATA);
    assert_eq!(source(watch.event.data), Source::Directory);
    assert_ne!(device_watch(2).data, watch.event.data);
    assert!(is_creation(watch.mask));
}

#[test]
fn too_many_devices_are_refused() {
    if usize::BITS == 64 {
        assert_eq!(setup_inotify(usize::MAX), Err(TooManyDevices));
        assert!(setup_inotify(usize::MAX - 1).is_ok());
    }
    assert_eq!(TooManyDevices.message(), "too many device files!");
}

#[test]
fn creations_are_told_from_other_events() {
    assert!(is_creation(0x100));
    assert!(is_creation(0x100 | 0x4000_0000));
    assert!(is_creation(u32::MAX));
    assert!(!is_creation(0));
    assert!(!is_creation(1));
    assert!(!is_creation(0x200));
    assert!(is_creation(inotify::EventMask::CREATE.bits()));
    assert!(!is_creation(inotify::EventMask::DELETE.bits()));
}
