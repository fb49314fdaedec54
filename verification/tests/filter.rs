use rdev::linux::filter::{
    filter_map_events, Action, Fault, FilterError, FilterLoop, GrabStatus, Reply,
};
use rdev::linux::watch::{DirectoryWatch, EpollEvent};

type Act = Action<u8, i32>;

fn step(filter: &mut FilterLoop, reply: Reply<u8, i32>) -> Act {
    filter_map_events(filter, reply)
}

/// A loop that has grabbed its devices and waits.
fn waiting(devices: usize, outputs: usize) -> FilterLoop {
    let (mut filter, first) = FilterLoop::begin::<u8, i32>();
    assert_eq!(first, Act::SetupDevices);
    let event = EpollEvent { events: 1, data: u64::MAX };
    let watch = DirectoryWatch { path: "/dev/input", mask: 0x100, event };
    assert_eq!(
        step(&mut filter, Reply::Opened { devices, outputs }),
        Act::SetupInotify { watch }
    );
    for device in 0..devices {
        assert_eq!(step(&mut filter, Reply::Done), Act::Grab { device });
    }
    assert_eq!(step(&mut filter, Reply::Done), Act::Wait);
    filter
}

#[test]
fn events_are_filtered_and_written_to_their_own_output() {
    let mut f = waiting(2, 2);
    assert_eq!(step(&mut f, Reply::Ready(vec![1, 0])), Act::HasPending { device: 1 });
    assert_eq!(step(&mut f, Reply::Pending(true)), Act::ReadEvent { device: 1 });
    assert_eq!(step(&mut f, Reply::Event(7)), Act::Filter { event: 7 });
    assert_eq!(
        step(&mut f, Reply::Filtered(Some(70), GrabStatus::Continue)),
        Act::Write { device: 1, event: 70 }
    );
    assert_eq!(step(&mut f, Reply::Done), Act::HasPending { device: 1 });
    assert_eq!(step(&mut f, Reply::Pending(true)), Act::ReadEvent { device: 1 });
    assert_eq!(step(&mut f, Reply::Event(8)), Act::Filter { event: 8 });
    assert_eq!(
        step(&mut f, Reply::Filtered(None, GrabStatus::Continue)),
        Act::HasPending { device: 1 }
    );
    assert_eq!(step(&mut f, Reply::Pending(false)), Act::HasPending { device: 0 });
    assert_eq!(step(&mut f, Reply::Pending(false)), Act::Wait);
}

#[test]
fn a_stop_ungrabs_everything_and_closes() {
    let mut f = waiting(2, 2);
    step(&mut f, Reply::Ready(vec![0, 1]));
    step(&mut f, Reply::Pending(true));
    step(&mut f, Reply::Event(1));
    assert_eq!(
        step(&mut f, Reply::Filtered(None, GrabStatus::Stop)),
        Act::Ungrab { device: 0 }
    );
    assert_eq!(step(&mut f, Reply::Failed(9)), Act::Ungrab { device: 1 });
    assert_eq!(step(&mut f, Reply::Done), Act::Close);
    assert_eq!(step(&mut f, Reply::Done), Act::Return(Ok(())));
}

#[test]
fn the_last_event_is_written_before_the_stop() {
    let mut f = waiting(1, 1);
    step(&mut f, Reply::Ready(vec![0]));
    step(&mut f, Reply::Pending(true));
    step(&mut f, Reply::Event(1));
    assert_eq!(
        step(&mut f, Reply::Filtered(Some(2), GrabStatus::Stop)),
        Act::Write { device: 0, event: 2 }
    );
    assert_eq!(step(&mut f, Reply::Done), Act::Ungrab { device: 0 });
    assert_eq!(step(&mut f, Reply::Done), Act::Close);
    assert_eq!(step(&mut f, Reply::Failed(5)), Act::Return(Err(FilterError::Io(5))));
}

#[test]
fn a_device_that_cannot_be_read_is_dropped() {
    let mut f = waiting(2, 2);
    step(&mut f, Reply::Ready(vec![0, 1]));
    step(&mut f, Reply::Pending(true));
    let watch = EpollEvent { events: 0, data: 0 };
    assert_eq!(step(&mut f, Reply::Failed(19)), Act::Unwatch { device: 0, watch });
    assert_eq!(step(&mut f, Reply::Done), Act::HasPending { device: 1 });
}

#[test]
fn other_failures_end_the_loop() {
    let (mut f, _) = FilterLoop::begin::<u8, i32>();
    assert_eq!(step(&mut f, Reply::Failed(1)), Act::Return(Err(FilterError::Io(1))));

    let (mut f, _) = FilterLoop::begin::<u8, i32>();
    step(&mut f, Reply::Opened { devices: 2, outputs: 2 });
    step(&mut f, Reply::Done);
    assert_eq!(step(&mut f, Reply::Failed(2)), Act::Return(Err(FilterError::Io(2))));

    let mut f = waiting(1, 1);
    assert_eq!(step(&mut f, Reply::Failed(3)), Act::Return(Err(FilterError::Io(3))));

    let mut f = waiting(1, 1);
    step(&mut f, Reply::Ready(vec![0]));
    step(&mut f, Reply::Pending(true));
    step(&mut f, Reply::Event(1));
    step(&mut f, Reply::Filtered(Some(2), GrabStatus::Stop));
    assert_eq!(step(&mut f, Reply::Failed(4)), Act::Return(Err(FilterError::Io(4))));

    let mut f = waiting(1, 1);
    step(&mut f, Reply::Ready(vec![0]));
    step(&mut f, Reply::Pending(true));
    step(&mut f, Reply::Failed(5));
    assert_eq!(step(&mut f, Reply::Failed(6)), Act::Return(Err(FilterError::Io(6))));
}

#[test]
fn a_crowd_of_devices_ends_the_loop() {
    if usize::BITS == 64 {
        let (mut f, _) = FilterLoop::begin::<u8, i32>();
        assert_eq!(
            step(&mut f, Reply::Opened { devices: usize::MAX, outputs: usize::MAX }),
            Act::Return(Err(FilterError::TooManyDevices))
        );
    }
}

#[test]
fn a_loop_without_devices_waits_for_some() {
    let mut f = waiting(0, 0);
    assert_eq!(step(&mut f, Reply::Ready(vec![u64::MAX])), Act::ReadDirectory);
    let watch = EpollEvent { events: 1, data: 0 };
    assert_eq!(
        step(&mut f, Reply::Announced(vec![0x100])),
        Act::AddDevice { announced: 0, watch }
    );
    assert_eq!(step(&mut f, Reply::Done), Act::Wait);
}

#[test]
fn new_devices_are_read_but_have_no_output() {
    let mut f = waiting(1, 1);
    assert_eq!(step(&mut f, Reply::Ready(vec![u64::MAX, 0])), Act::ReadDirectory);
    let first = EpollEvent { events: 1, data: 1 };
    let second = EpollEvent { events: 1, data: 2 };
    assert_eq!(
        step(&mut f, Reply::Announced(vec![0x100, 0x100])),
        Act::AddDevice { announced: 0, watch: first }
    );
    assert_eq!(
        step(&mut f, Reply::Done),
        Act::AddDevice { announced: 1, watch: second }
    );
    assert_eq!(step(&mut f, Reply::Done), Act::HasPending { device: 0 });
    assert_eq!(step(&mut f, Reply::Pending(false)), Act::Wait);
    assert_eq!(step(&mut f, Reply::Ready(vec![2])), Act::HasPending { device: 2 });
    step(&mut f, Reply::Pending(true));
    assert_eq!(step(&mut f, Reply::Event(4)), Act::Filter { event: 4 });
    assert_eq!(
        step(&mut f, Reply::Filtered(Some(4), GrabStatus::Continue)),
        Act::HasPending { device: 2 }
    );
    step(&mut f, Reply::Pending(true));
    step(&mut f, Reply::Event(5));
    step(&mut f, Reply::Filtered(None, GrabStatus::Stop));
    assert_eq!(step(&mut f, Reply::Done), Act::Ungrab { device: 1 });
    assert_eq!(step(&mut f, Reply::Done), Act::Ungrab { device: 2 });
    assert_eq!(step(&mut f, Reply::Done), Act::Close);
}

#[test]
fn what_the_loop_cannot_go_on_from() {
    let mut f = waiting(1, 1);
    assert_eq!(
        step(&mut f, Reply::Ready(vec![1])),
        Act::Abort(Fault::UnknownDevice { device: 1 })
    );

    let mut f = waiting(1, 1);
    step(&mut f, Reply::Ready(vec![u64::MAX]));
    assert_eq!(
        step(&mut f, Reply::Announced(vec![0x200])),
        Act::Abort(Fault::NotACreation)
    );
}
