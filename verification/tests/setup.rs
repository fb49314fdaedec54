use rdev::linux::devices::DeviceEntry;
use rdev::linux::setup::{setup_devices, DeviceSetup, SetupAction, SetupReply};
use rdev::linux::watch::EpollEvent;

type Act = SetupAction<i32>;

fn listing() -> SetupReply<i32> {
    let names = ["event4", "mice", "event2", "js0"];
    SetupReply::Listed(
        names
            .iter()
            .map(|name| DeviceEntry {
                is_char_device: true,
                file_name: Some(name.as_bytes().to_vec()),
            })
            .collect(),
    )
}

#[test]
fn devices_are_set_up_with_an_output_each() {
    let (mut setup, first) = DeviceSetup::begin::<i32>();
    assert_eq!(first, Act::ListDirectory { path: "/dev/input" });
    let mut done = vec![setup_devices(&mut setup, listing())];
    while !matches!(done[done.len() - 1], Act::Return(_)) {
        done.push(setup_devices(&mut setup, SetupReply::Done));
    }
    assert_eq!(
        done,
        vec![
            Act::OpenFile { entry: 0 },
            Act::OpenFile { entry: 2 },
            Act::CreateEpoll,
            Act::Watch { file: 0, watch: EpollEvent { events: 1, data: 0 } },
            Act::Watch { file: 1, watch: EpollEvent { events: 1, data: 1 } },
            Act::OpenDevice { file: 0 },
            Act::OpenDevice { file: 1 },
            Act::CreateOutput { device: 0 },
            Act::CreateOutput { device: 1 },
            Act::Return(Ok(2)),
        ]
    );
}

#[test]
fn an_empty_directory_sets_no_device_up() {
    let (mut setup, _) = DeviceSetup::begin::<i32>();
    assert_eq!(setup_devices(&mut setup, SetupReply::Listed(Vec::new())), Act::CreateEpoll);
    assert_eq!(setup_devices(&mut setup, SetupReply::Done), Act::Return(Ok(0)));
}

#[test]
fn any_failure_ends_the_setup() {
    for succeeding in 0..10 {
        let (mut setup, _) = DeviceSetup::begin::<i32>();
        for i in 0..succeeding {
            let reply = if i == 0 { listing() } else { SetupReply::Done };
            setup_devices(&mut setup, reply);
        }
        assert_eq!(setup_devices(&mut setup, SetupReply::Failed(7)), Act::Return(Err(7)));
    }
}
