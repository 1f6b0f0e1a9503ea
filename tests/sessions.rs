use dsrelay::device::{
    classify, filter_gamepads, handle_event, DSGamepad, DSType, DeviceEvent, DeviceRegistry,
    PeerAddr,
};
use dsrelay::output::{ControlRelay, ControlType};
use dsrelay::session::{
    control_step, decode_request, encode_request, Action, ControlEvent, ControlStep, InputAction,
    InputRelay, ProtocolError, Request, SessionManager,
};

fn peer(n: u8) -> PeerAddr {
    PeerAddr { is_v6: false, ip: 0x0A00_0000 | n as u128, port: 40000 + n as u16, flowinfo: 0, scope_id: 0 }
}

fn add_event(sysname: &str, hid_id: &str, is_bt: bool, devname: &str) -> DeviceEvent {
    DeviceEvent::Add {
        sysname: sysname.to_string(),
        hid_id: Some(hid_id.as_bytes().to_vec()),
        is_bt,
        devname: Some(devname.to_string()),
    }
}

fn registry_with_one_pad() -> DeviceRegistry {
    let mut reg = DeviceRegistry::new();
    handle_event(add_event("hidraw0", "0005:0000054C:000009CC", true, "/dev/hidraw0"), &mut reg);
    reg
}

fn ds4_bt_report(battery_nibble: u8) -> Vec<u8> {
    let mut raw = vec![0u8; 78];
    raw[0] = 0x11;
    raw[32] = battery_nibble;
    raw
}

#[test]
fn classify_known_and_unknown_hardware() {
    assert_eq!(classify(b"0005:0000054C:000009CC", true), Some(DSType::DS4BT));
    assert_eq!(classify(b"0003:0000054C:000009CC", false), Some(DSType::DS4USB));
    assert_eq!(classify(b"0005:0000054C:00000CE6", true), Some(DSType::SenseBT));
    assert_eq!(classify(b"0003:0000054C:00000CE6", false), Some(DSType::SenseUSB));
    assert_eq!(classify(b"0003:0000054C:000005C4", false), None);
    assert_eq!(classify(b"0003:0000045E:000009CC", false), None);
    assert_eq!(classify(b"0003:0000054c:000009CC", false), None);
    assert_eq!(classify(b"0003:0000054C", false), None);
    assert_eq!(classify(b"", false), None);
}

#[test]
fn filter_builds_a_free_record() {
    let g = filter_gamepads(b"0003:0000054C:00000CE6", false, "/dev/hidraw3".to_string()).unwrap();
    assert_eq!(g.gamepad_type, DSType::SenseUSB);
    assert_eq!(g.hidraw_path, "/dev/hidraw3");
    assert_eq!(g.used_by, None);
    assert!(filter_gamepads(b"0003:00001234:00000CE6", false, "/dev/hidraw3".to_string()).is_none());
}

#[test]
fn watcher_adds_and_removes_devices() {
    let mut reg = DeviceRegistry::new();
    handle_event(add_event("hidraw0", "0005:0000054C:000009CC", true, "/dev/hidraw0"), &mut reg);
    handle_event(add_event("hidraw1", "0003:00000001:00000002", false, "/dev/hidraw1"), &mut reg);
    handle_event(
        DeviceEvent::Add { sysname: "hidraw2".to_string(), hid_id: None, is_bt: false, devname: Some("/dev/hidraw2".to_string()) },
        &mut reg,
    );
    assert_eq!(reg.len(), 1);
    assert_eq!(reg.assigned_to(&"hidraw0".to_string()), Some(None));
    assert_eq!(reg.assigned_to(&"hidraw1".to_string()), None);
    handle_event(add_event("hidraw0", "0005:0000054C:000009CC", true, "/dev/hidraw0"), &mut reg);
    assert_eq!(reg.len(), 1);
    handle_event(DeviceEvent::Remove { sysname: "hidraw0".to_string() }, &mut reg);
    assert_eq!(reg.len(), 0);
    handle_event(DeviceEvent::Remove { sysname: "hidraw9".to_string() }, &mut reg);
    assert_eq!(reg.len(), 0);
}

#[test]
fn removal_of_an_assigned_device_is_unconditional() {
    let mut reg = registry_with_one_pad();
    let mut mgr: SessionManager<u32> = SessionManager::new();
    assert!(mgr.connect(&mut reg, peer(1)).is_some());
    handle_event(DeviceEvent::Remove { sysname: "hidraw0".to_string() }, &mut reg);
    assert_eq!(reg.len(), 0);
}

#[test]
fn connect_without_free_device_is_silent() {
    let mut reg = DeviceRegistry::new();
    let mut mgr: SessionManager<u32> = SessionManager::new();
    assert!(matches!(mgr.handle_datagram(&mut reg, peer(1), &[0]), Action::Ignore));
    assert_eq!(mgr.len(), 0);
    assert_eq!(reg.len(), 0);

    let mut reg = registry_with_one_pad();
    mgr.connect(&mut reg, peer(2)).unwrap();
    assert!(matches!(mgr.handle_datagram(&mut reg, peer(1), &[0]), Action::Ignore));
    assert_eq!(reg.assigned_to(&"hidraw0".to_string()), Some(Some(peer(2))));
}

#[test]
fn connect_with_one_free_device() {
    let mut reg = registry_with_one_pad();
    let mut mgr: SessionManager<u32> = SessionManager::new();
    match mgr.handle_datagram(&mut reg, peer(1), &[0]) {
        Action::Open { variant, hidraw_path } => {
            assert_eq!(variant, DSType::DS4BT);
            assert_eq!(hidraw_path, "/dev/hidraw0");
        }
        _ => panic!("expected a session to open"),
    }
    mgr.attach(peer(1), 11);
    assert_eq!(mgr.len(), 1);
    assert_eq!(mgr.session(&peer(1)), Some(&11));
    assert_eq!(reg.assigned_to(&"hidraw0".to_string()), Some(Some(peer(1))));
    assert!(matches!(mgr.handle_datagram(&mut reg, peer(2), &[0]), Action::Ignore));
    assert_eq!(mgr.len(), 1);
    assert!(!mgr.contains(&peer(2)));
    assert!(matches!(mgr.handle_datagram(&mut reg, peer(1), &[0]), Action::Ignore));
    assert_eq!(mgr.len(), 1);
}

#[test]
fn disconnect_releases_the_device() {
    let mut reg = registry_with_one_pad();
    let mut mgr: SessionManager<u32> = SessionManager::new();
    assert!(matches!(mgr.handle_datagram(&mut reg, peer(1), &[0]), Action::Open { .. }));
    mgr.attach(peer(1), 11);
    assert!(matches!(mgr.handle_datagram(&mut reg, peer(1), &[2]), Action::Close(11)));
    assert_eq!(mgr.len(), 0);
    assert_eq!(reg.assigned_to(&"hidraw0".to_string()), Some(None));
    assert!(matches!(mgr.handle_datagram(&mut reg, peer(1), &[2]), Action::Ignore));
    assert!(matches!(mgr.handle_datagram(&mut reg, peer(2), &[0]), Action::Open { .. }));
    assert_eq!(reg.assigned_to(&"hidraw0".to_string()), Some(Some(peer(2))));
}

#[test]
fn rumble_goes_to_the_session_only() {
    let mut reg = registry_with_one_pad();
    let mut mgr: SessionManager<u32> = SessionManager::new();
    assert!(matches!(mgr.handle_datagram(&mut reg, peer(1), &[1, 5, 6]), Action::Ignore));
    mgr.connect(&mut reg, peer(1)).unwrap();
    mgr.attach(peer(1), 3);
    match mgr.handle_datagram(&mut reg, peer(1), &[1, 200, 100, 0]) {
        Action::Forward(cmd) => assert_eq!(cmd, ControlType::Rumble { large: 200, small: 100 }),
        _ => panic!("expected the command to be forwarded"),
    }
    assert!(matches!(mgr.handle_datagram(&mut reg, peer(2), &[1, 1, 1]), Action::Ignore));
}

#[test]
fn protocol_violations_are_rejected_without_effect() {
    let mut reg = registry_with_one_pad();
    let mut mgr: SessionManager<u32> = SessionManager::new();
    assert!(matches!(mgr.handle_datagram(&mut reg, peer(1), &[]), Action::Reject(ProtocolError::Empty)));
    assert!(matches!(
        mgr.handle_datagram(&mut reg, peer(1), &[9, 0]),
        Action::Reject(ProtocolError::UnknownOpcode(9))
    ));
    assert!(matches!(
        mgr.handle_datagram(&mut reg, peer(1), &[1, 4]),
        Action::Reject(ProtocolError::Truncated)
    ));
    assert_eq!(mgr.len(), 0);
    assert_eq!(reg.assigned_to(&"hidraw0".to_string()), Some(None));
}

#[test]
fn requests_round_trip() {
    for req in [Request::Connect, Request::SendCommand { large: 3, small: 250 }, Request::Disconnect] {
        assert_eq!(decode_request(&encode_request(req)), Ok(req));
    }
    assert_eq!(encode_request(Request::SendCommand { large: 3, small: 250 }), vec![1, 3, 250]);
    assert_eq!(decode_request(&[0, 0, 0, 0]), Ok(Request::Connect));
}

#[test]
fn read_failure_sends_one_sentinel_and_ends_dispatch() {
    let mut reg = registry_with_one_pad();
    let mut mgr: SessionManager<u32> = SessionManager::new();
    mgr.connect(&mut reg, peer(1)).unwrap();
    mgr.attach(peer(1), 7);
    let mut relay = InputRelay::new(DSType::DS4BT);
    assert!(matches!(relay.step(Some(&ds4_bt_report(5))), InputAction::Send { .. }));
    assert!(matches!(relay.step(None), InputAction::Sentinel));
    assert!(relay.stopped);
    assert!(matches!(relay.step(None), InputAction::Idle));
    assert!(matches!(relay.step(Some(&ds4_bt_report(5))), InputAction::Idle));
    assert_eq!(mgr.disconnect(&mut reg, peer(1)), Some(7));
    assert!(matches!(mgr.handle_datagram(&mut reg, peer(1), &[1, 9, 9]), Action::Ignore));
    assert_eq!(reg.assigned_to(&"hidraw0".to_string()), Some(None));
}

#[test]
fn undecodable_report_ends_the_relay() {
    let mut relay = InputRelay::new(DSType::DS4BT);
    let mut bad = ds4_bt_report(5);
    bad[0] = 0x12;
    assert!(matches!(relay.step(Some(&bad)), InputAction::Sentinel));
    assert!(matches!(relay.step(Some(&ds4_bt_report(5))), InputAction::Idle));
}

#[test]
fn battery_changes_give_one_command_each() {
    let mut relay = InputRelay::new(DSType::DS4BT);
    let mut commands = Vec::new();
    for nibble in [5u8, 5, 5, 6, 6, 5, 5] {
        match relay.step(Some(&ds4_bt_report(nibble))) {
            InputAction::Send { frame, command } => {
                assert_eq!(frame.len(), 64);
                if let Some(c) = command {
                    commands.push(c);
                }
            }
            _ => panic!("expected a frame"),
        }
    }
    assert_eq!(
        commands,
        vec![ControlType::Battery(50), ControlType::Battery(60), ControlType::Battery(50)]
    );
    assert_eq!(relay.last_battery, 50);
}

#[test]
fn first_zero_reading_gives_no_command() {
    let mut relay = InputRelay::new(DSType::DS4BT);
    match relay.step(Some(&ds4_bt_report(0))) {
        InputAction::Send { command, .. } => assert_eq!(command, None),
        _ => panic!("expected a frame"),
    }
}

#[test]
fn registry_insert_keeps_one_entry_per_path() {
    let mut reg = DeviceRegistry::new();
    let g = DSGamepad { gamepad_type: DSType::DS4USB, hidraw_path: "/dev/a".to_string(), used_by: None };
    reg.insert("p".to_string(), g);
    let g = DSGamepad { gamepad_type: DSType::SenseUSB, hidraw_path: "/dev/b".to_string(), used_by: Some(peer(4)) };
    reg.insert("p".to_string(), g);
    assert_eq!(reg.len(), 1);
    assert_eq!(reg.assigned_to(&"p".to_string()), Some(Some(peer(4))));
    reg.release(peer(4));
    assert_eq!(reg.assigned_to(&"p".to_string()), Some(None));
    assert_eq!(reg.assign_first_free(peer(5)), Some((DSType::SenseUSB, "/dev/b".to_string())));
    assert_eq!(reg.assign_first_free(peer(6)), None);
    reg.remove(&"p".to_string());
    assert_eq!(reg.len(), 0);
}

#[test]
fn control_worker_stops_on_cancel_or_closed_queue() {
    let mut relay = ControlRelay::new(DSType::DS4USB);
    assert!(matches!(control_step(&mut relay, false, ControlEvent::Timeout), ControlStep::Wait));
    match control_step(&mut relay, false, ControlEvent::Command(ControlType::Rumble { large: 3, small: 4 })) {
        ControlStep::Write(report) => {
            assert_eq!(report.len(), 32);
            assert_eq!(&report[4..6], &[4, 3]);
        }
        _ => panic!("expected a report"),
    }
    assert!(matches!(control_step(&mut relay, false, ControlEvent::Closed), ControlStep::Stop));
    assert!(matches!(
        control_step(&mut relay, true, ControlEvent::Command(ControlType::Battery(5))),
        ControlStep::Stop
    ));
}
