use ping_manager::device::{
    CommonProperties, DeviceInformation, DeviceProperties, DeviceSelection, DeviceStatus,
    Ping1DProperties, Ping360Config, Ping360DeviceData, Ping360Properties, ProtocolVersion, UpgradeProbe,
    UpgradeResult, UpgradeStep,
};
use ping_manager::manager::{DeviceManager, ManagerError, ModifyDevice, ModifyDeviceCommand, START_FAILURE};
use ping_manager::source::{baud_rates_to_probe, device_id, DeviceId, SourceSelection, SourceSerialStruct, SourceUdpStruct};
use std::cell::Cell;
use std::rc::Rc;

fn serial(path: &str, baudrate: u32) -> SourceSelection {
    SourceSelection::SerialStream(SourceSerialStruct { path: path.to_string(), baudrate })
}

fn udp(ip: [u8; 4], port: u16) -> SourceSelection {
    SourceSelection::UdpStream(SourceUdpStruct { ip, port })
}

fn common() -> CommonProperties {
    CommonProperties {
        device_information: DeviceInformation {
            device_type: 2,
            device_revision: 1,
            firmware_version_major: 3,
            firmware_version_minor: 3,
            firmware_version_patch: 8,
            reserved: 0,
        },
        protocol_version: ProtocolVersion { version_major: 1, version_minor: 0, version_patch: 0, reserved: 0 },
    }
}

/// Counts how many of its clones were dropped.
struct Task(Rc<Cell<u32>>);

impl Drop for Task {
    fn drop(&mut self) {
        self.0.set(self.0.get() + 1);
    }
}

#[test]
fn identity_is_deterministic() {
    let a = device_id(&serial("/dev/ttyUSB0", 115200));
    let b = device_id(&serial("/dev/ttyUSB0", 115200));
    assert_eq!(a, b);
    assert_ne!(a, device_id(&serial("/dev/ttyUSB0", 9600)));
    assert_ne!(a, device_id(&serial("/dev/ttyUSB1", 115200)));
    assert_ne!(device_id(&udp([192, 168, 2, 92], 9092)), device_id(&udp([192, 168, 2, 92], 9093)));
}

#[test]
fn identity_high_bits_are_zero() {
    for s in [serial("/dev/ttyUSB0", 115200), udp([10, 0, 0, 5], 9092), serial("", 0)] {
        let id = device_id(&s);
        assert_eq!(id.value >> 64, 0);
    }
}

#[test]
fn create_twice_reports_already_exist() {
    let mut m: DeviceManager<(), ()> = DeviceManager::new();
    let src = serial("/dev/ttyUSB0", 115200);
    let id = m.check_new(&src).unwrap();
    assert_eq!(id, device_id(&src));
    assert_eq!(m.create(src.clone(), DeviceSelection::Common, None, ()).unwrap(), id);
    match m.check_new(&src) {
        Err(ManagerError::DeviceAlreadyExist(e)) => assert_eq!(e, id),
        other => panic!("unexpected {other:?}"),
    }
    match m.create(src.clone(), DeviceSelection::Common, None, ()) {
        Err(ManagerError::DeviceAlreadyExist(e)) => assert_eq!(e, device_id(&src)),
        other => panic!("unexpected {other:?}"),
    }
    assert_eq!(m.devices().len(), 1);
}

#[test]
fn auto_upgrade_to_ping360_streams_by_default() {
    let mut probe = UpgradeProbe::new();
    let step = probe.on_outcome(Ok(UpgradeResult::Ping360));
    assert_eq!(step, UpgradeStep::Resolved(DeviceSelection::Ping360));
    let settings = Ping360Config::from_device_data(1, 2, 32, 80, 750);
    assert_eq!(settings.number_of_samples, 1200);
    assert_eq!(settings.start_angle, 0);
    assert_eq!(settings.stop_angle, 399);
    assert_eq!(settings.num_steps, 1);
    assert_eq!(settings.delay, 0);
    assert_eq!(settings.transmit_frequency, 750);
    let props = DeviceProperties::Ping360(Ping360Properties { common: common(), continuous_mode_settings: settings });

    let mut m: DeviceManager<(), ()> = DeviceManager::new();
    let src = udp([192, 168, 2, 92], 12345);
    let id = m.create(src, DeviceSelection::Ping360, Some(props), ()).unwrap();
    assert_eq!(m.continuous_mode(id).unwrap(), DeviceSelection::Ping360);
    let info = m.continuous_mode_on(id, (), true).unwrap();
    assert_eq!(info.status, DeviceStatus::ContinuousMode);
    assert_eq!(info.device_type, DeviceSelection::Ping360);
    assert_eq!(info.properties, Some(props));
    let all = m.list().unwrap();
    assert_eq!(all.len(), 1);
    assert_eq!(all[0].status, DeviceStatus::ContinuousMode);
}

#[test]
fn upgrade_gives_up_after_three_failures() {
    let mut probe = UpgradeProbe::new();
    assert_eq!(probe.on_outcome(Err("timeout".to_string())), UpgradeStep::Retry(100));
    assert_eq!(probe.on_outcome(Err("timeout".to_string())), UpgradeStep::Retry(100));
    assert_eq!(probe.on_outcome(Err("last".to_string())), UpgradeStep::GiveUp("last".to_string()));
}

#[test]
fn upgrade_unknown_means_common() {
    let mut probe = UpgradeProbe::new();
    assert_eq!(probe.on_outcome(Err("x".to_string())), UpgradeStep::Retry(100));
    assert_eq!(probe.on_outcome(Ok(UpgradeResult::Unknown)), UpgradeStep::Resolved(DeviceSelection::Common));
    let mut probe = UpgradeProbe::new();
    assert_eq!(probe.on_outcome(Ok(UpgradeResult::Ping1D)), UpgradeStep::Resolved(DeviceSelection::Ping1D));
}

#[test]
fn modify_ip_plans_datagram_then_delete() {
    let mut m: DeviceManager<(), ()> = DeviceManager::new();
    let src = udp([192, 168, 2, 92], 9092);
    let id = m.create(src, DeviceSelection::Ping360, None, ()).unwrap();
    let d = m
        .modify_device(&ModifyDevice { uuid: id, modify: ModifyDeviceCommand::Ip([192, 168, 2, 120]) })
        .unwrap();
    assert_eq!(d.payload, "SetSS1IP 192.168.2.120");
    assert_eq!(d.destination, "192.168.2.92:30303");
    let removed = m.delete(id).unwrap();
    assert_eq!(removed.id, id);
    assert!(matches!(m.list(), Err(ManagerError::NoDevices)));
}

#[test]
fn modify_ip_of_serial_device_is_rejected() {
    let mut m: DeviceManager<(), ()> = DeviceManager::new();
    let id = m.create(serial("/dev/ttyACM0", 115200), DeviceSelection::Ping1D, None, ()).unwrap();
    let req = ModifyDevice { uuid: id, modify: ModifyDeviceCommand::Ip([10, 0, 0, 1]) };
    assert!(matches!(m.modify_device(&req), Err(ManagerError::Other(_))));
    let missing = ModifyDevice { uuid: DeviceId { value: 7 }, modify: ModifyDeviceCommand::Ip([10, 0, 0, 1]) };
    match m.modify_device(&missing) {
        Err(ManagerError::DeviceNotExist(e)) => assert_eq!(e.value, 7),
        _ => panic!("expected DeviceNotExist"),
    }
}

#[test]
fn list_info_delete_on_unknown_ids() {
    let mut m: DeviceManager<(), ()> = DeviceManager::new();
    assert!(matches!(m.list(), Err(ManagerError::NoDevices)));
    let ghost = DeviceId { value: 42 };
    assert!(matches!(m.info(ghost), Err(ManagerError::DeviceNotExist(e)) if e == ghost));
    assert!(matches!(m.delete(ghost), Err(ManagerError::DeviceNotExist(e)) if e == ghost));
    assert!(matches!(m.continuous_mode(ghost), Err(ManagerError::DeviceNotExist(e)) if e == ghost));
    assert!(matches!(m.continuous_mode_off(ghost), Err(ManagerError::DeviceNotExist(e)) if e == ghost));
}

#[test]
fn list_keeps_registration_order() {
    let mut m: DeviceManager<(), ()> = DeviceManager::new();
    let a = m.create(serial("/dev/ttyUSB0", 115200), DeviceSelection::Ping1D, None, ()).unwrap();
    let b = m.create(udp([10, 0, 0, 5], 9092), DeviceSelection::Ping360, None, ()).unwrap();
    let all = m.list().unwrap();
    assert_eq!(all.iter().map(|i| i.id).collect::<Vec<_>>(), vec![a, b]);
    assert!(all.iter().all(|i| i.status == DeviceStatus::Running));
    let one = m.info(b).unwrap();
    assert_eq!(one.device_type, DeviceSelection::Ping360);
    assert!(matches!(one.source, SourceSelection::UdpStream(ref u) if u.port == 9092));
}

#[test]
fn continuous_mode_status_rules() {
    let drops = Rc::new(Cell::new(0));
    let mut m: DeviceManager<(), Task> = DeviceManager::new();
    let id = m.create(serial("/dev/ttyUSB0", 115200), DeviceSelection::Ping1D, None, ()).unwrap();
    // Off while Running is a status error.
    match m.continuous_mode_off(id) {
        Err(ManagerError::DeviceStatus(s, e)) => {
            assert_eq!(s, DeviceStatus::Running);
            assert_eq!(e, id);
        }
        _ => panic!("expected DeviceStatus"),
    }
    // A broadcast that already ended is refused and stopped.
    match m.continuous_mode_on(id, Task(drops.clone()), false) {
        Err(ManagerError::Other(msg)) => assert_eq!(msg, START_FAILURE),
        _ => panic!("expected Other"),
    }
    assert_eq!(drops.get(), 1);
    assert_eq!(m.info(id).unwrap().status, DeviceStatus::Running);
    let info = m.continuous_mode_on(id, Task(drops.clone()), true).unwrap();
    assert_eq!(info.status, DeviceStatus::ContinuousMode);
    // Enabling twice is rejected by the status check.
    assert!(matches!(m.continuous_mode(id), Err(ManagerError::DeviceStatus(DeviceStatus::ContinuousMode, _))));
    match m.continuous_mode_on(id, Task(drops.clone()), true) {
        Err(ManagerError::DeviceStatus(DeviceStatus::ContinuousMode, _)) => {}
        _ => panic!("expected DeviceStatus"),
    }
    assert_eq!(drops.get(), 2);
    let (info, kind) = m.continuous_mode_off(id).unwrap();
    assert_eq!(info.status, DeviceStatus::Running);
    assert_eq!(kind, DeviceSelection::Ping1D);
    assert_eq!(drops.get(), 3);
    assert!(m.devices()[0].broadcast.is_none());
}

#[test]
fn reconcile_marks_finished_actors_stopped() {
    let drops = Rc::new(Cell::new(0));
    let mut m: DeviceManager<(), Task> = DeviceManager::new();
    let a = m.create(serial("/dev/ttyUSB0", 115200), DeviceSelection::Ping360, None, ()).unwrap();
    let b = m.create(serial("/dev/ttyUSB1", 115200), DeviceSelection::Ping1D, None, ()).unwrap();
    m.continuous_mode_on(a, Task(drops.clone()), true).unwrap();
    m.continuous_mode_on(b, Task(drops.clone()), true).unwrap();
    m.update_devices_status(&vec![a]);
    assert_eq!(m.info(a).unwrap().status, DeviceStatus::Stopped);
    assert!(m.devices()[0].broadcast.is_none());
    assert_eq!(drops.get(), 1);
    assert_eq!(m.info(b).unwrap().status, DeviceStatus::ContinuousMode);
    assert!(m.devices()[1].broadcast.is_some());
    // A stopped device cannot enter continuous mode; it stays registered.
    assert!(matches!(m.continuous_mode(a), Err(ManagerError::DeviceStatus(DeviceStatus::Stopped, _))));
    assert_eq!(m.list().unwrap().len(), 2);
}

#[test]
fn deleting_a_streaming_device_stops_its_broadcast() {
    let drops = Rc::new(Cell::new(0));
    let mut m: DeviceManager<(), Task> = DeviceManager::new();
    let a = m.create(udp([10, 0, 0, 9], 9092), DeviceSelection::Ping360, None, ()).unwrap();
    m.continuous_mode_on(a, Task(drops.clone()), true).unwrap();
    let removed = m.delete(a).unwrap();
    assert_eq!(removed.status, DeviceStatus::ContinuousMode);
    drop(removed);
    assert_eq!(drops.get(), 1);
    assert!(m.check_new(&udp([10, 0, 0, 9], 9092)).is_ok());
}

#[test]
fn get_device_finds_registered_device() {
    let mut m: DeviceManager<u32, ()> = DeviceManager::new();
    let id = m.create(serial("/dev/ttyUSB3", 57600), DeviceSelection::Ping1D, None, 77).unwrap();
    assert_eq!(m.get_device(id).unwrap().actor, 77);
    let ghost = DeviceId { value: 1 };
    assert!(matches!(m.get_device(ghost), Err(ManagerError::DeviceNotExist(e)) if e == ghost));
}

#[test]
fn reported_device_type_codes() {
    assert_eq!(UpgradeResult::from_device_type(1), UpgradeResult::Ping1D);
    assert_eq!(UpgradeResult::from_device_type(2), UpgradeResult::Ping360);
    assert_eq!(UpgradeResult::from_device_type(0), UpgradeResult::Unknown);
    assert_eq!(UpgradeResult::from_device_type(255), UpgradeResult::Unknown);
}

#[test]
fn properties_follow_the_resolved_variant() {
    let data = Ping360DeviceData { mode: 1, gain_setting: 2, transmit_duration: 32, sample_period: 80, transmit_frequency: 750 };
    assert_eq!(
        DeviceProperties::from_readings(DeviceSelection::Ping1D, common(), Some(data)),
        Some(DeviceProperties::Ping1D(Ping1DProperties { common: common() }))
    );
    assert_eq!(
        DeviceProperties::from_readings(DeviceSelection::Common, common(), None),
        Some(DeviceProperties::Common(common()))
    );
    assert_eq!(
        DeviceProperties::from_readings(DeviceSelection::Ping360, common(), Some(data)),
        Some(DeviceProperties::Ping360(Ping360Properties {
            common: common(),
            continuous_mode_settings: Ping360Config::from_device_data(1, 2, 32, 80, 750),
        }))
    );
    assert_eq!(DeviceProperties::from_readings(DeviceSelection::Ping360, common(), None), None);
    assert_eq!(DeviceProperties::from_readings(DeviceSelection::Auto, common(), Some(data)), None);
}

#[test]
fn serial_lines_are_probed_at_requested_rate_first() {
    assert_eq!(baud_rates_to_probe(115200), vec![115200, 9600, 921600, 2000000, 3000000]);
    assert_eq!(baud_rates_to_probe(9600), vec![9600, 115200, 921600, 2000000, 3000000]);
    assert_eq!(baud_rates_to_probe(57600), vec![57600, 115200, 9600, 921600, 2000000, 3000000]);
}
