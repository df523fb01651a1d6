use ping_manager::firmware::{
    build_ping360_bootloader_args, build_stm32flash_go_args, build_stm32flash_write_args,
    default_firmware_base_dir, expected_local_firmware_path, expected_local_ping360_firmware_path,
    flash_target, tool_fallback_path, FirmwareUpdateError, PING1D_REV1_URL, PING1D_REV2_URL, PING360_URL,
};
use ping_manager::source::{SourceSelection, SourceSerialStruct, SourceUdpStruct};

fn serial(path: &str) -> SourceSelection {
    SourceSelection::SerialStream(SourceSerialStruct { path: path.to_string(), baudrate: 115200 })
}

#[test]
fn firmware_cache_paths() {
    let base = default_firmware_base_dir();
    assert_eq!(base, "firmwares");
    assert_eq!(
        expected_local_firmware_path(2, &base),
        ("firmwares/ping2/Ping2-V1.1.0_auto.hex".to_string(), PING1D_REV2_URL)
    );
    assert_eq!(
        expected_local_firmware_path(1, &base),
        ("firmwares/ping1d/Ping-V3.29_auto.hex".to_string(), PING1D_REV1_URL)
    );
    assert_eq!(expected_local_firmware_path(0, "x").0, "x/ping1d/Ping-V3.29_auto.hex");
    assert_eq!(
        expected_local_ping360_firmware_path(&base),
        ("firmwares/ping360/Ping360-V3.3.8_auto.hex".to_string(), PING360_URL)
    );
    assert!(PING360_URL.ends_with("/ping360/Ping360-V3.3.8_auto.hex"));
}

#[test]
fn firmware_paths_follow_path_join() {
    assert_eq!(expected_local_ping360_firmware_path("").0, "ping360/Ping360-V3.3.8_auto.hex");
    assert_eq!(expected_local_ping360_firmware_path("/data/").0, "/data/ping360/Ping360-V3.3.8_auto.hex");
    assert_eq!(tool_fallback_path("/opt/app", "stm32flash"), "/opt/app/utils/stm32flash");
    assert_eq!(
        std::path::Path::new("/data/").join("ping360").join("Ping360-V3.3.8_auto.hex").to_string_lossy(),
        expected_local_ping360_firmware_path("/data/").0
    );
}

#[test]
fn stm32flash_arguments() {
    assert_eq!(build_stm32flash_write_args("fw.hex", "/dev/ttyUSB0"), vec!["-w", "fw.hex", "-v", "/dev/ttyUSB0"]);
    assert_eq!(build_stm32flash_write_args("", "/dev/ttyUSB0"), vec!["-v", "/dev/ttyUSB0"]);
    assert_eq!(build_stm32flash_go_args("/dev/ttyUSB0"), vec!["-g", "0x08000000", "/dev/ttyUSB0"]);
}

#[test]
fn ping360_bootloader_arguments() {
    assert_eq!(
        build_ping360_bootloader_args("/dev/ttyUSB0", "fw.hex"),
        vec!["/dev/ttyUSB0", "fw.hex", "--bootloader"]
    );
}

#[test]
fn flash_target_checks_in_order() {
    let udp = SourceSelection::UdpStream(SourceUdpStruct { ip: [10, 0, 0, 5], port: 9092 });
    assert!(matches!(
        flash_target(Err(FirmwareUpdateError::MissingTool), Some("nope.hex"), false, &udp),
        Err(FirmwareUpdateError::MissingTool)
    ));
    match flash_target(Ok("stm32flash".to_string()), Some("nope.hex"), false, &udp) {
        Err(FirmwareUpdateError::InvalidFirmwarePath(p)) => assert_eq!(p, "nope.hex"),
        _ => panic!("expected InvalidFirmwarePath"),
    }
    assert!(matches!(
        flash_target(Ok("stm32flash".to_string()), None, false, &udp),
        Err(FirmwareUpdateError::UnsupportedDevice)
    ));
    let t = flash_target(Ok("/usr/bin/stm32flash".to_string()), Some("fw.hex"), true, &serial("/dev/ttyUSB0")).unwrap();
    assert_eq!(t.tool, "/usr/bin/stm32flash");
    assert_eq!(t.serial_path, "/dev/ttyUSB0");
}
