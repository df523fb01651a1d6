//! Firmware update requests, the local firmware cache layout, flasher
//! command lines, and the checks made before a flash starts.

use crate::manager::UuidWrapper;
use crate::source::SourceSelection;
use vstd::prelude::*;
use vstd::string::StrSliceExecFns;

verus! {

#[derive(Clone, Debug)]
pub struct FirmwareUpdateRequest {
    pub mode: FirmwareUpdateMode,
    pub force: bool,
}

#[derive(Clone, Debug)]
pub enum FirmwareUpdateMode {
    AutoUpdate(UuidWrapper),
    ManualUpdate(ManualUpdate),
}

#[derive(Clone, Debug)]
pub struct ManualUpdate {
    pub path: String,
    pub device_kind: FirmwareDeviceKind,
}

#[derive(Clone, Copy, Debug, PartialEq, Eq, Structural)]
pub enum FirmwareDeviceKind {
    Ping1D,
    Ping2,
    Ping360,
}

#[derive(Clone, Copy, Debug, PartialEq, Eq, Structural)]
pub enum FirmwareUpdateResult {
    Started,
    SkippedAlreadyLatest,
    Running,
}

#[derive(Clone, Debug)]
pub enum FirmwareUpdateError {
    MissingTool,
    InvalidFirmwarePath(String),
    UnsupportedDevice,
    Io(String),
    Process(String),
}

pub const PING1D_REV1_URL: &'static str =
    "https://raw.githubusercontent.com/bluerobotics/ping-firmware/master/ping1d/Ping-V3.29_auto.hex";

pub const PING1D_REV2_URL: &'static str =
    "https://raw.githubusercontent.com/bluerobotics/ping-firmware/master/ping2/Ping2-V1.1.0_auto.hex";

pub const PING360_URL: &'static str =
    "https://raw.githubusercontent.com/bluerobotics/ping-firmware/master/ping360/Ping360-V3.3.8_auto.hex";

pub const PING360_BOOTLOADER_PATH: &'static str = "firmwares/utils/ping360-bootloader";

pub const FIRMWARE_BASE_DIR: &'static str = "firmwares";

pub const PING1D_FAMILY: &'static str = "ping1d";

pub const PING1D_FILE: &'static str = "Ping-V3.29_auto.hex";

pub const PING2_FAMILY: &'static str = "ping2";

pub const PING2_FILE: &'static str = "Ping2-V1.1.0_auto.hex";

pub const PING360_FAMILY: &'static str = "ping360";

pub const PING360_FILE: &'static str = "Ping360-V3.3.8_auto.hex";

pub const STM32FLASH: &'static str = "stm32flash";

pub const PING360_BOOTLOADER: &'static str = "ping360-bootloader";

pub const TOOLS_DIR: &'static str = "utils";

/// Appends a relative component to a path, as `Path::join` does: no
/// separator after an empty base or one that already ends in `/`.
pub open spec fn join_path(base: Seq<char>, comp: Seq<char>) -> Seq<char> {
    if base.len() == 0 {
        comp
    } else if base.last() == '/' {
        base + comp
    } else {
        base + seq!['/'] + comp
    }
}

pub fn join(base: &str, comp: &str) -> (r: String)
    ensures
        r@ == join_path(base@, comp@),
{
    let n = base.unicode_len();
    if n == 0 {
        return comp.to_owned();
    }
    let mut r = base.to_owned();
    if base.get_char(n - 1) != '/' {
        r.append("/");
    }
    r.append(comp);
    proof {
        reveal_strlit("/");
    }
    r
}

/// Where downloaded firmware is kept.
pub fn default_firmware_base_dir() -> (r: String)
    ensures
        r@ == FIRMWARE_BASE_DIR@,
{
    FIRMWARE_BASE_DIR.to_owned()
}

/// The cached firmware file of a Ping1D of hardware `revision` under
/// `base`, and the address it is fetched from: revision 2 is a Ping2,
/// any other revision the first-generation Ping1D.
pub fn expected_local_firmware_path(revision: u8, base: &str) -> (r: (String, &'static str))
    ensures
        revision == 2 ==> r.0@ == join_path(join_path(base@, PING2_FAMILY@), PING2_FILE@)
            && r.1@ == PING1D_REV2_URL@,
        revision != 2 ==> r.0@ == join_path(join_path(base@, PING1D_FAMILY@), PING1D_FILE@)
            && r.1@ == PING1D_REV1_URL@,
{
    if revision == 2 {
        (join(join(base, PING2_FAMILY).as_str(), PING2_FILE), PING1D_REV2_URL)
    } else {
        (join(join(base, PING1D_FAMILY).as_str(), PING1D_FILE), PING1D_REV1_URL)
    }
}

/// The cached Ping360 firmware file under `base`, and its address.
pub fn expected_local_ping360_firmware_path(base: &str) -> (r: (String, &'static str))
    ensures
        r.0@ == join_path(join_path(base@, PING360_FAMILY@), PING360_FILE@),
        r.1@ == PING360_URL@,
{
    (join(join(base, PING360_FAMILY).as_str(), PING360_FILE), PING360_URL)
}

/// Where a flasher is looked for when it is not on the search path:
/// `<cwd>/utils/<tool>`.
pub fn tool_fallback_path(cwd: &str, tool: &str) -> (r: String)
    ensures
        r@ == join_path(join_path(cwd@, TOOLS_DIR@), tool@),
{
    join(join(cwd, TOOLS_DIR).as_str(), tool)
}

pub open spec fn views(v: Seq<String>) -> Seq<Seq<char>> {
    v.map_values(|s: String| s@)
}

/// Write-and-verify phase: `[-w <fw>] -v <serial>`; `-w` is left out
/// when no firmware file is given.
pub open spec fn write_args(firmware: Seq<char>, serial: Seq<char>) -> Seq<Seq<char>> {
    if firmware.len() == 0 {
        seq!["-v"@, serial]
    } else {
        seq!["-w"@, firmware, "-v"@, serial]
    }
}

pub open spec fn go_args(serial: Seq<char>) -> Seq<Seq<char>> {
    seq!["-g"@, "0x08000000"@, serial]
}

pub open spec fn bootloader_args(serial: Seq<char>, firmware: Seq<char>) -> Seq<Seq<char>> {
    seq![serial, firmware, "--bootloader"@]
}

pub fn build_stm32flash_write_args(firmware_path: &str, serial_port: &str) -> (r: Vec<String>)
    ensures
        views(r@) == write_args(firmware_path@, serial_port@),
{
    let mut args: Vec<String> = Vec::new();
    if !firmware_path.is_empty() {
        args.push("-w".to_owned());
        args.push(firmware_path.to_owned());
    }
    args.push("-v".to_owned());
    args.push(serial_port.to_owned());
    assert(views(args@) =~= write_args(firmware_path@, serial_port@));
    args
}

/// Go phase: start the written application at the flash base address.
pub fn build_stm32flash_go_args(serial_port: &str) -> (r: Vec<String>)
    ensures
        views(r@) == go_args(serial_port@),
{
    let args = vec!["-g".to_owned(), "0x08000000".to_owned(), serial_port.to_owned()];
    assert(views(args@) =~= go_args(serial_port@));
    args
}

pub fn build_ping360_bootloader_args(serial_port: &str, firmware_path: &str) -> (r: Vec<String>)
    ensures
        views(r@) == bootloader_args(serial_port@, firmware_path@),
{
    let args = vec![serial_port.to_owned(), firmware_path.to_owned(), "--bootloader".to_owned()];
    assert(views(args@) =~= bootloader_args(serial_port@, firmware_path@));
    args
}

/// Where a flash goes: the flasher to run and the serial line to use.
pub struct FlashTarget {
    pub tool: String,
    pub serial_path: String,
}

/// The checks made before flashing, in order: the flasher was found
/// (`tool`), a firmware file given by the caller exists
/// (`firmware_exists`, meaningful only when `firmware_path` is given;
/// `InvalidFirmwarePath` otherwise), and the device is on a serial line
/// (`UnsupportedDevice` for UDP).
pub fn flash_target(
    tool: Result<String, FirmwareUpdateError>,
    firmware_path: Option<&str>,
    firmware_exists: bool,
    source: &SourceSelection,
) -> (r: Result<FlashTarget, FirmwareUpdateError>)
    ensures
        tool is Err ==> r == Err::<FlashTarget, FirmwareUpdateError>(tool->Err_0),
        tool is Ok && firmware_path is Some && !firmware_exists ==> (r matches Err(
            FirmwareUpdateError::InvalidFirmwarePath(p),
        ) && p@ == firmware_path->Some_0@),
        tool is Ok && (firmware_path is None || firmware_exists) && source is UdpStream ==> r
            == Err::<FlashTarget, FirmwareUpdateError>(FirmwareUpdateError::UnsupportedDevice),
        tool is Ok && (firmware_path is None || firmware_exists) && source is SerialStream ==> (
        r matches Ok(t) && t.tool == tool->Ok_0 && t.serial_path@ == source->SerialStream_0.path@),
{
    let tool = match tool {
        Ok(t) => t,
        Err(e) => return Err(e),
    };
    if let Some(path) = firmware_path {
        if !firmware_exists {
            return Err(FirmwareUpdateError::InvalidFirmwarePath(path.to_owned()));
        }
    }
    match source {
        SourceSelection::SerialStream(s) => Ok(FlashTarget { tool, serial_path: s.path.clone() }),
        SourceSelection::UdpStream(_) => Err(FirmwareUpdateError::UnsupportedDevice),
    }
}

} // verus!
