//! Device variants, lifecycle states, per-variant properties, and the
//! auto-identification retry rule.

use crate::source::{device_id, source_id, DeviceId, SourceSelection};
use vstd::prelude::*;

verus! {

/// Declared device type. `Auto` asks for a probe that upgrades the
/// endpoint to its concrete variant.
#[derive(Clone, Copy, Debug, PartialEq, Eq, Structural)]
pub enum DeviceSelection {
    Common,
    Ping1D,
    Ping360,
    Auto,
}

/// Lifecycle state of a registered device.
#[derive(Clone, Copy, Debug, PartialEq, Eq, Structural)]
pub enum DeviceStatus {
    Running,
    Stopped,
    ContinuousMode,
}

/// What a probe of the remote endpoint reported.
#[derive(Clone, Copy, Debug, PartialEq, Eq, Structural)]
pub enum UpgradeResult {
    Unknown,
    Ping1D,
    Ping360,
}

/// The `device_information` message of the ping protocol.
#[derive(Clone, Copy, Debug, PartialEq, Eq, Structural)]
pub struct DeviceInformation {
    pub device_type: u8,
    pub device_revision: u8,
    pub firmware_version_major: u8,
    pub firmware_version_minor: u8,
    pub firmware_version_patch: u8,
    pub reserved: u8,
}

/// The `protocol_version` message of the ping protocol.
#[derive(Clone, Copy, Debug, PartialEq, Eq, Structural)]
pub struct ProtocolVersion {
    pub version_major: u8,
    pub version_minor: u8,
    pub version_patch: u8,
    pub reserved: u8,
}

#[derive(Clone, Copy, Debug, PartialEq, Eq, Structural)]
pub struct CommonProperties {
    pub device_information: DeviceInformation,
    pub protocol_version: ProtocolVersion,
}

#[derive(Clone, Copy, Debug, PartialEq, Eq, Structural)]
pub struct Ping1DProperties {
    pub common: CommonProperties,
}

/// Settings written to a Ping360 when its continuous mode starts.
#[derive(Clone, Copy, Debug, PartialEq, Eq, Structural)]
pub struct Ping360Config {
    pub mode: u8,
    pub gain_setting: u8,
    pub transmit_duration: u16,
    pub sample_period: u16,
    pub transmit_frequency: u16,
    pub number_of_samples: u16,
    pub start_angle: u16,
    pub stop_angle: u16,
    pub num_steps: u8,
    pub delay: u8,
}

#[derive(Clone, Copy, Debug, PartialEq, Eq, Structural)]
pub struct Ping360Properties {
    pub common: CommonProperties,
    pub continuous_mode_settings: Ping360Config,
}

#[derive(Clone, Copy, Debug, PartialEq, Eq, Structural)]
pub enum DeviceProperties {
    Common(CommonProperties),
    Ping1D(Ping1DProperties),
    Ping360(Ping360Properties),
}

/// Identity record of a device.
#[derive(Clone, Debug)]
pub struct DeviceInfo {
    pub id: DeviceId,
    pub source: SourceSelection,
    pub status: DeviceStatus,
    pub device_type: DeviceSelection,
    pub properties: Option<DeviceProperties>,
}

pub const DEFAULT_NUMBER_OF_SAMPLES: u16 = 1200;
pub const DEFAULT_START_ANGLE: u16 = 0;
pub const DEFAULT_STOP_ANGLE: u16 = 399;
pub const DEFAULT_NUM_STEPS: u8 = 1;
pub const DEFAULT_DELAY: u8 = 0;

impl Ping360Config {
    /// Continuous-mode settings seeded from a `device_data` reply: the
    /// acoustic parameters are kept, the sweep takes the defaults (1200
    /// samples, angles 0 to 399, one step, no delay).
    pub fn from_device_data(
        mode: u8,
        gain_setting: u8,
        transmit_duration: u16,
        sample_period: u16,
        transmit_frequency: u16,
    ) -> (r: Ping360Config)
        ensures
            r == (Ping360Config {
                mode,
                gain_setting,
                transmit_duration,
                sample_period,
                transmit_frequency,
                number_of_samples: 1200,
                start_angle: 0,
                stop_angle: 399,
                num_steps: 1,
                delay: 0,
            }),
    {
        Ping360Config {
            mode,
            gain_setting,
            transmit_duration,
            sample_period,
            transmit_frequency,
            number_of_samples: DEFAULT_NUMBER_OF_SAMPLES,
            start_angle: DEFAULT_START_ANGLE,
            stop_angle: DEFAULT_STOP_ANGLE,
            num_steps: DEFAULT_NUM_STEPS,
            delay: DEFAULT_DELAY,
        }
    }
}

impl SourceSelection {
    /// A copy equal to `self`.
    pub fn duplicate(&self) -> (r: SourceSelection)
        ensures
            r == *self,
    {
        match self {
            SourceSelection::UdpStream(u) => SourceSelection::UdpStream(
                crate::source::SourceUdpStruct { ip: u.ip, port: u.port },
            ),
            SourceSelection::SerialStream(s) => SourceSelection::SerialStream(
                crate::source::SourceSerialStruct { path: s.path.clone(), baudrate: s.baudrate },
            ),
        }
    }
}

impl DeviceInfo {
    /// A copy equal to `self`.
    pub fn duplicate(&self) -> (r: DeviceInfo)
        ensures
            r == *self,
    {
        DeviceInfo {
            id: self.id,
            source: self.source.duplicate(),
            status: self.status,
            device_type: self.device_type,
            properties: self.properties,
        }
    }
}

/// The device-type code of `device_information` in the ping protocol:
/// 1 is a Ping1D echosounder, 2 a Ping360; anything else is unknown.
pub open spec fn upgrade_for(device_type: u8) -> UpgradeResult {
    if device_type == 1 {
        UpgradeResult::Ping1D
    } else if device_type == 2 {
        UpgradeResult::Ping360
    } else {
        UpgradeResult::Unknown
    }
}

impl UpgradeResult {
    /// What a device reporting this `device_information` type code is.
    pub fn from_device_type(device_type: u8) -> (r: UpgradeResult)
        ensures
            r == upgrade_for(device_type),
    {
        if device_type == 1 {
            UpgradeResult::Ping1D
        } else if device_type == 2 {
            UpgradeResult::Ping360
        } else {
            UpgradeResult::Unknown
        }
    }
}

/// The acoustic parameters of a Ping360 `device_data` reply.
#[derive(Clone, Copy, Debug, PartialEq, Eq, Structural)]
pub struct Ping360DeviceData {
    pub mode: u8,
    pub gain_setting: u8,
    pub transmit_duration: u16,
    pub sample_period: u16,
    pub transmit_frequency: u16,
}

pub open spec fn settings_from(d: Ping360DeviceData) -> Ping360Config {
    Ping360Config {
        mode: d.mode,
        gain_setting: d.gain_setting,
        transmit_duration: d.transmit_duration,
        sample_period: d.sample_period,
        transmit_frequency: d.transmit_frequency,
        number_of_samples: 1200,
        start_angle: 0,
        stop_angle: 399,
        num_steps: 1,
        delay: 0,
    }
}

/// The properties of a device of variant `t`, from what was read from it:
/// the common messages, and for a Ping360 its `device_data`. `None` for
/// `Auto`, or for a Ping360 whose `device_data` was not read.
pub open spec fn properties_for(
    t: DeviceSelection,
    common: CommonProperties,
    data: Option<Ping360DeviceData>,
) -> Option<DeviceProperties> {
    match t {
        DeviceSelection::Common => Some(DeviceProperties::Common(common)),
        DeviceSelection::Ping1D => Some(DeviceProperties::Ping1D(Ping1DProperties { common })),
        DeviceSelection::Ping360 => match data {
            Some(d) => Some(
                DeviceProperties::Ping360(
                    Ping360Properties { common, continuous_mode_settings: settings_from(d) },
                ),
            ),
            None => None,
        },
        DeviceSelection::Auto => None,
    }
}

/// `p` is the properties variant of device variant `t`.
pub open spec fn matches_variant(t: DeviceSelection, p: DeviceProperties) -> bool {
    match p {
        DeviceProperties::Common(_) => t == DeviceSelection::Common,
        DeviceProperties::Ping1D(_) => t == DeviceSelection::Ping1D,
        DeviceProperties::Ping360(_) => t == DeviceSelection::Ping360,
    }
}

impl DeviceProperties {
    /// Builds the properties of a resolved device from its readings.
    pub fn from_readings(
        device_type: DeviceSelection,
        common: CommonProperties,
        data: Option<Ping360DeviceData>,
    ) -> (r: Option<DeviceProperties>)
        ensures
            r == properties_for(device_type, common, data),
            r matches Some(p) ==> matches_variant(device_type, p),
    {
        match device_type {
            DeviceSelection::Common => Some(DeviceProperties::Common(common)),
            DeviceSelection::Ping1D => Some(DeviceProperties::Ping1D(Ping1DProperties { common })),
            DeviceSelection::Ping360 => match data {
                Some(d) => Some(
                    DeviceProperties::Ping360(
                        Ping360Properties {
                            common,
                            continuous_mode_settings: Ping360Config::from_device_data(
                                d.mode,
                                d.gain_setting,
                                d.transmit_duration,
                                d.sample_period,
                                d.transmit_frequency,
                            ),
                        },
                    ),
                ),
                None => None,
            },
            DeviceSelection::Auto => None,
        }
    }
}

/// The concrete variant that a probe result stands for.
pub open spec fn selection_for(r: UpgradeResult) -> DeviceSelection {
    match r {
        UpgradeResult::Unknown => DeviceSelection::Common,
        UpgradeResult::Ping1D => DeviceSelection::Ping1D,
        UpgradeResult::Ping360 => DeviceSelection::Ping360,
    }
}

pub const UPGRADE_MAX_ATTEMPTS: u8 = 3;

pub const UPGRADE_RETRY_DELAY_MS: u64 = 100;

/// What to do after one identification probe.
#[derive(Clone, Debug, PartialEq, Eq)]
pub enum UpgradeStep {
    /// The endpoint is identified as this variant.
    Resolved(DeviceSelection),
    /// Stop any continuous mode left running on the source, wait this
    /// many milliseconds, and probe again.
    Retry(u64),
    /// Attempts are exhausted; creation fails with this device error.
    GiveUp(String),
}

/// Counts failed identification probes of one endpoint.
pub struct UpgradeProbe {
    pub failures: u8,
}

impl UpgradeProbe {
    pub fn new() -> (r: UpgradeProbe)
        ensures
            r.failures == 0,
    {
        UpgradeProbe { failures: 0 }
    }

    /// Feeds one probe outcome: a reported variant, or the device error
    /// the probe ended with.
    pub fn on_outcome(&mut self, outcome: Result<UpgradeResult, String>) -> (r: UpgradeStep)
        requires
            old(self).failures < UPGRADE_MAX_ATTEMPTS,
        ensures
            match outcome {
                Ok(found) => r == UpgradeStep::Resolved(selection_for(found))
                    && final(self).failures == old(self).failures,
                Err(e) => {
                    &&& final(self).failures == old(self).failures + 1
                    &&& final(self).failures >= UPGRADE_MAX_ATTEMPTS ==> r == UpgradeStep::GiveUp(e)
                    &&& final(self).failures < UPGRADE_MAX_ATTEMPTS ==> r == UpgradeStep::Retry(
                        UPGRADE_RETRY_DELAY_MS,
                    )
                },
            },
    {
        match outcome {
            Ok(found) => {
                let sel = match found {
                    UpgradeResult::Unknown => DeviceSelection::Common,
                    UpgradeResult::Ping1D => DeviceSelection::Ping1D,
                    UpgradeResult::Ping360 => DeviceSelection::Ping360,
                };
                UpgradeStep::Resolved(sel)
            },
            Err(e) => {
                self.failures = self.failures + 1;
                if self.failures >= UPGRADE_MAX_ATTEMPTS {
                    UpgradeStep::GiveUp(e)
                } else {
                    UpgradeStep::Retry(UPGRADE_RETRY_DELAY_MS)
                }
            },
        }
    }
}

/// Identifies endpoints found by discovery without keeping them: the
/// record it produces has no actor behind it.
pub struct DeviceFactory;

impl DeviceFactory {
    /// The record of a discovered device: its derived id, the resolved
    /// variant and the properties read from it, of that variant. No actor
    /// runs for it, so its status is `Stopped`.
    pub fn discovered_info(
        source: SourceSelection,
        device_type: DeviceSelection,
        properties: Option<DeviceProperties>,
    ) -> (r: DeviceInfo)
        requires
            device_type != DeviceSelection::Auto,
            properties matches Some(p) && matches_variant(device_type, p),
        ensures
            r == (DeviceInfo {
                id: source_id(source),
                source,
                status: DeviceStatus::Stopped,
                device_type,
                properties,
            }),
    {
        let id = device_id(&source);
        DeviceInfo { id, source, status: DeviceStatus::Stopped, device_type, properties }
    }
}

} // verus!
