//! Sensor configuration: full-scale ranges, the digital low-pass filter,
//! the intensity-to-tone mode, and the mutable snapshot owned by the
//! motion-detection task.
//!
//! Out-of-range raw bytes fall back to a documented default scale or filter
//! rather than being rejected; the raw byte is still recorded so the client
//! can read back what it wrote.

use vstd::prelude::*;

use crate::bus::StateBus;

verus! {

/// Accelerometer full-scale range selector, one variant per supported range.
#[derive(Clone, Copy, Debug, PartialEq, Eq, Structural)]
pub enum AccelFullScale {
    G2,
    G4,
    G8,
    G16,
}

/// Gyroscope full-scale range selector, one variant per supported range.
#[derive(Clone, Copy, Debug, PartialEq, Eq, Structural)]
pub enum GyroFullScale {
    Deg250,
    Deg500,
    Deg1000,
    Deg2000,
}

/// Digital low-pass filter selector of the sensor.
#[derive(Clone, Copy, Debug, PartialEq, Eq, Structural)]
pub enum DigitalLowPassFilter {
    Filter0,
    Filter1,
    Filter2,
    Filter3,
    Filter4,
    Filter5,
    Filter6,
}

/// How the scalar intensity is derived from a sample: one raw axis, or the
/// Euclidean magnitude of the three axes, of either sensor.
#[derive(Clone, Copy, Debug, PartialEq, Eq, Structural)]
pub enum BuzzFrequencyMode {
    AccelX,
    AccelY,
    AccelZ,
    GyroX,
    GyroY,
    GyroZ,
    AccelMagnitude,
    GyroMagnitude,
}

pub open spec fn spec_accel_scale_from_u8(value: u8) -> Option<AccelFullScale> {
    if value == 0 {
        Some(AccelFullScale::G2)
    } else if value == 1 {
        Some(AccelFullScale::G4)
    } else if value == 2 {
        Some(AccelFullScale::G8)
    } else if value == 3 {
        Some(AccelFullScale::G16)
    } else {
        None
    }
}

pub open spec fn spec_gyro_scale_from_u8(value: u8) -> Option<GyroFullScale> {
    if value == 0 {
        Some(GyroFullScale::Deg250)
    } else if value == 1 {
        Some(GyroFullScale::Deg500)
    } else if value == 2 {
        Some(GyroFullScale::Deg1000)
    } else if value == 3 {
        Some(GyroFullScale::Deg2000)
    } else {
        None
    }
}

pub open spec fn spec_filter_from_u8(value: u8) -> Option<DigitalLowPassFilter> {
    if value == 0 {
        Some(DigitalLowPassFilter::Filter0)
    } else if value == 1 {
        Some(DigitalLowPassFilter::Filter1)
    } else if value == 2 {
        Some(DigitalLowPassFilter::Filter2)
    } else if value == 3 {
        Some(DigitalLowPassFilter::Filter3)
    } else if value == 4 {
        Some(DigitalLowPassFilter::Filter4)
    } else if value == 5 {
        Some(DigitalLowPassFilter::Filter5)
    } else if value == 6 {
        Some(DigitalLowPassFilter::Filter6)
    } else {
        None
    }
}

/// Decoding a raw accelerometer-scale byte, `None` when out of range.
pub trait AccelFullScaleFromU8 {
    fn from_u8(value: u8) -> (r: Option<AccelFullScale>)
        ensures
            r == spec_accel_scale_from_u8(value),
    ;
}

/// Decoding a raw gyroscope-scale byte, `None` when out of range.
pub trait GyroFullScaleFromU8 {
    fn from_u8(value: u8) -> (r: Option<GyroFullScale>)
        ensures
            r == spec_gyro_scale_from_u8(value),
    ;
}

/// Decoding a raw filter byte, `None` when out of range.
pub trait DigitalLowPassFilterFromU8 {
    fn from_u8(value: u8) -> (r: Option<DigitalLowPassFilter>)
        ensures
            r == spec_filter_from_u8(value),
    ;
}

impl AccelFullScaleFromU8 for AccelFullScale {
    fn from_u8(value: u8) -> (r: Option<AccelFullScale>) {
        match value {
            0 => Some(AccelFullScale::G2),
            1 => Some(AccelFullScale::G4),
            2 => Some(AccelFullScale::G8),
            3 => Some(AccelFullScale::G16),
            _ => None,
        }
    }
}

impl GyroFullScaleFromU8 for GyroFullScale {
    fn from_u8(value: u8) -> (r: Option<GyroFullScale>) {
        match value {
            0 => Some(GyroFullScale::Deg250),
            1 => Some(GyroFullScale::Deg500),
            2 => Some(GyroFullScale::Deg1000),
            3 => Some(GyroFullScale::Deg2000),
            _ => None,
        }
    }
}

impl DigitalLowPassFilterFromU8 for DigitalLowPassFilter {
    fn from_u8(value: u8) -> (r: Option<DigitalLowPassFilter>) {
        match value {
            0 => Some(DigitalLowPassFilter::Filter0),
            1 => Some(DigitalLowPassFilter::Filter1),
            2 => Some(DigitalLowPassFilter::Filter2),
            3 => Some(DigitalLowPassFilter::Filter3),
            4 => Some(DigitalLowPassFilter::Filter4),
            5 => Some(DigitalLowPassFilter::Filter5),
            6 => Some(DigitalLowPassFilter::Filter6),
            _ => None,
        }
    }
}

/// The scale actually commanded to the sensor for a raw byte: the decoded
/// range, or the most sensitive default when the byte is out of range.
pub open spec fn spec_accel_scale_or_default(value: u8) -> AccelFullScale {
    match spec_accel_scale_from_u8(value) {
        Some(s) => s,
        None => AccelFullScale::G2,
    }
}

/// The gyroscope scale commanded for a raw byte, with its fallback default.
pub open spec fn spec_gyro_scale_or_default(value: u8) -> GyroFullScale {
    match spec_gyro_scale_from_u8(value) {
        Some(s) => s,
        None => GyroFullScale::Deg2000,
    }
}

/// The filter commanded for a raw byte, with its fallback default.
pub open spec fn spec_filter_or_default(value: u8) -> DigitalLowPassFilter {
    match spec_filter_from_u8(value) {
        Some(f) => f,
        None => DigitalLowPassFilter::Filter1,
    }
}

pub open spec fn spec_mode_from_u8(value: u8) -> BuzzFrequencyMode {
    if value == 0 {
        BuzzFrequencyMode::AccelX
    } else if value == 1 {
        BuzzFrequencyMode::AccelY
    } else if value == 2 {
        BuzzFrequencyMode::AccelZ
    } else if value == 3 {
        BuzzFrequencyMode::GyroX
    } else if value == 4 {
        BuzzFrequencyMode::GyroY
    } else if value == 5 {
        BuzzFrequencyMode::GyroZ
    } else if value == 6 {
        BuzzFrequencyMode::AccelMagnitude
    } else if value == 7 {
        BuzzFrequencyMode::GyroMagnitude
    } else {
        BuzzFrequencyMode::AccelX
    }
}

pub open spec fn spec_mode_to_u8(mode: BuzzFrequencyMode) -> u8 {
    match mode {
        BuzzFrequencyMode::AccelX => 0,
        BuzzFrequencyMode::AccelY => 1,
        BuzzFrequencyMode::AccelZ => 2,
        BuzzFrequencyMode::GyroX => 3,
        BuzzFrequencyMode::GyroY => 4,
        BuzzFrequencyMode::GyroZ => 5,
        BuzzFrequencyMode::AccelMagnitude => 6,
        BuzzFrequencyMode::GyroMagnitude => 7,
    }
}

impl From<u8> for BuzzFrequencyMode {
    /// Raw bytes above the last variant silently fall back to the default
    /// mode, so a client write can never leave the mode undefined.
    fn from(value: u8) -> (r: Self) {
        match value {
            0 => BuzzFrequencyMode::AccelX,
            1 => BuzzFrequencyMode::AccelY,
            2 => BuzzFrequencyMode::AccelZ,
            3 => BuzzFrequencyMode::GyroX,
            4 => BuzzFrequencyMode::GyroY,
            5 => BuzzFrequencyMode::GyroZ,
            6 => BuzzFrequencyMode::AccelMagnitude,
            7 => BuzzFrequencyMode::GyroMagnitude,
            _ => BuzzFrequencyMode::AccelX,
        }
    }
}

impl vstd::std_specs::convert::FromSpecImpl<u8> for BuzzFrequencyMode {
    open spec fn obeys_from_spec() -> bool {
        true
    }

    open spec fn from_spec(value: u8) -> BuzzFrequencyMode {
        spec_mode_from_u8(value)
    }
}

impl From<BuzzFrequencyMode> for u8 {
    fn from(mode: BuzzFrequencyMode) -> (r: u8) {
        match mode {
            BuzzFrequencyMode::AccelX => 0,
            BuzzFrequencyMode::AccelY => 1,
            BuzzFrequencyMode::AccelZ => 2,
            BuzzFrequencyMode::GyroX => 3,
            BuzzFrequencyMode::GyroY => 4,
            BuzzFrequencyMode::GyroZ => 5,
            BuzzFrequencyMode::AccelMagnitude => 6,
            BuzzFrequencyMode::GyroMagnitude => 7,
        }
    }
}

impl vstd::std_specs::convert::FromSpecImpl<BuzzFrequencyMode> for u8 {
    open spec fn obeys_from_spec() -> bool {
        true
    }

    open spec fn from_spec(mode: BuzzFrequencyMode) -> u8 {
        spec_mode_to_u8(mode)
    }
}

/// Mutable configuration snapshot owned by the motion-detection task.
///
/// The scale and filter fields hold the raw bytes last requested by the
/// client; the decoded (possibly defaulted) selectors are what gets
/// commanded to the sensor when a field changes.
#[derive(Clone, Copy, Debug, PartialEq, Eq, Structural)]
pub struct SensorConfig {
    pub accel_scale: u8,
    pub gyro_scale: u8,
    pub buzz_frequency_mode: BuzzFrequencyMode,
    pub filter: u8,
    pub motion_detection: bool,
}

impl SensorConfig {
    /// Adopts a pending intensity-mode intent; absent means unchanged.
    pub fn apply_buzz_frequency_mode(&mut self, mode_source: Option<BuzzFrequencyMode>)
        ensures
            final(self).buzz_frequency_mode == match mode_source {
                Some(m) => m,
                None => old(self).buzz_frequency_mode,
            },
            final(self).accel_scale == old(self).accel_scale,
            final(self).gyro_scale == old(self).gyro_scale,
            final(self).filter == old(self).filter,
            final(self).motion_detection == old(self).motion_detection,
    {
        if let Some(new_mode) = mode_source {
            self.buzz_frequency_mode = new_mode;
        }
    }

    /// Adopts a pending accelerometer-scale intent and returns the range to
    /// command to the sensor, `None` when nothing changed.
    pub fn apply_accel_scale(&mut self, accel_source: Option<u8>) -> (cmd: Option<AccelFullScale>)
        ensures
            final(self).accel_scale == match accel_source {
                Some(v) => v,
                None => old(self).accel_scale,
            },
            cmd == match accel_source {
                Some(v) => Some(spec_accel_scale_or_default(v)),
                None => None::<AccelFullScale>,
            },
            final(self).gyro_scale == old(self).gyro_scale,
            final(self).buzz_frequency_mode == old(self).buzz_frequency_mode,
            final(self).filter == old(self).filter,
            final(self).motion_detection == old(self).motion_detection,
    {
        if let Some(new_accel) = accel_source {
            let afs = match AccelFullScale::from_u8(new_accel) {
                Some(s) => s,
                None => AccelFullScale::G2,
            };
            self.accel_scale = new_accel;
            Some(afs)
        } else {
            None
        }
    }

    /// Adopts a pending gyroscope-scale intent and returns the range to
    /// command to the sensor, `None` when nothing changed.
    pub fn apply_gyro_scale(&mut self, gyro_source: Option<u8>) -> (cmd: Option<GyroFullScale>)
        ensures
            final(self).gyro_scale == match gyro_source {
                Some(v) => v,
                None => old(self).gyro_scale,
            },
            cmd == match gyro_source {
                Some(v) => Some(spec_gyro_scale_or_default(v)),
                None => None::<GyroFullScale>,
            },
            final(self).accel_scale == old(self).accel_scale,
            final(self).buzz_frequency_mode == old(self).buzz_frequency_mode,
            final(self).filter == old(self).filter,
            final(self).motion_detection == old(self).motion_detection,
    {
        if let Some(new_gyro) = gyro_source {
            let gfs = match GyroFullScale::from_u8(new_gyro) {
                Some(s) => s,
                None => GyroFullScale::Deg2000,
            };
            self.gyro_scale = new_gyro;
            Some(gfs)
        } else {
            None
        }
    }

    /// Adopts a pending filter intent and returns the filter to command to
    /// the sensor, `None` when nothing changed.
    pub fn apply_filter(&mut self, filter_source: Option<u8>) -> (cmd: Option<DigitalLowPassFilter>)
        ensures
            final(self).filter == match filter_source {
                Some(v) => v,
                None => old(self).filter,
            },
            cmd == match filter_source {
                Some(v) => Some(spec_filter_or_default(v)),
                None => None::<DigitalLowPassFilter>,
            },
            final(self).accel_scale == old(self).accel_scale,
            final(self).gyro_scale == old(self).gyro_scale,
            final(self).buzz_frequency_mode == old(self).buzz_frequency_mode,
            final(self).motion_detection == old(self).motion_detection,
    {
        if let Some(new_filter) = filter_source {
            let dlpf = match DigitalLowPassFilter::from_u8(new_filter) {
                Some(f) => f,
                None => DigitalLowPassFilter::Filter1,
            };
            self.filter = new_filter;
            Some(dlpf)
        } else {
            None
        }
    }

    /// Adopts a pending motion-detection-enabled intent.
    pub fn apply_motion_detection(&mut self, motion_detection: Option<bool>)
        ensures
            final(self).motion_detection == match motion_detection {
                Some(v) => v,
                None => old(self).motion_detection,
            },
            final(self).accel_scale == old(self).accel_scale,
            final(self).gyro_scale == old(self).gyro_scale,
            final(self).buzz_frequency_mode == old(self).buzz_frequency_mode,
            final(self).filter == old(self).filter,
    {
        if let Some(new_detection) = motion_detection {
            self.motion_detection = new_detection;
        }
    }
}

/// What must be written to the sensor peripheral after a settings
/// refresh; `None` fields mean the corresponding setting did not change.
#[derive(Clone, Copy, Debug, PartialEq, Eq, Structural)]
pub struct SensorCommands {
    pub accel: Option<AccelFullScale>,
    pub gyro: Option<GyroFullScale>,
    pub filter: Option<DigitalLowPassFilter>,
}

/// Drains the pending configuration intents from the bus into the
/// snapshot, and reports which sensor settings must be written to the
/// peripheral.  Only the motion-detection task calls this; every other
/// task publishes intents and never touches the sensor.
pub fn update_sensor_settings(bus: &mut StateBus, sensor_config: &mut SensorConfig) -> (cmds:
    SensorCommands)
    ensures
        final(sensor_config).buzz_frequency_mode == match old(bus).buzz_frequency_mode {
            Some(m) => m,
            None => old(sensor_config).buzz_frequency_mode,
        },
        final(sensor_config).accel_scale == match old(bus).accel_scale {
            Some(v) => v,
            None => old(sensor_config).accel_scale,
        },
        final(sensor_config).gyro_scale == match old(bus).gyro_scale {
            Some(v) => v,
            None => old(sensor_config).gyro_scale,
        },
        final(sensor_config).filter == match old(bus).filter {
            Some(v) => v,
            None => old(sensor_config).filter,
        },
        final(sensor_config).motion_detection == match old(bus).motion_detection {
            Some(v) => v,
            None => old(sensor_config).motion_detection,
        },
        cmds.accel == match old(bus).accel_scale {
            Some(v) => Some(spec_accel_scale_or_default(v)),
            None => None::<AccelFullScale>,
        },
        cmds.gyro == match old(bus).gyro_scale {
            Some(v) => Some(spec_gyro_scale_or_default(v)),
            None => None::<GyroFullScale>,
        },
        cmds.filter == match old(bus).filter {
            Some(v) => Some(spec_filter_or_default(v)),
            None => None::<DigitalLowPassFilter>,
        },
        *final(bus) == (StateBus {
            buzz_frequency_mode: None::<BuzzFrequencyMode>,
            accel_scale: None::<u8>,
            gyro_scale: None::<u8>,
            filter: None::<u8>,
            motion_detection: None::<bool>,
            ..*old(bus)
        }),
{
    let mode_update = bus.buzz_frequency_mode;
    bus.buzz_frequency_mode = None;
    sensor_config.apply_buzz_frequency_mode(mode_update);

    let accel_update = bus.accel_scale;
    bus.accel_scale = None;
    let accel_cmd = sensor_config.apply_accel_scale(accel_update);

    let gyro_update = bus.gyro_scale;
    bus.gyro_scale = None;
    let gyro_cmd = sensor_config.apply_gyro_scale(gyro_update);

    let filter_update = bus.filter;
    bus.filter = None;
    let filter_cmd = sensor_config.apply_filter(filter_update);

    let detection_update = bus.motion_detection;
    bus.motion_detection = None;
    sensor_config.apply_motion_detection(detection_update);

    SensorCommands { accel: accel_cmd, gyro: gyro_cmd, filter: filter_cmd }
}

} // verus!
