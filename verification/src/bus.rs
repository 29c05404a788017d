//! The shared state bus: the single source of truth for runtime
//! configuration and cross-task signaling.
//!
//! Two kinds of entries.  *Level signals* are single-slot, overwritable,
//! last-write-wins values (`Some` while an update is pending, `None` once
//! consumed); every consumer tolerates "no update since last check".
//! *Guarded values* always hold a current value and start from a
//! well-defined default, so the system is operable before any
//! configuration write.
//!
//! The process-wide statics of the firmware become one explicit struct,
//! constructed once at startup and handed by reference to every task.

use vstd::prelude::*;

use crate::config::BuzzFrequencyMode;
use crate::config::SensorConfig;
use crate::tone::DEFAULT_MAX_BUZZ_VALUE;
use crate::tone::DEFAULT_MIN_BUZZ_VALUE;

verus! {

/// Milliseconds between samples inside a read window, before any write.
pub const DEFAULT_MOTION_SAMPLE_INTERVAL_MS: u64 = 10;

/// Milliseconds between idle keep-alive samples, before any write.
pub const DEFAULT_CONTINUOUS_SAMPLE_INTERVAL_MS: u64 = 60000;

/// Seconds a read window lasts, before any write.
pub const DEFAULT_MOTION_READ_DURATION_S: u16 = 5;

/// Raw accelerometer-scale byte published at startup (the most sensitive
/// range).
pub const DEFAULT_ACCEL_SCALE: u8 = 0;

/// Raw gyroscope-scale byte published at startup (the widest range).
pub const DEFAULT_GYRO_SCALE: u8 = 3;

/// Raw filter byte published at startup.
pub const DEFAULT_FILTER: u8 = 1;

/// The cross-task state bus.
///
/// `Option` fields are level signals; the rest are guarded values.
#[derive(Clone, Copy, Debug, PartialEq, Eq, Structural)]
pub struct StateBus {
    /// Desired LED half-cycle, milliseconds.
    pub blink_interval_ms: Option<u64>,
    /// Latest derived intensity, consumed by the tone task.
    pub buzz_frequency: Option<u32>,
    /// Desired intensity-to-tone mode.
    pub buzz_frequency_mode: Option<BuzzFrequencyMode>,
    /// Desired lower intensity bound of the tone mapping.
    pub min_buzz_value: Option<u32>,
    /// Desired upper intensity bound of the tone mapping.
    pub max_buzz_value: Option<u32>,
    /// Desired playback-enabled flag.
    pub play_sound: Option<bool>,
    /// Desired raw accelerometer-scale byte.
    pub accel_scale: Option<u8>,
    /// Desired raw gyroscope-scale byte.
    pub gyro_scale: Option<u8>,
    /// Desired raw filter byte.
    pub filter: Option<u8>,
    /// Manual-read request flag.
    pub read: Option<bool>,
    /// Desired motion-detection-enabled flag.
    pub motion_detection: Option<bool>,
    /// Set when a mark-epoch request is pending.
    pub mark_epoch_pending: bool,
    /// Milliseconds between samples inside a read window.
    pub motion_sample_interval_ms: u64,
    /// Milliseconds between idle keep-alive samples; zero disables them.
    pub continuous_sample_interval_ms: u64,
    /// Seconds a read window lasts before it may expire.
    pub motion_read_duration_s: u16,
    /// Rolling time-zero reference for sample timestamps, milliseconds.
    pub epoch: u32,
}

impl StateBus {
    /// The bus at startup: no signal pending, every guarded value at its
    /// documented default.
    pub fn new() -> (r: StateBus)
        ensures
            r == (StateBus {
                blink_interval_ms: None::<u64>,
                buzz_frequency: None::<u32>,
                buzz_frequency_mode: None::<BuzzFrequencyMode>,
                min_buzz_value: None::<u32>,
                max_buzz_value: None::<u32>,
                play_sound: None::<bool>,
                accel_scale: None::<u8>,
                gyro_scale: None::<u8>,
                filter: None::<u8>,
                read: None::<bool>,
                motion_detection: None::<bool>,
                mark_epoch_pending: false,
                motion_sample_interval_ms: DEFAULT_MOTION_SAMPLE_INTERVAL_MS as u64,
                continuous_sample_interval_ms: DEFAULT_CONTINUOUS_SAMPLE_INTERVAL_MS as u64,
                motion_read_duration_s: DEFAULT_MOTION_READ_DURATION_S as u16,
                epoch: 0u32,
            }),
    {
        StateBus {
            blink_interval_ms: None,
            buzz_frequency: None,
            buzz_frequency_mode: None,
            min_buzz_value: None,
            max_buzz_value: None,
            play_sound: None,
            accel_scale: None,
            gyro_scale: None,
            filter: None,
            read: None,
            motion_detection: None,
            mark_epoch_pending: false,
            motion_sample_interval_ms: DEFAULT_MOTION_SAMPLE_INTERVAL_MS,
            continuous_sample_interval_ms: DEFAULT_CONTINUOUS_SAMPLE_INTERVAL_MS,
            motion_read_duration_s: DEFAULT_MOTION_READ_DURATION_S,
            epoch: 0,
        }
    }
}

/// Publishes the startup configuration onto the bus, as the
/// initialization sequence does after configuring the sensor, and builds
/// the first configuration snapshot from exactly those values.
///
/// Waiting consumers (the tone task bounds, the first snapshot) observe
/// these published defaults, so no entry is read before a value exists.
pub fn publish_startup_defaults(bus: &mut StateBus) -> (config: SensorConfig)
    ensures
        *final(bus) == (StateBus {
            buzz_frequency_mode: Some(BuzzFrequencyMode::AccelX),
            min_buzz_value: Some(DEFAULT_MIN_BUZZ_VALUE as u32),
            max_buzz_value: Some(DEFAULT_MAX_BUZZ_VALUE as u32),
            play_sound: Some(false),
            accel_scale: Some(DEFAULT_ACCEL_SCALE as u8),
            gyro_scale: Some(DEFAULT_GYRO_SCALE as u8),
            filter: Some(DEFAULT_FILTER as u8),
            motion_detection: Some(true),
            ..*old(bus)
        }),
        config == (SensorConfig {
            accel_scale: DEFAULT_ACCEL_SCALE as u8,
            gyro_scale: DEFAULT_GYRO_SCALE as u8,
            buzz_frequency_mode: BuzzFrequencyMode::AccelX,
            filter: DEFAULT_FILTER as u8,
            motion_detection: true,
        }),
{
    bus.filter = Some(DEFAULT_FILTER);
    bus.accel_scale = Some(DEFAULT_ACCEL_SCALE);
    bus.gyro_scale = Some(DEFAULT_GYRO_SCALE);
    bus.motion_detection = Some(true);
    bus.buzz_frequency_mode = Some(BuzzFrequencyMode::AccelX);
    bus.min_buzz_value = Some(DEFAULT_MIN_BUZZ_VALUE);
    bus.max_buzz_value = Some(DEFAULT_MAX_BUZZ_VALUE);
    bus.play_sound = Some(false);
    SensorConfig {
        accel_scale: DEFAULT_ACCEL_SCALE,
        gyro_scale: DEFAULT_GYRO_SCALE,
        buzz_frequency_mode: BuzzFrequencyMode::AccelX,
        filter: DEFAULT_FILTER,
        motion_detection: true,
    }
}

} // verus!
