//! The motion-detection state machine.
//!
//! The detection task is either waiting in Idle-Wait for one of three
//! competing wake conditions, or sampling inside a Read-Window that
//! extends while motion continues.  The waits, the sensor bus
//! transactions and the timers live outside; the decisions they feed are
//! the functions here, each a step from state and event to new state and
//! action.

use vstd::prelude::*;

use crate::bus::StateBus;
use crate::config::SensorConfig;
use crate::intensity::compute_buzz_frequency;
use crate::intensity::spec_intensity_matches;
use crate::intensity::Accel;
use crate::intensity::Gyro;
use crate::pipeline::SamplePipeline;
use crate::sample::SensorData;

verus! {

/// Idle keep-alive timeout used when periodic sampling is disabled: the
/// loop still wakes this often, only to re-check settings.
pub const KEEPALIVE_TIMEOUT_MS: u64 = 60000;

/// Half-cycle published for the LED while a read window is active.
pub const WINDOW_BLINK_INTERVAL_MS: u64 = 10;

/// Half-cycle published for the LED when the system is idle.
pub const IDLE_BLINK_INTERVAL_MS: u64 = 1000;

/// Which of the competing Idle-Wait conditions resolved first.
#[derive(Clone, Copy, Debug, PartialEq, Eq, Structural)]
pub enum IdleWake {
    /// The periodic timeout fired.
    Timeout,
    /// The motion interrupt completed a rising-then-falling edge.
    MotionEdge,
    /// The motion-detection-enabled signal was raised while edge waits
    /// are disabled; carries the signalled value.
    MotionSignalUpdate(bool),
    /// A manual read was requested.
    ManualRead,
}

/// What the detection task does next after an Idle-Wait wake.
#[derive(Clone, Copy, Debug, PartialEq, Eq, Structural)]
pub enum IdleAction {
    /// Take exactly one sample and remain in Idle-Wait.
    TakeSingleSample,
    /// Enter a read window; `manual` records which trigger opened it.
    EnterWindow { manual: bool },
    /// Re-publish the motion-detection value so the next settings
    /// refresh picks it up, and keep waiting.
    RepublishMotionDetection(bool),
    /// Nothing to do; wait again.
    KeepWaiting,
}

/// How long Idle-Wait sleeps before its periodic wake: the configured
/// continuous-sample interval, or the keep-alive timeout when that
/// setting is zero.
pub open spec fn spec_idle_wait_timeout_ms(continuous_interval_ms: u64) -> u64 {
    if continuous_interval_ms == 0 {
        KEEPALIVE_TIMEOUT_MS
    } else {
        continuous_interval_ms
    }
}

/// The Idle-Wait decision for a wake event under the current
/// configuration.
///
/// A timeout takes one sample only when periodic sampling is enabled; a
/// completed interrupt edge opens a window only while motion detection
/// is enabled; a manual request always opens a manual window; a
/// motion-detection signal observed while edge waits are disabled is
/// re-published unchanged.
pub open spec fn spec_idle_decision(
    motion_detection_enabled: bool,
    continuous_interval_ms: u64,
    event: IdleWake,
) -> IdleAction {
    match event {
        IdleWake::Timeout => if continuous_interval_ms != 0 {
            IdleAction::TakeSingleSample
        } else {
            IdleAction::KeepWaiting
        },
        IdleWake::MotionEdge => if motion_detection_enabled {
            IdleAction::EnterWindow { manual: false }
        } else {
            IdleAction::KeepWaiting
        },
        IdleWake::MotionSignalUpdate(v) => if !motion_detection_enabled {
            IdleAction::RepublishMotionDetection(v)
        } else {
            IdleAction::KeepWaiting
        },
        IdleWake::ManualRead => IdleAction::EnterWindow { manual: true },
    }
}

/// The timeout Idle-Wait arms before racing its wake conditions.
pub fn idle_wait_timeout_ms(continuous_interval_ms: u64) -> (r: u64)
    ensures
        r == spec_idle_wait_timeout_ms(continuous_interval_ms),
{
    if continuous_interval_ms == 0 {
        KEEPALIVE_TIMEOUT_MS
    } else {
        continuous_interval_ms
    }
}

/// Decides what follows an Idle-Wait wake.
pub fn idle_step(sensor_config: &SensorConfig, continuous_interval_ms: u64, event: IdleWake) -> (r:
    IdleAction)
    ensures
        r == spec_idle_decision(sensor_config.motion_detection, continuous_interval_ms, event),
{
    match event {
        IdleWake::Timeout => if continuous_interval_ms != 0 {
            IdleAction::TakeSingleSample
        } else {
            IdleAction::KeepWaiting
        },
        IdleWake::MotionEdge => if sensor_config.motion_detection {
            IdleAction::EnterWindow { manual: false }
        } else {
            IdleAction::KeepWaiting
        },
        IdleWake::MotionSignalUpdate(v) => if !sensor_config.motion_detection {
            IdleAction::RepublishMotionDetection(v)
        } else {
            IdleAction::KeepWaiting
        },
        IdleWake::ManualRead => IdleAction::EnterWindow { manual: true },
    }
}

/// Re-publishes a motion-detection value onto the bus, as the
/// Idle-Wait branch does after consuming the signal it was sleeping on.
pub fn republish_motion_detection(bus: &mut StateBus, value: bool)
    ensures
        *final(bus) == (StateBus { motion_detection: Some(value), ..*old(bus) }),
{
    bus.motion_detection = Some(value);
}

/// Resets the manual-read flag once a manual window has closed.
pub fn acknowledge_manual_read(bus: &mut StateBus)
    ensures
        *final(bus) == (StateBus { read: Some(false), ..*old(bus) }),
{
    bus.read = Some(false);
}

/// An active Read-Window: when it started, how long it runs without
/// further motion, and which trigger opened it.
#[derive(Clone, Copy, Debug, PartialEq, Eq, Structural)]
pub struct ReadWindow {
    pub start_ms: u64,
    pub duration_ms: u64,
    pub manual: bool,
}

/// Opens a read window: resets the epoch to now, publishes the busy
/// blink rate, and fixes the window length from the configured read
/// duration.
pub fn enter_read_window(bus: &mut StateBus, now_ms: u64, manual: bool) -> (w: ReadWindow)
    ensures
        w == (ReadWindow {
            start_ms: now_ms,
            duration_ms: (old(bus).motion_read_duration_s as u64 * 1000) as u64,
            manual,
        }),
        *final(bus) == (StateBus {
            epoch: now_ms as u32,
            blink_interval_ms: Some(WINDOW_BLINK_INTERVAL_MS as u64),
            ..*old(bus)
        }),
{
    let duration_ms = bus.motion_read_duration_s as u64 * 1000;
    bus.epoch = now_ms as u32;
    bus.blink_interval_ms = Some(WINDOW_BLINK_INTERVAL_MS);
    ReadWindow { start_ms: now_ms, duration_ms, manual }
}

/// Whether the window's duration has elapsed since its (possibly
/// extended) start.
pub fn window_expired(w: &ReadWindow, now_ms: u64) -> (r: bool)
    requires
        w.start_ms <= now_ms,
    ensures
        r == (now_ms - w.start_ms >= w.duration_ms),
{
    now_ms - w.start_ms >= w.duration_ms
}

/// What the sensor's motion-still-active check came back with.
#[derive(Clone, Copy, Debug, PartialEq, Eq, Structural)]
pub enum MotionCheckOutcome {
    /// Motion is still active.
    Active,
    /// No motion at the moment.
    Inactive,
    /// The check failed or timed out; treated as "no motion detected".
    CheckFailed,
}

/// Extends the window while motion continues: an active check resets the
/// window start to now; an inactive or failed check leaves it alone.
pub fn note_motion_check(w: &mut ReadWindow, now_ms: u64, outcome: MotionCheckOutcome)
    ensures
        final(w).start_ms == if outcome == MotionCheckOutcome::Active {
            now_ms
        } else {
            old(w).start_ms
        },
        final(w).duration_ms == old(w).duration_ms,
        final(w).manual == old(w).manual,
{
    if let MotionCheckOutcome::Active = outcome {
        w.start_ms = now_ms;
    }
}

/// How long to sleep to keep the sample cadence: the unspent part of the
/// interval, and whether the iteration overran it (which is worth a
/// warning and gets no sleep).
pub fn sleep_remainder(elapsed_ms: u64, interval_ms: u64) -> (r: (u64, bool))
    ensures
        elapsed_ms < interval_ms ==> r == (((interval_ms - elapsed_ms) as u64, false)),
        elapsed_ms >= interval_ms ==> r == ((0u64, elapsed_ms > interval_ms)),
{
    if elapsed_ms < interval_ms {
        (interval_ms - elapsed_ms, false)
    } else {
        (0, elapsed_ms > interval_ms)
    }
}

/// A sample timestamp: milliseconds since the epoch reference, wrapping
/// like the 32-bit millisecond clock does after about 49 days.
pub open spec fn spec_sample_timestamp(now_ms: u64, epoch: u32) -> u32 {
    vstd::wrapping::u32_specs::wrapping_sub(now_ms as u32, epoch)
}

/// The sample record produced from one successful sensor reading.
pub open spec fn spec_sample_of(
    config: SensorConfig,
    accel: Accel,
    gyro: Gyro,
    epoch: u32,
    now_ms: u64,
) -> SensorData {
    SensorData {
        accel_x: accel.x,
        accel_y: accel.y,
        accel_z: accel.z,
        accel_scale: config.accel_scale,
        gyro_x: gyro.x,
        gyro_y: gyro.y,
        gyro_z: gyro.z,
        gyro_scale: config.gyro_scale,
        timestamp_ms: spec_sample_timestamp(now_ms, epoch),
    }
}

/// Records one successful sensor reading: derives the intensity and
/// publishes it for the feedback tasks, then queues the timestamped
/// sample for the notifier, dropping the oldest entry if the pipeline is
/// full.
pub fn report_motion(
    bus: &mut StateBus,
    pipeline: &mut SamplePipeline,
    sensor_config: &SensorConfig,
    accel: &Accel,
    gyro: &Gyro,
    now_ms: u64,
) -> (intensity: u32)
    requires
        old(pipeline).wf(),
    ensures
        spec_intensity_matches(
            *accel,
            *gyro,
            sensor_config.buzz_frequency_mode,
            intensity as int,
        ),
        *final(bus) == (StateBus { buzz_frequency: Some(intensity), ..*old(bus) }),
        final(pipeline).wf(),
        final(pipeline).spec_capacity() == old(pipeline).spec_capacity(),
        ({
            let d = spec_sample_of(*sensor_config, *accel, *gyro, old(bus).epoch, now_ms);
            if old(pipeline)@.len() < old(pipeline).spec_capacity() {
                final(pipeline)@ == old(pipeline)@.push(d)
            } else {
                final(pipeline)@ == old(pipeline)@.drop_first().push(d)
            }
        }),
{
    let intensity = compute_buzz_frequency(accel, gyro, sensor_config.buzz_frequency_mode);
    bus.buzz_frequency = Some(intensity);
    let now_low = #[verifier::truncate] (now_ms as u32);
    let timestamp_ms = now_low.wrapping_sub(bus.epoch);
    let data = SensorData {
        accel_x: accel.x(),
        accel_y: accel.y(),
        accel_z: accel.z(),
        accel_scale: sensor_config.accel_scale,
        gyro_x: gyro.x(),
        gyro_y: gyro.y(),
        gyro_z: gyro.z(),
        gyro_scale: sensor_config.gyro_scale,
        timestamp_ms,
    };
    proof {
        pipeline.lemma_len_bounded();
    }
    pipeline.push(data);
    intensity
}

/// Closes a read window: publishes the quiescent blink rate and a zero
/// intensity, silencing the buzzer.
pub fn exit_read_window(bus: &mut StateBus)
    ensures
        *final(bus) == (StateBus {
            blink_interval_ms: Some(IDLE_BLINK_INTERVAL_MS as u64),
            buzz_frequency: Some(0u32),
            ..*old(bus)
        }),
{
    bus.blink_interval_ms = Some(IDLE_BLINK_INTERVAL_MS);
    bus.buzz_frequency = Some(0);
}

/// Honours a mark-epoch request: resets the epoch to now and consumes
/// the pending request, touching nothing else — in particular the
/// current window, its start and its duration are unaffected, so a
/// request mid-window does not terminate the window.
pub fn mark_epoch_now(bus: &mut StateBus, now_ms: u64)
    ensures
        *final(bus) == (StateBus {
            epoch: now_ms as u32,
            mark_epoch_pending: false,
            ..*old(bus)
        }),
{
    bus.epoch = now_ms as u32;
    bus.mark_epoch_pending = false;
}

/// After the epoch is reset at millisecond `mark_ms`, a sample taken at
/// any later time `t` within the 32-bit wrap horizon is stamped
/// `t - mark_ms`: timestamps restart from near zero relative to the
/// request time.
pub proof fn lemma_epoch_relative_timestamp(mark_ms: u64, t: u64)
    requires
        mark_ms <= t,
        t - mark_ms < 0x1_0000_0000,
    ensures
        spec_sample_timestamp(t, mark_ms as u32) == t - mark_ms,
{
    assert(vstd::wrapping::u32_specs::wrapping_sub(t as u32, mark_ms as u32) == t - mark_ms)
        by (bit_vector)
        requires
            mark_ms <= t,
            t - mark_ms < 0x1_0000_0000,
    ;
}

} // verus!
