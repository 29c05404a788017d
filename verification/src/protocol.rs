//! The wireless attribute protocol's pure core: decoding client writes
//! into bus updates, and packing queued samples into notification
//! payloads.
//!
//! A write payload must have exactly the byte width of the targeted
//! attribute's type; a wrong-length payload is rejected and leaves the
//! bus untouched, while a correctly-sized one updates exactly the
//! targeted bus entry.

use vstd::bytes::*;
use vstd::prelude::*;

use crate::bus::StateBus;
use crate::config::spec_mode_from_u8;
use crate::config::BuzzFrequencyMode;
use crate::pipeline::SamplePipeline;
use crate::sample::lemma_wire_bytes_len;
use crate::sample::spec_wire_bytes;
use crate::sample::SensorData;
use crate::sample::ToBytes;

verus! {

/// Most samples packed into one pair of notifications.
pub const NOTIFY_BATCH_MAX: usize = 10;

/// Bytes one sample occupies in a notification payload: the 4-byte
/// timestamp, one scale byte and three 2-byte axes.
pub const NOTIFY_ENTRY_BYTES: usize = 11;

/// The writable attributes of the service, by identity.
#[derive(Clone, Copy, Debug, PartialEq, Eq, Structural)]
pub enum WriteAttribute {
    MotionReadDuration,
    MotionSampleInterval,
    ContinuousSampleInterval,
    PlaySound,
    GyroScale,
    AccelScale,
    BuzzFrequencyMode,
    MinBuzzValue,
    MaxBuzzValue,
    DigitalLowPassFilter,
    Read,
    MotionDetection,
    MarkEpoch,
}

/// A decoded client write: the new value for exactly one bus entry.
#[derive(Clone, Copy, Debug, PartialEq, Eq, Structural)]
pub enum ConfigUpdate {
    MotionReadDuration(u16),
    MotionSampleInterval(u64),
    ContinuousSampleInterval(u64),
    PlaySound(bool),
    GyroScale(u8),
    AccelScale(u8),
    BuzzFrequencyMode(BuzzFrequencyMode),
    MinBuzzValue(u32),
    MaxBuzzValue(u32),
    Filter(u8),
    Read(bool),
    MotionDetection(bool),
    MarkEpoch(bool),
}

/// A rejected write: the payload length did not match the attribute's
/// type.
#[derive(Clone, Copy, Debug, PartialEq, Eq, Structural)]
pub struct DecodeError {
    pub expected: usize,
    pub actual: usize,
}

/// The exact payload width each writable attribute accepts.
pub open spec fn spec_expected_write_len(attr: WriteAttribute) -> usize {
    match attr {
        WriteAttribute::MotionReadDuration => 2usize,
        WriteAttribute::MotionSampleInterval => 8usize,
        WriteAttribute::ContinuousSampleInterval => 8usize,
        WriteAttribute::PlaySound => 1usize,
        WriteAttribute::GyroScale => 1usize,
        WriteAttribute::AccelScale => 1usize,
        WriteAttribute::BuzzFrequencyMode => 1usize,
        WriteAttribute::MinBuzzValue => 4usize,
        WriteAttribute::MaxBuzzValue => 4usize,
        WriteAttribute::DigitalLowPassFilter => 1usize,
        WriteAttribute::Read => 1usize,
        WriteAttribute::MotionDetection => 1usize,
        WriteAttribute::MarkEpoch => 1usize,
    }
}

/// The update decoded from a correctly-sized payload.
pub open spec fn spec_decode_write(attr: WriteAttribute, s: Seq<u8>) -> ConfigUpdate
    recommends
        s.len() == spec_expected_write_len(attr),
{
    match attr {
        WriteAttribute::MotionReadDuration => ConfigUpdate::MotionReadDuration(
            spec_u16_from_le_bytes(s),
        ),
        WriteAttribute::MotionSampleInterval => ConfigUpdate::MotionSampleInterval(
            spec_u64_from_le_bytes(s),
        ),
        WriteAttribute::ContinuousSampleInterval => ConfigUpdate::ContinuousSampleInterval(
            spec_u64_from_le_bytes(s),
        ),
        WriteAttribute::PlaySound => ConfigUpdate::PlaySound(s[0] != 0),
        WriteAttribute::GyroScale => ConfigUpdate::GyroScale(s[0]),
        WriteAttribute::AccelScale => ConfigUpdate::AccelScale(s[0]),
        WriteAttribute::BuzzFrequencyMode => ConfigUpdate::BuzzFrequencyMode(
            spec_mode_from_u8(s[0]),
        ),
        WriteAttribute::MinBuzzValue => ConfigUpdate::MinBuzzValue(spec_u32_from_le_bytes(s)),
        WriteAttribute::MaxBuzzValue => ConfigUpdate::MaxBuzzValue(spec_u32_from_le_bytes(s)),
        WriteAttribute::DigitalLowPassFilter => ConfigUpdate::Filter(s[0]),
        WriteAttribute::Read => ConfigUpdate::Read(s[0] != 0),
        WriteAttribute::MotionDetection => ConfigUpdate::MotionDetection(s[0] != 0),
        WriteAttribute::MarkEpoch => ConfigUpdate::MarkEpoch(s[0] != 0),
    }
}

/// The bus after one decoded update: exactly the targeted entry changes.
///
/// Interval and duration writes replace a guarded value; every other
/// write raises a level signal; a zero-valued mark-epoch write is a
/// no-op.
pub open spec fn spec_apply_update(bus: StateBus, update: ConfigUpdate) -> StateBus {
    match update {
        ConfigUpdate::MotionReadDuration(v) => StateBus { motion_read_duration_s: v, ..bus },
        ConfigUpdate::MotionSampleInterval(v) => StateBus { motion_sample_interval_ms: v, ..bus },
        ConfigUpdate::ContinuousSampleInterval(v) => StateBus {
            continuous_sample_interval_ms: v,
            ..bus
        },
        ConfigUpdate::PlaySound(v) => StateBus { play_sound: Some(v), ..bus },
        ConfigUpdate::GyroScale(v) => StateBus { gyro_scale: Some(v), ..bus },
        ConfigUpdate::AccelScale(v) => StateBus { accel_scale: Some(v), ..bus },
        ConfigUpdate::BuzzFrequencyMode(v) => StateBus { buzz_frequency_mode: Some(v), ..bus },
        ConfigUpdate::MinBuzzValue(v) => StateBus { min_buzz_value: Some(v), ..bus },
        ConfigUpdate::MaxBuzzValue(v) => StateBus { max_buzz_value: Some(v), ..bus },
        ConfigUpdate::Filter(v) => StateBus { filter: Some(v), ..bus },
        ConfigUpdate::Read(v) => StateBus { read: Some(v), ..bus },
        ConfigUpdate::MotionDetection(v) => StateBus { motion_detection: Some(v), ..bus },
        ConfigUpdate::MarkEpoch(v) => if v {
            StateBus { mark_epoch_pending: true, ..bus }
        } else {
            bus
        },
    }
}

/// Decodes a client write for the given attribute, rejecting any payload
/// whose length is not exactly the width of the attribute's type.
pub fn decode_write(attr: WriteAttribute, data: &[u8]) -> (r: Result<ConfigUpdate, DecodeError>)
    ensures
        data@.len() == spec_expected_write_len(attr) ==> r == Ok::<ConfigUpdate, DecodeError>(
            spec_decode_write(attr, data@),
        ),
        data@.len() != spec_expected_write_len(attr) ==> r == Err::<ConfigUpdate, DecodeError>(
            DecodeError {
                expected: spec_expected_write_len(attr),
                actual: data@.len() as usize,
            },
        ),
{
    let expected: usize = match attr {
        WriteAttribute::MotionReadDuration => 2,
        WriteAttribute::MotionSampleInterval => 8,
        WriteAttribute::ContinuousSampleInterval => 8,
        WriteAttribute::PlaySound => 1,
        WriteAttribute::GyroScale => 1,
        WriteAttribute::AccelScale => 1,
        WriteAttribute::BuzzFrequencyMode => 1,
        WriteAttribute::MinBuzzValue => 4,
        WriteAttribute::MaxBuzzValue => 4,
        WriteAttribute::DigitalLowPassFilter => 1,
        WriteAttribute::Read => 1,
        WriteAttribute::MotionDetection => 1,
        WriteAttribute::MarkEpoch => 1,
    };
    if data.len() != expected {
        return Err(DecodeError { expected, actual: data.len() });
    }
    let update = match attr {
        WriteAttribute::MotionReadDuration => ConfigUpdate::MotionReadDuration(
            u16_from_le_bytes(data),
        ),
        WriteAttribute::MotionSampleInterval => ConfigUpdate::MotionSampleInterval(
            u64_from_le_bytes(data),
        ),
        WriteAttribute::ContinuousSampleInterval => ConfigUpdate::ContinuousSampleInterval(
            u64_from_le_bytes(data),
        ),
        WriteAttribute::PlaySound => ConfigUpdate::PlaySound(
            *vstd::slice::slice_index_get(data, 0) != 0,
        ),
        WriteAttribute::GyroScale => ConfigUpdate::GyroScale(*vstd::slice::slice_index_get(data, 0)),
        WriteAttribute::AccelScale => ConfigUpdate::AccelScale(
            *vstd::slice::slice_index_get(data, 0),
        ),
        WriteAttribute::BuzzFrequencyMode => ConfigUpdate::BuzzFrequencyMode(
            BuzzFrequencyMode::from(*vstd::slice::slice_index_get(data, 0)),
        ),
        WriteAttribute::MinBuzzValue => ConfigUpdate::MinBuzzValue(u32_from_le_bytes(data)),
        WriteAttribute::MaxBuzzValue => ConfigUpdate::MaxBuzzValue(u32_from_le_bytes(data)),
        WriteAttribute::DigitalLowPassFilter => ConfigUpdate::Filter(
            *vstd::slice::slice_index_get(data, 0),
        ),
        WriteAttribute::Read => ConfigUpdate::Read(*vstd::slice::slice_index_get(data, 0) != 0),
        WriteAttribute::MotionDetection => ConfigUpdate::MotionDetection(
            *vstd::slice::slice_index_get(data, 0) != 0,
        ),
        WriteAttribute::MarkEpoch => ConfigUpdate::MarkEpoch(
            *vstd::slice::slice_index_get(data, 0) != 0,
        ),
    };
    Ok(update)
}

/// Publishes a decoded update onto the bus, changing exactly the
/// targeted entry.
pub fn apply_update(bus: &mut StateBus, update: ConfigUpdate)
    ensures
        *final(bus) == spec_apply_update(*old(bus), update),
{
    match update {
        ConfigUpdate::MotionReadDuration(v) => {
            bus.motion_read_duration_s = v;
        },
        ConfigUpdate::MotionSampleInterval(v) => {
            bus.motion_sample_interval_ms = v;
        },
        ConfigUpdate::ContinuousSampleInterval(v) => {
            bus.continuous_sample_interval_ms = v;
        },
        ConfigUpdate::PlaySound(v) => {
            bus.play_sound = Some(v);
        },
        ConfigUpdate::GyroScale(v) => {
            bus.gyro_scale = Some(v);
        },
        ConfigUpdate::AccelScale(v) => {
            bus.accel_scale = Some(v);
        },
        ConfigUpdate::BuzzFrequencyMode(v) => {
            bus.buzz_frequency_mode = Some(v);
        },
        ConfigUpdate::MinBuzzValue(v) => {
            bus.min_buzz_value = Some(v);
        },
        ConfigUpdate::MaxBuzzValue(v) => {
            bus.max_buzz_value = Some(v);
        },
        ConfigUpdate::Filter(v) => {
            bus.filter = Some(v);
        },
        ConfigUpdate::Read(v) => {
            bus.read = Some(v);
        },
        ConfigUpdate::MotionDetection(v) => {
            bus.motion_detection = Some(v);
        },
        ConfigUpdate::MarkEpoch(v) => {
            if v {
                bus.mark_epoch_pending = true;
            }
        },
    }
}

/// Handles one attribute write event: a correctly-sized payload updates
/// exactly the targeted bus entry, a wrong-length payload is rejected
/// and the bus is left untouched.  The caller still acknowledges the
/// event either way.
pub fn handle_write(bus: &mut StateBus, attr: WriteAttribute, data: &[u8]) -> (r: Result<
    (),
    DecodeError,
>)
    ensures
        data@.len() == spec_expected_write_len(attr) ==> r == Ok::<(), DecodeError>(())
            && *final(bus) == spec_apply_update(*old(bus), spec_decode_write(attr, data@)),
        data@.len() != spec_expected_write_len(attr) ==> r == Err::<(), DecodeError>(
            DecodeError {
                expected: spec_expected_write_len(attr),
                actual: data@.len() as usize,
            },
        ) && *final(bus) == *old(bus),
{
    match decode_write(attr, data) {
        Ok(update) => {
            apply_update(bus, update);
            Ok(())
        },
        Err(e) => Err(e),
    }
}

/// The notification-payload image of one sample for the accelerometer
/// stream: timestamp bytes, then the accelerometer scale and axes.
pub open spec fn spec_accel_entry(d: SensorData) -> Seq<u8> {
    spec_wire_bytes(d).subrange(14, 18) + spec_wire_bytes(d).subrange(0, 7)
}

/// The notification-payload image of one sample for the gyroscope
/// stream: timestamp bytes, then the gyroscope scale and axes.
pub open spec fn spec_gyro_entry(d: SensorData) -> Seq<u8> {
    spec_wire_bytes(d).subrange(14, 18) + spec_wire_bytes(d).subrange(7, 14)
}

/// The accelerometer notification payload for a batch, entries in batch
/// order.
pub open spec fn spec_accel_batch(samples: Seq<SensorData>) -> Seq<u8>
    decreases samples.len(),
{
    if samples.len() == 0 {
        Seq::empty()
    } else {
        spec_accel_entry(samples[0]) + spec_accel_batch(samples.drop_first())
    }
}

/// The gyroscope notification payload for a batch, entries in batch
/// order.
pub open spec fn spec_gyro_batch(samples: Seq<SensorData>) -> Seq<u8>
    decreases samples.len(),
{
    if samples.len() == 0 {
        Seq::empty()
    } else {
        spec_gyro_entry(samples[0]) + spec_gyro_batch(samples.drop_first())
    }
}

/// Appending one sample to a batch appends its payload entries.
pub proof fn lemma_batch_push(samples: Seq<SensorData>, d: SensorData)
    ensures
        spec_accel_batch(samples.push(d)) == spec_accel_batch(samples) + spec_accel_entry(d),
        spec_gyro_batch(samples.push(d)) == spec_gyro_batch(samples) + spec_gyro_entry(d),
    decreases samples.len(),
{
    if samples.len() == 0 {
        assert(samples.push(d).drop_first() =~= samples);
        assert(samples.push(d)[0] == d);
        assert(spec_accel_batch(samples.push(d)) =~= spec_accel_batch(samples)
            + spec_accel_entry(d));
        assert(spec_gyro_batch(samples.push(d)) =~= spec_gyro_batch(samples) + spec_gyro_entry(d));
    } else {
        lemma_batch_push(samples.drop_first(), d);
        assert(samples.push(d).drop_first() =~= samples.drop_first().push(d));
        assert(spec_accel_batch(samples.push(d)) =~= spec_accel_batch(samples)
            + spec_accel_entry(d));
        assert(spec_gyro_batch(samples.push(d)) =~= spec_gyro_batch(samples) + spec_gyro_entry(d));
    }
}

/// Appends `src[from..to]` to `dst`.
fn extend_subrange(dst: &mut Vec<u8>, src: &Vec<u8>, from: usize, to: usize)
    requires
        from <= to <= src@.len(),
    ensures
        final(dst)@ == old(dst)@ + src@.subrange(from as int, to as int),
{
    let ghost base = dst@;
    let mut k = from;
    while k < to
        invariant
            from <= k <= to <= src@.len(),
            dst@ == base + src@.subrange(from as int, k as int),
        decreases to - k,
    {
        dst.push(src[k]);
        k = k + 1;
        proof {
            assert(dst@ =~= base + src@.subrange(from as int, k as int));
        }
    }
}

/// Packs a batch into the two notification payloads: for each sample in
/// order, the accelerometer stream carries its timestamp, scale and
/// accelerometer axes, and the gyroscope stream its timestamp, scale and
/// gyroscope axes.
pub fn pack_batches(samples: &Vec<SensorData>) -> (r: (Vec<u8>, Vec<u8>))
    ensures
        r.0@ == spec_accel_batch(samples@),
        r.1@ == spec_gyro_batch(samples@),
{
    let mut accel_batch: Vec<u8> = Vec::new();
    let mut gyro_batch: Vec<u8> = Vec::new();
    let mut buf: Vec<u8> = Vec::new();
    let mut i: usize = 0;
    proof {
        assert(samples@.take(0) =~= Seq::<SensorData>::empty());
    }
    while i < samples.len()
        invariant
            i <= samples@.len(),
            accel_batch@ == spec_accel_batch(samples@.take(i as int)),
            gyro_batch@ == spec_gyro_batch(samples@.take(i as int)),
        decreases samples@.len() - i,
    {
        let d = samples[i];
        d.write_to_vec(&mut buf);
        proof {
            lemma_wire_bytes_len(d);
        }
        let ghost accel_before = accel_batch@;
        let ghost gyro_before = gyro_batch@;
        extend_subrange(&mut accel_batch, &buf, 14, 18);
        extend_subrange(&mut accel_batch, &buf, 0, 7);
        extend_subrange(&mut gyro_batch, &buf, 14, 18);
        extend_subrange(&mut gyro_batch, &buf, 7, 14);
        proof {
            assert(accel_batch@ =~= accel_before + spec_accel_entry(d));
            assert(gyro_batch@ =~= gyro_before + spec_gyro_entry(d));
            lemma_batch_push(samples@.take(i as int), d);
            assert(samples@.take(i as int).push(d) =~= samples@.take(i + 1));
        }
        i = i + 1;
    }
    proof {
        assert(samples@.take(samples@.len() as int) =~= samples@);
    }
    (accel_batch, gyro_batch)
}

/// One pass of the notification loop's packing stage: drains up to
/// [`NOTIFY_BATCH_MAX`] queued samples, oldest first, and packs them into
/// the two payloads.  An empty pipeline yields nothing; the caller waits
/// for a sample instead.
pub fn build_notification(pipeline: &mut SamplePipeline) -> (r: Option<(Vec<u8>, Vec<u8>)>)
    requires
        old(pipeline).wf(),
    ensures
        final(pipeline).wf(),
        final(pipeline).spec_capacity() == old(pipeline).spec_capacity(),
        old(pipeline)@.len() == 0 ==> r is None && final(pipeline)@ == old(pipeline)@,
        old(pipeline)@.len() > 0 ==> {
            let count = if old(pipeline)@.len() < NOTIFY_BATCH_MAX {
                old(pipeline)@.len() as int
            } else {
                NOTIFY_BATCH_MAX as int
            };
            &&& r matches Some(payloads)
            &&& payloads.0@ == spec_accel_batch(old(pipeline)@.take(count))
            &&& payloads.1@ == spec_gyro_batch(old(pipeline)@.take(count))
            &&& final(pipeline)@ == old(pipeline)@.skip(count)
        },
{
    if pipeline.is_empty() {
        return None;
    }
    let batch = pipeline.drain(NOTIFY_BATCH_MAX);
    let payloads = pack_batches(&batch);
    Some(payloads)
}

} // verus!
