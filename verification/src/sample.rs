//! Timestamped motion samples and their fixed-width wire format.
//!
//! A sample is serialized as 18 little-endian bytes: the accelerometer
//! scale byte and its three axes, the gyroscope scale byte and its three
//! axes, then the 4-byte timestamp.  The format is not self-describing;
//! the decoder relies on exactly this layout.

use vstd::bytes::*;
use vstd::prelude::*;

verus! {

/// Number of bytes one sample occupies on the wire.
pub const WIRE_SAMPLE_BYTES: usize = 18;

/// One timestamped motion sample, produced by the detection loop and
/// consumed exactly once by the notifier.
///
/// `timestamp_ms` is relative to the rolling epoch; it wraps after about
/// 49 days and is monotonic within an epoch.
#[derive(Clone, Copy, Debug, PartialEq, Eq, Structural)]
pub struct SensorData {
    pub accel_x: i16,
    pub accel_y: i16,
    pub accel_z: i16,
    pub accel_scale: u8,
    pub gyro_x: i16,
    pub gyro_y: i16,
    pub gyro_z: i16,
    pub gyro_scale: u8,
    pub timestamp_ms: u32,
}

/// The 18-byte wire image of a sample.
pub open spec fn spec_wire_bytes(d: SensorData) -> Seq<u8> {
    seq![d.accel_scale]
        + spec_u16_to_le_bytes(d.accel_x as u16)
        + spec_u16_to_le_bytes(d.accel_y as u16)
        + spec_u16_to_le_bytes(d.accel_z as u16)
        + seq![d.gyro_scale]
        + spec_u16_to_le_bytes(d.gyro_x as u16)
        + spec_u16_to_le_bytes(d.gyro_y as u16)
        + spec_u16_to_le_bytes(d.gyro_z as u16)
        + spec_u32_to_le_bytes(d.timestamp_ms)
}

/// The sample read back from an 18-byte wire image.
pub open spec fn spec_wire_decode(s: Seq<u8>) -> SensorData {
    SensorData {
        accel_scale: s[0],
        accel_x: spec_u16_from_le_bytes(s.subrange(1, 3)) as i16,
        accel_y: spec_u16_from_le_bytes(s.subrange(3, 5)) as i16,
        accel_z: spec_u16_from_le_bytes(s.subrange(5, 7)) as i16,
        gyro_scale: s[7],
        gyro_x: spec_u16_from_le_bytes(s.subrange(8, 10)) as i16,
        gyro_y: spec_u16_from_le_bytes(s.subrange(10, 12)) as i16,
        gyro_z: spec_u16_from_le_bytes(s.subrange(12, 14)) as i16,
        timestamp_ms: spec_u32_from_le_bytes(s.subrange(14, 18)),
    }
}

/// Appends the little-endian image of `x` to `vec`.
fn push_u16_le(vec: &mut Vec<u8>, x: u16)
    ensures
        final(vec)@ == old(vec)@ + spec_u16_to_le_bytes(x),
{
    let bytes = u16_to_le_bytes(x);
    let ghost mid = vec@;
    vec.push(bytes[0]);
    vec.push(bytes[1]);
    proof {
        assert(bytes@ =~= seq![bytes@[0], bytes@[1]]);
        assert(vec@ =~= mid + bytes@);
    }
}

/// Appends the little-endian image of `x` to `vec`.
fn push_u32_le(vec: &mut Vec<u8>, x: u32)
    ensures
        final(vec)@ == old(vec)@ + spec_u32_to_le_bytes(x),
{
    let bytes = u32_to_le_bytes(x);
    let ghost mid = vec@;
    vec.push(bytes[0]);
    vec.push(bytes[1]);
    vec.push(bytes[2]);
    vec.push(bytes[3]);
    proof {
        assert(bytes@ =~= seq![bytes@[0], bytes@[1], bytes@[2], bytes@[3]]);
        assert(vec@ =~= mid + bytes@);
    }
}

impl SensorData {
    /// The all-zero sample, used to pre-fill fixed storage.
    pub fn zero() -> (r: Self)
        ensures
            r == (SensorData {
                accel_x: 0i16,
                accel_y: 0i16,
                accel_z: 0i16,
                accel_scale: 0u8,
                gyro_x: 0i16,
                gyro_y: 0i16,
                gyro_z: 0i16,
                gyro_scale: 0u8,
                timestamp_ms: 0u32,
            }),
    {
        SensorData {
            accel_x: 0,
            accel_y: 0,
            accel_z: 0,
            accel_scale: 0,
            gyro_x: 0,
            gyro_y: 0,
            gyro_z: 0,
            gyro_scale: 0,
            timestamp_ms: 0,
        }
    }

    /// Reads a sample back from its wire image; any slice that is not
    /// exactly 18 bytes long is rejected.
    pub fn from_wire(bytes: &[u8]) -> (r: Option<SensorData>)
        ensures
            bytes@.len() == WIRE_SAMPLE_BYTES ==> r == Some(spec_wire_decode(bytes@)),
            bytes@.len() != WIRE_SAMPLE_BYTES ==> r is None,
    {
        if bytes.len() != WIRE_SAMPLE_BYTES {
            return None;
        }
        let accel_scale = *vstd::slice::slice_index_get(bytes, 0);
        let accel_x = u16_from_le_bytes(vstd::slice::slice_subrange(bytes, 1, 3)) as i16;
        let accel_y = u16_from_le_bytes(vstd::slice::slice_subrange(bytes, 3, 5)) as i16;
        let accel_z = u16_from_le_bytes(vstd::slice::slice_subrange(bytes, 5, 7)) as i16;
        let gyro_scale = *vstd::slice::slice_index_get(bytes, 7);
        let gyro_x = u16_from_le_bytes(vstd::slice::slice_subrange(bytes, 8, 10)) as i16;
        let gyro_y = u16_from_le_bytes(vstd::slice::slice_subrange(bytes, 10, 12)) as i16;
        let gyro_z = u16_from_le_bytes(vstd::slice::slice_subrange(bytes, 12, 14)) as i16;
        let timestamp_ms = u32_from_le_bytes(vstd::slice::slice_subrange(bytes, 14, 18));
        Some(SensorData {
            accel_x,
            accel_y,
            accel_z,
            accel_scale,
            gyro_x,
            gyro_y,
            gyro_z,
            gyro_scale,
            timestamp_ms,
        })
    }
}

/// Types with a fixed-width little-endian wire image.
pub trait ToBytes {
    /// The wire image of this value.
    spec fn spec_bytes(&self) -> Seq<u8>;

    /// Replaces the contents of `vec` with the wire image of this value.
    fn write_to_vec(&self, vec: &mut Vec<u8>)
        ensures
            final(vec)@ == self.spec_bytes(),
    ;
}

impl ToBytes for SensorData {
    open spec fn spec_bytes(&self) -> Seq<u8> {
        spec_wire_bytes(*self)
    }

    fn write_to_vec(&self, vec: &mut Vec<u8>) {
        vec.clear();
        vec.push(self.accel_scale);
        push_u16_le(vec, self.accel_x as u16);
        push_u16_le(vec, self.accel_y as u16);
        push_u16_le(vec, self.accel_z as u16);
        vec.push(self.gyro_scale);
        push_u16_le(vec, self.gyro_x as u16);
        push_u16_le(vec, self.gyro_y as u16);
        push_u16_le(vec, self.gyro_z as u16);
        push_u32_le(vec, self.timestamp_ms);
        proof {
            assert(vec@ =~= spec_wire_bytes(*self));
            vstd::bytes::lemma_auto_spec_u16_to_from_le_bytes();
            vstd::bytes::lemma_auto_spec_u32_to_from_le_bytes();
        }
    }
}

/// The wire image of every sample is exactly 18 bytes long.
pub proof fn lemma_wire_bytes_len(d: SensorData)
    ensures
        spec_wire_bytes(d).len() == WIRE_SAMPLE_BYTES,
{
    lemma_auto_spec_u16_to_from_le_bytes();
    lemma_auto_spec_u32_to_from_le_bytes();
}

/// Widening a signed axis to its unsigned wire image and narrowing back
/// recovers the original value.
proof fn lemma_u16_i16_round_trip(x: i16)
    ensures
        (x as u16) as i16 == x,
{
    assert((x as u16) as i16 == x) by (bit_vector);
}

/// Decoding the wire image of a sample recovers the sample exactly: the
/// scale bytes, every axis value, and the timestamp.
pub proof fn lemma_wire_round_trip(d: SensorData)
    ensures
        spec_wire_decode(spec_wire_bytes(d)) == d,
{
    let s = spec_wire_bytes(d);
    lemma_auto_spec_u16_to_from_le_bytes();
    lemma_auto_spec_u32_to_from_le_bytes();
    assert(s.subrange(1, 3) =~= spec_u16_to_le_bytes(d.accel_x as u16));
    assert(s.subrange(3, 5) =~= spec_u16_to_le_bytes(d.accel_y as u16));
    assert(s.subrange(5, 7) =~= spec_u16_to_le_bytes(d.accel_z as u16));
    assert(s.subrange(8, 10) =~= spec_u16_to_le_bytes(d.gyro_x as u16));
    assert(s.subrange(10, 12) =~= spec_u16_to_le_bytes(d.gyro_y as u16));
    assert(s.subrange(12, 14) =~= spec_u16_to_le_bytes(d.gyro_z as u16));
    assert(s.subrange(14, 18) =~= spec_u32_to_le_bytes(d.timestamp_ms));
    lemma_u16_i16_round_trip(d.accel_x);
    lemma_u16_i16_round_trip(d.accel_y);
    lemma_u16_i16_round_trip(d.accel_z);
    lemma_u16_i16_round_trip(d.gyro_x);
    lemma_u16_i16_round_trip(d.gyro_y);
    lemma_u16_i16_round_trip(d.gyro_z);
}

} // verus!
