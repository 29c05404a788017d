use mputest::sample::SensorData;
use mputest::sample::ToBytes;
use mputest::sample::WIRE_SAMPLE_BYTES;

fn example_sample() -> SensorData {
    SensorData {
        accel_x: -2,
        accel_y: 300,
        accel_z: i16::MIN,
        accel_scale: 1,
        gyro_x: i16::MAX,
        gyro_y: -1000,
        gyro_z: 7,
        gyro_scale: 3,
        timestamp_ms: 0xDEAD_BEEF,
    }
}

#[test]
fn zero_sample_is_all_zeroes() {
    let z = SensorData::zero();
    assert_eq!(z.accel_x, 0);
    assert_eq!(z.accel_y, 0);
    assert_eq!(z.accel_z, 0);
    assert_eq!(z.accel_scale, 0);
    assert_eq!(z.gyro_x, 0);
    assert_eq!(z.gyro_y, 0);
    assert_eq!(z.gyro_z, 0);
    assert_eq!(z.gyro_scale, 0);
    assert_eq!(z.timestamp_ms, 0);
}

#[test]
fn wire_layout_is_scale_axes_scale_axes_timestamp() {
    let d = SensorData {
        accel_x: 0x0102,
        accel_y: -2,
        accel_z: 0x7FFF,
        accel_scale: 9,
        gyro_x: 0x0304,
        gyro_y: 0,
        gyro_z: -1,
        gyro_scale: 2,
        timestamp_ms: 0x0A0B0C0D,
    };
    let mut buf: Vec<u8> = Vec::new();
    d.write_to_vec(&mut buf);
    assert_eq!(buf.len(), WIRE_SAMPLE_BYTES);
    assert_eq!(
        buf,
        vec![
            9, // accel scale
            0x02, 0x01, // accel x, little endian
            0xFE, 0xFF, // accel y, two's complement
            0xFF, 0x7F, // accel z
            2,    // gyro scale
            0x04, 0x03, // gyro x
            0x00, 0x00, // gyro y
            0xFF, 0xFF, // gyro z
            0x0D, 0x0C, 0x0B, 0x0A, // timestamp, little endian
        ]
    );
}

#[test]
fn wire_round_trip_recovers_every_field() {
    let d = example_sample();
    let mut buf: Vec<u8> = Vec::new();
    d.write_to_vec(&mut buf);
    let back = SensorData::from_wire(&buf).unwrap();
    assert_eq!(back, d);
}

#[test]
fn wire_round_trip_recovers_the_zero_sample() {
    let d = SensorData::zero();
    let mut buf: Vec<u8> = Vec::new();
    d.write_to_vec(&mut buf);
    assert_eq!(buf, vec![0u8; 18]);
    assert_eq!(SensorData::from_wire(&buf), Some(d));
}

#[test]
fn decoding_rejects_wrong_lengths() {
    assert_eq!(SensorData::from_wire(&[]), None);
    assert_eq!(SensorData::from_wire(&[0u8; 17]), None);
    assert_eq!(SensorData::from_wire(&[0u8; 19]), None);
}

#[test]
fn serialization_replaces_previous_buffer_contents() {
    let d = example_sample();
    let mut buf: Vec<u8> = vec![1, 2, 3, 4, 5];
    d.write_to_vec(&mut buf);
    assert_eq!(buf.len(), WIRE_SAMPLE_BYTES);
    let mut fresh: Vec<u8> = Vec::new();
    d.write_to_vec(&mut fresh);
    assert_eq!(buf, fresh);
}
