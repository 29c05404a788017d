use mputest::blink::BlinkState;
use mputest::blink::BlinkWake;
use mputest::config::AccelFullScale;
use mputest::config::AccelFullScaleFromU8;
use mputest::config::BuzzFrequencyMode;
use mputest::config::DigitalLowPassFilter;
use mputest::config::DigitalLowPassFilterFromU8;
use mputest::config::GyroFullScale;
use mputest::config::GyroFullScaleFromU8;
use mputest::config::SensorConfig;

fn base_config() -> SensorConfig {
    SensorConfig {
        accel_scale: 0,
        gyro_scale: 3,
        buzz_frequency_mode: BuzzFrequencyMode::AccelX,
        filter: 1,
        motion_detection: true,
    }
}

#[test]
fn scale_bytes_decode_in_range_and_reject_out_of_range() {
    assert_eq!(AccelFullScale::from_u8(0), Some(AccelFullScale::G2));
    assert_eq!(AccelFullScale::from_u8(3), Some(AccelFullScale::G16));
    assert_eq!(AccelFullScale::from_u8(4), None);
    assert_eq!(GyroFullScale::from_u8(0), Some(GyroFullScale::Deg250));
    assert_eq!(GyroFullScale::from_u8(3), Some(GyroFullScale::Deg2000));
    assert_eq!(GyroFullScale::from_u8(200), None);
    assert_eq!(DigitalLowPassFilter::from_u8(0), Some(DigitalLowPassFilter::Filter0));
    assert_eq!(DigitalLowPassFilter::from_u8(6), Some(DigitalLowPassFilter::Filter6));
    assert_eq!(DigitalLowPassFilter::from_u8(7), None);
}

#[test]
fn mode_bytes_round_trip_and_fall_back_to_the_default() {
    let modes = [
        BuzzFrequencyMode::AccelX,
        BuzzFrequencyMode::AccelY,
        BuzzFrequencyMode::AccelZ,
        BuzzFrequencyMode::GyroX,
        BuzzFrequencyMode::GyroY,
        BuzzFrequencyMode::GyroZ,
        BuzzFrequencyMode::AccelMagnitude,
        BuzzFrequencyMode::GyroMagnitude,
    ];
    for (i, mode) in modes.iter().enumerate() {
        assert_eq!(u8::from(*mode), i as u8);
        assert_eq!(BuzzFrequencyMode::from(i as u8), *mode);
    }
    assert_eq!(BuzzFrequencyMode::from(8), BuzzFrequencyMode::AccelX);
    assert_eq!(BuzzFrequencyMode::from(255), BuzzFrequencyMode::AccelX);
}

#[test]
fn absent_intents_leave_the_snapshot_unchanged() {
    let mut config = base_config();
    let before = config;
    config.apply_buzz_frequency_mode(None);
    assert_eq!(config.apply_accel_scale(None), None);
    assert_eq!(config.apply_gyro_scale(None), None);
    assert_eq!(config.apply_filter(None), None);
    config.apply_motion_detection(None);
    assert_eq!(config, before);
}

#[test]
fn applied_intents_record_the_raw_byte_and_command_the_decoded_value() {
    let mut config = base_config();
    assert_eq!(config.apply_accel_scale(Some(1)), Some(AccelFullScale::G4));
    assert_eq!(config.accel_scale, 1);
    assert_eq!(config.apply_gyro_scale(Some(2)), Some(GyroFullScale::Deg1000));
    assert_eq!(config.gyro_scale, 2);
    assert_eq!(config.apply_filter(Some(5)), Some(DigitalLowPassFilter::Filter5));
    assert_eq!(config.filter, 5);
    config.apply_buzz_frequency_mode(Some(BuzzFrequencyMode::GyroY));
    assert_eq!(config.buzz_frequency_mode, BuzzFrequencyMode::GyroY);
    config.apply_motion_detection(Some(false));
    assert!(!config.motion_detection);
}

#[test]
fn out_of_range_scale_intents_fall_back_to_the_default_range() {
    let mut config = base_config();
    assert_eq!(config.apply_accel_scale(Some(77)), Some(AccelFullScale::G2));
    assert_eq!(config.accel_scale, 77);
    assert_eq!(config.apply_gyro_scale(Some(77)), Some(GyroFullScale::Deg2000));
    assert_eq!(config.apply_filter(Some(77)), Some(DigitalLowPassFilter::Filter1));
}

#[test]
fn blink_task_toggles_on_timers_and_restarts_on_updates() {
    let mut state = BlinkState::initial(1000);
    assert!(state.led_on);
    state.step(BlinkWake::TimerFired);
    assert!(!state.led_on);
    assert_eq!(state.interval_ms, 1000);
    state.step(BlinkWake::TimerFired);
    assert!(state.led_on);
    // an update mid-cycle restarts the full on/off cycle
    state.step(BlinkWake::TimerFired);
    state.step(BlinkWake::NewInterval(10));
    assert!(state.led_on);
    assert_eq!(state.interval_ms, 10);
}
