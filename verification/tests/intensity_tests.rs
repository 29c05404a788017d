use mputest::config::BuzzFrequencyMode;
use mputest::intensity::compute_buzz_frequency;
use mputest::intensity::Accel;
use mputest::intensity::Gyro;

#[test]
fn sensor_test_compute_buzz_frequency_handles_i16_min() {
    // Accel and Gyro with x = i16::MIN, others arbitrary
    let accel = Accel::new(i16::MIN, -100, 200);
    let gyro = Gyro::new(i16::MIN, 0, 0);

    // Should not panic, should return 32768 for the absolute value
    assert_eq!(
        compute_buzz_frequency(&accel, &gyro, BuzzFrequencyMode::AccelX),
        32768
    );
    assert_eq!(
        compute_buzz_frequency(&Accel::new(i16::MIN, 0, 0), &gyro, BuzzFrequencyMode::GyroX),
        32768
    );

    // Magnitude should also not panic and return a valid value
    let mag = compute_buzz_frequency(&accel, &gyro, BuzzFrequencyMode::AccelMagnitude);
    assert!(mag > 32768);

    let mag_gyro = compute_buzz_frequency(&accel, &gyro, BuzzFrequencyMode::GyroMagnitude);
    assert!(mag_gyro >= 32768);
}

#[test]
fn init_test_compute_buzz_frequency_handles_i16_min() {
    // Accel and Gyro with x = i16::MIN, others arbitrary
    let accel = Accel::new(i16::MIN, -100, 200);
    let gyro = Gyro::new(i16::MIN, 0, 0);

    // Should not panic, should return 32768 for the absolute value
    assert_eq!(
        compute_buzz_frequency(&accel, &gyro, BuzzFrequencyMode::AccelX),
        32768
    );
    assert_eq!(
        compute_buzz_frequency(&Accel::new(i16::MIN, 0, 0), &gyro, BuzzFrequencyMode::GyroX),
        32768
    );

    // Magnitude should also not panic and return a valid value
    let mag = compute_buzz_frequency(&accel, &gyro, BuzzFrequencyMode::AccelMagnitude);
    assert!(mag > 32768);

    let mag_gyro = compute_buzz_frequency(&accel, &gyro, BuzzFrequencyMode::GyroMagnitude);
    assert!(mag_gyro >= 32768);
}

#[test]
fn single_axis_modes_pick_the_right_axis() {
    let accel = Accel::new(1, -2, 3);
    let gyro = Gyro::new(-4, 5, -6);
    assert_eq!(compute_buzz_frequency(&accel, &gyro, BuzzFrequencyMode::AccelX), 1);
    assert_eq!(compute_buzz_frequency(&accel, &gyro, BuzzFrequencyMode::AccelY), 2);
    assert_eq!(compute_buzz_frequency(&accel, &gyro, BuzzFrequencyMode::AccelZ), 3);
    assert_eq!(compute_buzz_frequency(&accel, &gyro, BuzzFrequencyMode::GyroX), 4);
    assert_eq!(compute_buzz_frequency(&accel, &gyro, BuzzFrequencyMode::GyroY), 5);
    assert_eq!(compute_buzz_frequency(&accel, &gyro, BuzzFrequencyMode::GyroZ), 6);
}

#[test]
fn magnitude_is_the_rounded_euclidean_norm() {
    let accel = Accel::new(3, 4, 0);
    let gyro = Gyro::new(2, 3, 6);
    // sqrt(9 + 16) = 5 exactly
    assert_eq!(
        compute_buzz_frequency(&accel, &gyro, BuzzFrequencyMode::AccelMagnitude),
        5
    );
    // sqrt(4 + 9 + 36) = 7 exactly
    assert_eq!(
        compute_buzz_frequency(&accel, &gyro, BuzzFrequencyMode::GyroMagnitude),
        7
    );
    // sqrt(1 + 1) = 1.414... rounds down
    assert_eq!(
        compute_buzz_frequency(&Accel::new(1, 1, 0), &gyro, BuzzFrequencyMode::AccelMagnitude),
        1
    );
    // sqrt(4 + 4) = 2.828... rounds up
    assert_eq!(
        compute_buzz_frequency(&Accel::new(2, 2, 0), &gyro, BuzzFrequencyMode::AccelMagnitude),
        3
    );
}

#[test]
fn magnitude_handles_all_axes_at_the_extremes() {
    let accel = Accel::new(i16::MIN, i16::MIN, i16::MIN);
    let gyro = Gyro::new(i16::MAX, i16::MAX, i16::MAX);
    // sqrt(3 * 32768^2) = 56755.84... rounds up
    assert_eq!(
        compute_buzz_frequency(&accel, &gyro, BuzzFrequencyMode::AccelMagnitude),
        56756
    );
    // sqrt(3 * 32767^2) = 56754.1... rounds down
    assert_eq!(
        compute_buzz_frequency(&accel, &gyro, BuzzFrequencyMode::GyroMagnitude),
        56754
    );
    assert_eq!(compute_buzz_frequency(&accel, &gyro, BuzzFrequencyMode::AccelY), 32768);
    assert_eq!(compute_buzz_frequency(&accel, &gyro, BuzzFrequencyMode::GyroZ), 32767);
}
