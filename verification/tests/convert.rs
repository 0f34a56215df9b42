use mpu6500::convert::to_physical;
use mpu6500::scale::{AccelScale, GyroScale, G_MICRO};

const ACCEL_SCALES: [AccelScale; 4] =
    [AccelScale::G2, AccelScale::G4, AccelScale::G8, AccelScale::G16];
const GYRO_SCALES: [GyroScale; 4] =
    [GyroScale::Gs250, GyroScale::Gs500, GyroScale::Gs1000, GyroScale::Gs2000];

#[test]
fn accel_magnitudes_are_multiples_of_g() {
    assert_eq!(G_MICRO, 9_806_650);
    assert_eq!(AccelScale::G2.magnitude_micro(), 2 * G_MICRO);
    assert_eq!(AccelScale::G4.magnitude_micro(), 4 * G_MICRO);
    assert_eq!(AccelScale::G8.magnitude_micro(), 8 * G_MICRO);
    assert_eq!(AccelScale::G16.magnitude_micro(), 16 * G_MICRO);
}

#[test]
fn gyro_magnitudes_in_micro_degrees() {
    assert_eq!(GyroScale::Gs250.magnitude_micro(), 250_000_000);
    assert_eq!(GyroScale::Gs500.magnitude_micro(), 500_000_000);
    assert_eq!(GyroScale::Gs1000.magnitude_micro(), 1_000_000_000);
    assert_eq!(GyroScale::Gs2000.magnitude_micro(), 2_000_000_000);
}

#[test]
fn full_scale_word_converts_to_the_magnitude_itself() {
    for scale in ACCEL_SCALES {
        let magnitude = scale.magnitude_micro();
        assert_eq!(to_physical(32767, magnitude), magnitude as i64);
    }
    for scale in GYRO_SCALES {
        let magnitude = scale.magnitude_micro();
        assert_eq!(to_physical(32767, magnitude), magnitude as i64);
    }
}

#[test]
fn negative_extreme_overshoots_by_one_count() {
    for scale in ACCEL_SCALES {
        let magnitude = scale.magnitude_micro() as i64;
        assert_eq!(to_physical(-32768, scale.magnitude_micro()), -(magnitude + magnitude / 32767));
    }
    for scale in GYRO_SCALES {
        let magnitude = scale.magnitude_micro() as i64;
        assert_eq!(to_physical(-32768, scale.magnitude_micro()), -(magnitude + magnitude / 32767));
    }
}

#[test]
fn conversion_exact_values() {
    assert_eq!(to_physical(0, 19_613_300), 0);
    // Half scale under a power-of-two-friendly magnitude.
    assert_eq!(to_physical(16384, 1000), 500);
    // Truncation is towards zero on both sides.
    assert_eq!(to_physical(-1, 1000), 0);
    assert_eq!(to_physical(1, 1000), 0);
    assert_eq!(to_physical(-2, 100_000), -6);
    assert_eq!(to_physical(2, 100_000), 6);
    // One count of the 250 deg/s gyro range.
    assert_eq!(to_physical(1, 250_000_000), 7629);
}
