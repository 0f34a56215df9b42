//! Sample types returned by the drivers, and how they are decoded from a
//! six-byte sample burst.
//!
//! A burst carries the three axes as big-endian signed words in the fixed
//! order X high, X low, Y high, Y low, Z high, Z low. Raw samples keep
//! the signed 16-bit words; converted samples carry micro-units scaled by
//! the full-scale range that was configured when the read was issued.

use vstd::prelude::*;

use crate::codec::be_word;
use crate::convert::to_physical_spec;
use crate::scale::{AccelScale, GyroScale};

verus! {

/// Acceleration on the three axes, in micro-m/s^2.
#[derive(Clone, Copy, Debug, PartialEq, Eq, Structural)]
pub struct Acceleration {
    pub x: i64,
    pub y: i64,
    pub z: i64,
}

/// Angular rate on the three axes, in micro-deg/s.
#[derive(Clone, Copy, Debug, PartialEq, Eq, Structural)]
pub struct Gyro {
    pub x: i64,
    pub y: i64,
    pub z: i64,
}

/// Acceleration on the three axes, as the sensor's raw signed words.
#[derive(Clone, Copy, Debug, PartialEq, Eq, Structural)]
pub struct RawAcceleration {
    pub x: i16,
    pub y: i16,
    pub z: i16,
}

/// Angular rate on the three axes, as the sensor's raw signed words.
#[derive(Clone, Copy, Debug, PartialEq, Eq, Structural)]
pub struct RawGyro {
    pub x: i16,
    pub y: i16,
    pub z: i16,
}

/// The raw signed word of axis `axis` (0, 1 or 2) of a six-byte sample
/// burst payload.
pub open spec fn axis_word(payload: Seq<u8>, axis: int) -> int {
    be_word(payload[2 * axis], payload[2 * axis + 1])
}

/// The acceleration sample a six-byte burst payload decodes to under the
/// accelerometer scale `scale`.
pub open spec fn accel_from_payload(payload: Seq<u8>, scale: AccelScale) -> Acceleration {
    Acceleration {
        x: to_physical_spec(axis_word(payload, 0), scale.magnitude_micro_spec()) as i64,
        y: to_physical_spec(axis_word(payload, 1), scale.magnitude_micro_spec()) as i64,
        z: to_physical_spec(axis_word(payload, 2), scale.magnitude_micro_spec()) as i64,
    }
}

/// The gyro sample a six-byte burst payload decodes to under the gyro
/// scale `scale`.
pub open spec fn gyro_from_payload(payload: Seq<u8>, scale: GyroScale) -> Gyro {
    Gyro {
        x: to_physical_spec(axis_word(payload, 0), scale.magnitude_micro_spec()) as i64,
        y: to_physical_spec(axis_word(payload, 1), scale.magnitude_micro_spec()) as i64,
        z: to_physical_spec(axis_word(payload, 2), scale.magnitude_micro_spec()) as i64,
    }
}

/// The raw acceleration sample a six-byte burst payload decodes to.
pub open spec fn raw_accel_from_payload(payload: Seq<u8>) -> RawAcceleration {
    RawAcceleration {
        x: axis_word(payload, 0) as i16,
        y: axis_word(payload, 1) as i16,
        z: axis_word(payload, 2) as i16,
    }
}

/// The raw gyro sample a six-byte burst payload decodes to.
pub open spec fn raw_gyro_from_payload(payload: Seq<u8>) -> RawGyro {
    RawGyro {
        x: axis_word(payload, 0) as i16,
        y: axis_word(payload, 1) as i16,
        z: axis_word(payload, 2) as i16,
    }
}

} // verus!
