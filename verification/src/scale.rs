//! Full-scale range settings for the gyroscope and the accelerometer.
//!
//! Each variant maps to the two-bit value of the `FS_SEL` field of the
//! matching configuration register and to the full-scale magnitude the
//! sensor's signed 16-bit output then represents. Physical magnitudes are
//! held in micro-units (millionths of m/s^2, millionths of deg/s) so that
//! conversion is exact integer arithmetic.

use vstd::prelude::*;

verus! {

/// The gravitational acceleration, in micro-m/s^2 (9.80665 m/s^2).
pub const G_MICRO: u32 = 9_806_650;

/// The possible values of the `GYRO_FS_SEL` field of the GYRO_CONFIG
/// register.
#[derive(Clone, Copy, Debug, PartialEq, Eq, Structural)]
pub enum GyroScale {
    /// +/- 250 deg/s.
    Gs250,
    /// +/- 500 deg/s.
    Gs500,
    /// +/- 1000 deg/s.
    Gs1000,
    /// +/- 2000 deg/s.
    Gs2000,
}

impl GyroScale {
    /// The two-bit `GYRO_FS_SEL` field value.
    pub open spec fn field_bits_spec(self) -> u8 {
        match self {
            GyroScale::Gs250 => 0b00,
            GyroScale::Gs500 => 0b01,
            GyroScale::Gs1000 => 0b10,
            GyroScale::Gs2000 => 0b11,
        }
    }

    /// Returns the two-bit `GYRO_FS_SEL` field value.
    pub fn field_bits(self) -> (r: u8)
        ensures
            r == self.field_bits_spec(),
    {
        match self {
            GyroScale::Gs250 => 0b00,
            GyroScale::Gs500 => 0b01,
            GyroScale::Gs1000 => 0b10,
            GyroScale::Gs2000 => 0b11,
        }
    }

    /// The absolute maximum angular rate this scale represents, in
    /// micro-deg/s.
    pub open spec fn magnitude_micro_spec(self) -> int {
        match self {
            GyroScale::Gs250 => 250_000_000,
            GyroScale::Gs500 => 500_000_000,
            GyroScale::Gs1000 => 1_000_000_000,
            GyroScale::Gs2000 => 2_000_000_000,
        }
    }

    /// Returns the absolute maximum angular rate this scale represents,
    /// in micro-deg/s.
    pub fn magnitude_micro(self) -> (r: u32)
        ensures
            r == self.magnitude_micro_spec(),
    {
        match self {
            GyroScale::Gs250 => 250_000_000,
            GyroScale::Gs500 => 500_000_000,
            GyroScale::Gs1000 => 1_000_000_000,
            GyroScale::Gs2000 => 2_000_000_000,
        }
    }
}

/// The possible values of the `ACCEL_FS_SEL` field of the ACCEL_CONFIG
/// register.
#[derive(Clone, Copy, Debug, PartialEq, Eq, Structural)]
pub enum AccelScale {
    /// +/- 2 g.
    G2,
    /// +/- 4 g.
    G4,
    /// +/- 8 g.
    G8,
    /// +/- 16 g.
    G16,
}

impl AccelScale {
    /// The two-bit `ACCEL_FS_SEL` field value.
    pub open spec fn field_bits_spec(self) -> u8 {
        match self {
            AccelScale::G2 => 0b00,
            AccelScale::G4 => 0b01,
            AccelScale::G8 => 0b10,
            AccelScale::G16 => 0b11,
        }
    }

    /// Returns the two-bit `ACCEL_FS_SEL` field value.
    pub fn field_bits(self) -> (r: u8)
        ensures
            r == self.field_bits_spec(),
    {
        match self {
            AccelScale::G2 => 0b00,
            AccelScale::G4 => 0b01,
            AccelScale::G8 => 0b10,
            AccelScale::G16 => 0b11,
        }
    }

    /// The absolute maximum acceleration this scale represents, in
    /// micro-m/s^2: 2, 4, 8 or 16 times `G_MICRO`.
    pub open spec fn magnitude_micro_spec(self) -> int {
        match self {
            AccelScale::G2 => 2 * G_MICRO,
            AccelScale::G4 => 4 * G_MICRO,
            AccelScale::G8 => 8 * G_MICRO,
            AccelScale::G16 => 16 * G_MICRO,
        }
    }

    /// Returns the absolute maximum acceleration this scale represents,
    /// in micro-m/s^2.
    pub fn magnitude_micro(self) -> (r: u32)
        ensures
            r == self.magnitude_micro_spec(),
    {
        match self {
            AccelScale::G2 => 2 * G_MICRO,
            AccelScale::G4 => 4 * G_MICRO,
            AccelScale::G8 => 8 * G_MICRO,
            AccelScale::G16 => 16 * G_MICRO,
        }
    }
}

/// The pair of full-scale settings a driver instance stores.
///
/// This is the whole of a driver's own state: beyond it every call is a
/// complete, independent transaction.
#[derive(Clone, Copy, Debug, PartialEq, Eq, Structural)]
pub struct ScaleConfig {
    pub accel: AccelScale,
    pub gyro: GyroScale,
}

impl ScaleConfig {
    /// The sensor's power-on defaults: the narrowest range on both axes.
    pub open spec fn default_spec() -> ScaleConfig {
        ScaleConfig { accel: AccelScale::G2, gyro: GyroScale::Gs250 }
    }

    /// The configuration after a successful accelerometer-scale update.
    pub open spec fn with_accel(self, scale: AccelScale) -> ScaleConfig {
        ScaleConfig { accel: scale, gyro: self.gyro }
    }

    /// The configuration after a successful gyro-scale update.
    pub open spec fn with_gyro(self, scale: GyroScale) -> ScaleConfig {
        ScaleConfig { accel: self.accel, gyro: scale }
    }
}

/// Updating the accelerometer scale twice with the same value stores the
/// same configuration as updating it once, and leaves the gyro scale
/// alone.
pub proof fn lemma_set_accel_scale_idempotent(c: ScaleConfig, scale: AccelScale)
    ensures
        c.with_accel(scale).with_accel(scale) == c.with_accel(scale),
        c.with_accel(scale).gyro == c.gyro,
{
}

/// Updating the gyro scale twice with the same value stores the same
/// configuration as updating it once, and leaves the accelerometer scale
/// alone. The write frame such an update puts on the wire is pinned by
/// the driver contracts to a function of the requested scale alone, so
/// the two updates also issue identical frames: nothing is cached or
/// elided.
pub proof fn lemma_set_gyro_scale_idempotent(c: ScaleConfig, scale: GyroScale)
    ensures
        c.with_gyro(scale).with_gyro(scale) == c.with_gyro(scale),
        c.with_gyro(scale).accel == c.accel,
{
}

} // verus!
