//! The MPU6500 register map: the register addresses the drivers touch and
//! the sensor's fixed identity value.

use vstd::prelude::*;

verus! {

/// WHO_AM_I register address.
pub const WHO_AM_I: u8 = 0x75;

/// Value the WHO_AM_I register holds on an MPU6500.
pub const WHO_AM_I_VALUE: u8 = 0x70;

/// A writable configuration register.
///
/// Restricting the addresses to an enumeration keeps callers from writing
/// to any other register.
#[derive(Clone, Copy, Debug, PartialEq, Eq, Structural)]
pub enum ConfigRegister {
    /// GYRO_CONFIG, address 0x1B.
    Gyro,
    /// ACCEL_CONFIG, address 0x1C.
    Accel,
}

impl ConfigRegister {
    /// The register's address on the wire.
    pub open spec fn addr_spec(self) -> u8 {
        match self {
            ConfigRegister::Gyro => 0x1b,
            ConfigRegister::Accel => 0x1c,
        }
    }

    /// Returns the register's address.
    pub fn addr(self) -> (r: u8)
        ensures
            r == self.addr_spec(),
    {
        match self {
            ConfigRegister::Gyro => 0x1b,
            ConfigRegister::Accel => 0x1c,
        }
    }
}

/// The first register of a readable six-byte sample burst.
#[derive(Clone, Copy, Debug, PartialEq, Eq, Structural)]
pub enum ValueRegister {
    /// ACCEL_XOUT_H, address 0x3B: start of the acceleration burst.
    AccelXOutH,
    /// GYRO_XOUT_H, address 0x43: start of the gyro burst.
    GyroXOutH,
}

impl ValueRegister {
    /// The register's address on the wire.
    pub open spec fn addr_spec(self) -> u8 {
        match self {
            ValueRegister::AccelXOutH => 0x3b,
            ValueRegister::GyroXOutH => 0x43,
        }
    }

    /// Returns the register's address.
    pub fn addr(self) -> (r: u8)
        ensures
            r == self.addr_spec(),
    {
        match self {
            ValueRegister::AccelXOutH => 0x3b,
            ValueRegister::GyroXOutH => 0x43,
        }
    }
}

} // verus!
