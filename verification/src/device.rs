//! MPU6500 driver over a shared-bus SPI device handle, for transports
//! whose transfers suspend the calling task until the hardware signals
//! completion.
//!
//! This variant borrows one addressed device of a shared bus: the bus
//! stays available to other devices between transfers, and the device
//! handle asserts and releases chip-select itself, keeping each transfer
//! a single uninterleaved transaction. The driver therefore never touches
//! a chip-select pin.
//!
//! Read methods return the raw signed sample words; conversion to
//! physical units is left to the caller as a policy choice, with the
//! stored full-scale configuration reporting which range the words are
//! relative to.
//!
//! Each public operation performs exactly one transfer, and its contract
//! pins both the frame that transfer puts on the wire and how the
//! returned value is computed from whatever response the transport's log
//! records.

use vstd::prelude::*;

use crate::codec;
use crate::codec::{identity_response_ok, read_frame, write_frame};
use crate::registers::{ConfigRegister, ValueRegister, WHO_AM_I};
use crate::sample::{raw_accel_from_payload, raw_gyro_from_payload, RawAcceleration, RawGyro};
use crate::scale::{AccelScale, GyroScale, ScaleConfig};
use crate::transport::{lemma_log_push, SpiDevice, Transaction};

verus! {

/// MPU6500 driver over one addressed device of a shared SPI bus.
pub struct Mpu6500<S: SpiDevice> {
    /// The SPI device handle.
    spi: S,
    /// The configured acceleration scale.
    accel_scale: AccelScale,
    /// The configured gyro scale.
    gyro_scale: GyroScale,
}

impl<S: SpiDevice> Mpu6500<S> {
    /// The full-scale settings the driver currently stores.
    pub closed spec fn config(&self) -> ScaleConfig {
        ScaleConfig { accel: self.accel_scale, gyro: self.gyro_scale }
    }

    /// The transactions sent to the device so far.
    pub closed spec fn log(&self) -> Seq<Transaction> {
        self.spi.log()
    }

    /// Creates a driver from the device handle. The stored configuration
    /// starts at the sensor's power-on defaults, the narrowest range on
    /// both axes.
    pub fn new(spi: S) -> (driver: Mpu6500<S>)
        ensures
            driver.config() == ScaleConfig::default_spec(),
            driver.log() == spi.log(),
    {
        Mpu6500 { spi, accel_scale: AccelScale::G2, gyro_scale: GyroScale::Gs250 }
    }

    /// Returns the stored accelerometer scale.
    pub fn accel_scale(&self) -> (r: AccelScale)
        ensures
            r == self.config().accel,
    {
        self.accel_scale
    }

    /// Returns the stored gyro scale.
    pub fn gyro_scale(&self) -> (r: GyroScale)
        ensures
            r == self.config().gyro,
    {
        self.gyro_scale
    }

    /// Consumes the driver and hands the device handle back.
    pub fn release(self) -> (r: S)
        ensures
            r.log() == self.log(),
    {
        self.spi
    }

    /// Probes whether an MPU6500 answers on the device: issues a
    /// one-byte read of WHO_AM_I and reports whether it returned the
    /// sensor's identity value. A transport error is collapsed into
    /// `false`, never propagated.
    pub fn is_connected(&mut self) -> (connected: bool)
        ensures
            final(self).config() == old(self).config(),
            final(self).log().drop_last() == old(self).log(),
            final(self).log().len() == old(self).log().len() + 1,
            final(self).log().last().frame == read_frame(WHO_AM_I, 1),
            connected == (final(self).log().last().response matches Some(rx)
                && identity_response_ok(rx)),
    {
        let command = codec::build_read(WHO_AM_I, 1);
        let res = self.spi.transfer(&command);
        match res {
            Ok(rx) => {
                proof {
                    lemma_log_push(
                        old(self).log(),
                        Transaction { frame: command@, response: Some(rx@) },
                    );
                }
                codec::identity_response_connected(&rx)
            },
            Err(_) => {
                proof {
                    lemma_log_push(
                        old(self).log(),
                        Transaction { frame: command@, response: None },
                    );
                }
                false
            },
        }
    }

    /// Sets the gyro full-scale range: writes the encoded range to
    /// GYRO_CONFIG and, only on success, stores it as the current range.
    /// The write succeeds exactly when its transfer does; on failure the
    /// stored configuration is unchanged and the transport error is
    /// passed through.
    pub fn set_gyro_scale(&mut self, scale: GyroScale) -> (r: Result<(), S::Error>)
        ensures
            final(self).log().drop_last() == old(self).log(),
            final(self).log().len() == old(self).log().len() + 1,
            final(self).log().last().frame == write_frame(
                ConfigRegister::Gyro.addr_spec(),
                scale.field_bits_spec() << 3,
            ),
            r is Ok <==> final(self).log().last().response is Some,
            r is Ok ==> final(self).config() == old(self).config().with_gyro(scale),
            r is Err ==> final(self).config() == old(self).config(),
    {
        let res = self.write_config(ConfigRegister::Gyro, scale.field_bits() << 3);
        match res {
            Ok(()) => {
                self.gyro_scale = scale;
                Ok(())
            },
            Err(error) => Err(error),
        }
    }

    /// Sets the accelerometer full-scale range: writes the encoded range
    /// to ACCEL_CONFIG and, only on success, stores it as the current
    /// range. The write succeeds exactly when its transfer does; on
    /// failure the stored configuration is unchanged and the transport
    /// error is passed through.
    pub fn set_accel_scale(&mut self, scale: AccelScale) -> (r: Result<(), S::Error>)
        ensures
            final(self).log().drop_last() == old(self).log(),
            final(self).log().len() == old(self).log().len() + 1,
            final(self).log().last().frame == write_frame(
                ConfigRegister::Accel.addr_spec(),
                scale.field_bits_spec() << 3,
            ),
            r is Ok <==> final(self).log().last().response is Some,
            r is Ok ==> final(self).config() == old(self).config().with_accel(scale),
            r is Err ==> final(self).config() == old(self).config(),
    {
        let res = self.write_config(ConfigRegister::Accel, scale.field_bits() << 3);
        match res {
            Ok(()) => {
                self.accel_scale = scale;
                Ok(())
            },
            Err(error) => Err(error),
        }
    }

    /// Reads the acceleration: a six-byte burst read starting at
    /// ACCEL_XOUT_H, decoded as three big-endian signed words. The read
    /// succeeds exactly when its transfer does, with the raw sample the
    /// logged response decodes to; a transport error is passed through.
    /// The stored configuration is unchanged either way.
    pub fn read_acceleration(&mut self) -> (r: Result<RawAcceleration, S::Error>)
        ensures
            final(self).config() == old(self).config(),
            final(self).log().drop_last() == old(self).log(),
            final(self).log().len() == old(self).log().len() + 1,
            final(self).log().last().frame == read_frame(
                ValueRegister::AccelXOutH.addr_spec(),
                6,
            ),
            r is Err <==> final(self).log().last().response is None,
            r matches Ok(sample) ==> (final(self).log().last().response matches Some(rx)
                && sample == raw_accel_from_payload(rx.skip(1))),
    {
        let payload = match self.read_value(ValueRegister::AccelXOutH) {
            Ok(payload) => payload,
            Err(error) => {
                return Err(error);
            },
        };
        let sample = RawAcceleration {
            x: codec::decode_word(payload[0], payload[1]),
            y: codec::decode_word(payload[2], payload[3]),
            z: codec::decode_word(payload[4], payload[5]),
        };
        Ok(sample)
    }

    /// Reads the angular rate: a six-byte burst read starting at
    /// GYRO_XOUT_H, decoded as three big-endian signed words. The read
    /// succeeds exactly when its transfer does, with the raw sample the
    /// logged response decodes to; a transport error is passed through.
    /// The stored configuration is unchanged either way.
    pub fn read_gyro(&mut self) -> (r: Result<RawGyro, S::Error>)
        ensures
            final(self).config() == old(self).config(),
            final(self).log().drop_last() == old(self).log(),
            final(self).log().len() == old(self).log().len() + 1,
            final(self).log().last().frame == read_frame(ValueRegister::GyroXOutH.addr_spec(), 6),
            r is Err <==> final(self).log().last().response is None,
            r matches Ok(sample) ==> (final(self).log().last().response matches Some(rx)
                && sample == raw_gyro_from_payload(rx.skip(1))),
    {
        let payload = match self.read_value(ValueRegister::GyroXOutH) {
            Ok(payload) => payload,
            Err(error) => {
                return Err(error);
            },
        };
        let sample = RawGyro {
            x: codec::decode_word(payload[0], payload[1]),
            y: codec::decode_word(payload[2], payload[3]),
            z: codec::decode_word(payload[4], payload[5]),
        };
        Ok(sample)
    }

    /// Writes one byte to a configuration register as one device
    /// transaction and passes the transfer's outcome through. The
    /// response bytes carry nothing during a write and are discarded.
    fn write_config(&mut self, register: ConfigRegister, value: u8) -> (r: Result<(), S::Error>)
        ensures
            final(self).config() == old(self).config(),
            final(self).log().drop_last() == old(self).log(),
            final(self).log().len() == old(self).log().len() + 1,
            final(self).log().last().frame == write_frame(register.addr_spec(), value),
            r is Ok <==> final(self).log().last().response is Some,
    {
        let command = codec::build_write(register.addr(), value);
        let res = self.spi.transfer(&command);
        match res {
            Ok(rx) => {
                proof {
                    lemma_log_push(
                        old(self).log(),
                        Transaction { frame: command@, response: Some(rx@) },
                    );
                }
                Ok(())
            },
            Err(error) => {
                proof {
                    lemma_log_push(
                        old(self).log(),
                        Transaction { frame: command@, response: None },
                    );
                }
                Err(error)
            },
        }
    }

    /// Reads the six-byte sample burst starting at `register` as one
    /// device transaction and returns the payload (everything after the
    /// first response byte, which carries no sensor data).
    fn read_value(&mut self, register: ValueRegister) -> (r: Result<Vec<u8>, S::Error>)
        ensures
            final(self).config() == old(self).config(),
            final(self).log().drop_last() == old(self).log(),
            final(self).log().len() == old(self).log().len() + 1,
            final(self).log().last().frame == read_frame(register.addr_spec(), 6),
            r is Err <==> final(self).log().last().response is None,
            r matches Ok(payload) ==> (final(self).log().last().response matches Some(rx)
                && payload@ == rx.skip(1) && payload@.len() == 6),
    {
        let command = codec::build_read(register.addr(), 6);
        let res = self.spi.transfer(&command);
        match res {
            Ok(rx) => {
                proof {
                    lemma_log_push(
                        old(self).log(),
                        Transaction { frame: command@, response: Some(rx@) },
                    );
                }
                Ok(codec::decode_payload(&rx))
            },
            Err(error) => {
                proof {
                    lemma_log_push(
                        old(self).log(),
                        Transaction { frame: command@, response: None },
                    );
                }
                Err(error)
            },
        }
    }
}

} // verus!
