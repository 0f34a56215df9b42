use std::collections::VecDeque;

use mpu6500::bus;
use mpu6500::device;
use mpu6500::device_blocking;
use mpu6500::sample::{Acceleration, RawAcceleration, RawGyro};
use mpu6500::scale::{AccelScale, GyroScale};
use mpu6500::transport::{CsPin, SpiBus, SpiDevice};

/// Scripted transport core: pops one scripted outcome per transfer and
/// records every frame sent.
struct Script {
    responses: VecDeque<Result<Vec<u8>, u8>>,
    sent: Vec<Vec<u8>>,
}

impl Script {
    fn new(responses: Vec<Result<Vec<u8>, u8>>) -> Script {
        Script { responses: responses.into_iter().collect(), sent: Vec::new() }
    }

    fn transfer(&mut self, tx: &Vec<u8>) -> Result<Vec<u8>, u8> {
        self.sent.push(tx.clone());
        match self.responses.pop_front().expect("transfer beyond the script") {
            Ok(rx) => {
                assert_eq!(rx.len(), tx.len(), "scripted response length must match the frame");
                Ok(rx)
            }
            Err(e) => Err(e),
        }
    }
}

struct MockBus(Script);

impl SpiBus for MockBus {
    type Error = u8;
    fn transfer(&mut self, tx: &Vec<u8>) -> Result<Vec<u8>, u8> {
        self.0.transfer(tx)
    }
}

struct MockDevice(Script);

impl SpiDevice for MockDevice {
    type Error = u8;
    fn transfer(&mut self, tx: &Vec<u8>) -> Result<Vec<u8>, u8> {
        self.0.transfer(tx)
    }
}

#[derive(Default)]
struct MockCs {
    lows: usize,
    highs: usize,
    low_now: bool,
}

impl CsPin for MockCs {
    fn set_low(&mut self) {
        self.lows += 1;
        self.low_now = true;
    }
    fn set_high(&mut self) {
        self.highs += 1;
        self.low_now = false;
    }
}

#[test]
fn is_connected_true_on_identity_byte() {
    let spi = MockBus(Script::new(vec![Ok(vec![0xaa, 0x70])]));
    let mut driver = bus::Mpu6500::new(spi, MockCs::default());
    assert!(driver.is_connected());
    let (spi, cs) = driver.release();
    assert_eq!(spi.0.sent, vec![vec![0xf5, 0x00]]);
    assert_eq!(cs.lows, 1);
    assert_eq!(cs.highs, 1);
    assert!(!cs.low_now);
}

#[test]
fn is_connected_false_on_wrong_identity_byte() {
    let spi = MockBus(Script::new(vec![Ok(vec![0xaa, 0x00])]));
    let mut driver = bus::Mpu6500::new(spi, MockCs::default());
    assert!(!driver.is_connected());
}

#[test]
fn is_connected_false_on_transfer_error() {
    let spi = MockBus(Script::new(vec![Err(7)]));
    let mut driver = bus::Mpu6500::new(spi, MockCs::default());
    assert!(!driver.is_connected());
    let (_, cs) = driver.release();
    assert_eq!(cs.highs, 1, "chip-select is released on the error path too");
    assert!(!cs.low_now);
}

#[test]
fn set_accel_scale_then_read_converts_with_the_new_scale() {
    let spi = MockBus(Script::new(vec![
        Ok(vec![0x00, 0x00]),
        Ok(vec![0x55, 0x7f, 0xff, 0x00, 0x00, 0x00, 0x00]),
    ]));
    let mut driver = bus::Mpu6500::new(spi, MockCs::default());
    assert_eq!(driver.set_accel_scale(AccelScale::G4), Ok(()));
    assert_eq!(driver.accel_scale(), AccelScale::G4);
    let sample = driver.read_acceleration().unwrap();
    // X raw word 32767 is exactly the +/- 4 g full scale: 4 * 9.80665 m/s^2
    // in micro-units.
    assert_eq!(sample, Acceleration { x: 39_226_600, y: 0, z: 0 });
    let (spi, _) = driver.release();
    assert_eq!(spi.0.sent, vec![
        vec![0x1c, 0x08],
        vec![0xbb, 0x00, 0x00, 0x00, 0x00, 0x00, 0x00],
    ]);
}

#[test]
fn default_scale_is_used_before_any_configuration() {
    let spi = MockBus(Script::new(vec![Ok(vec![0x55, 0x7f, 0xff, 0x00, 0x00, 0x80, 0x00])]));
    let mut driver = bus::Mpu6500::new(spi, MockCs::default());
    assert_eq!(driver.accel_scale(), AccelScale::G2);
    assert_eq!(driver.gyro_scale(), GyroScale::Gs250);
    let sample = driver.read_acceleration().unwrap();
    // The power-on default is +/- 2 g; -32768 overshoots the negative
    // magnitude by one count of the scale.
    let magnitude = 19_613_300i64;
    assert_eq!(sample.x, magnitude);
    assert_eq!(sample.y, 0);
    assert_eq!(sample.z, -(magnitude + magnitude / 32767));
}

#[test]
fn read_gyro_converts_with_the_stored_gyro_scale() {
    let spi = MockBus(Script::new(vec![
        Ok(vec![0x00, 0x00]),
        Ok(vec![0x55, 0x7f, 0xff, 0x00, 0x01, 0xff, 0xff]),
    ]));
    let mut driver = bus::Mpu6500::new(spi, MockCs::default());
    assert_eq!(driver.set_gyro_scale(GyroScale::Gs1000), Ok(()));
    let sample = driver.read_gyro().unwrap();
    assert_eq!(sample.x, 1_000_000_000);
    assert_eq!(sample.y, 1_000_000_000 / 32767);
    assert_eq!(sample.z, -(1_000_000_000 / 32767), "raw -1 is one negative count");
    let (spi, _) = driver.release();
    assert_eq!(spi.0.sent[0], vec![0x1b, 0x10]);
    assert_eq!(spi.0.sent[1], vec![0xc3, 0x00, 0x00, 0x00, 0x00, 0x00, 0x00]);
}

#[test]
fn failed_scale_write_keeps_the_stored_scale_and_propagates() {
    let spi = MockBus(Script::new(vec![Err(9), Err(12)]));
    let mut driver = bus::Mpu6500::new(spi, MockCs::default());
    assert_eq!(driver.set_accel_scale(AccelScale::G16), Err(9));
    assert_eq!(driver.accel_scale(), AccelScale::G2);
    assert_eq!(driver.set_gyro_scale(GyroScale::Gs2000), Err(12));
    assert_eq!(driver.gyro_scale(), GyroScale::Gs250);
}

#[test]
fn read_error_is_passed_through() {
    let spi = MockBus(Script::new(vec![Err(3), Err(4)]));
    let mut driver = bus::Mpu6500::new(spi, MockCs::default());
    assert_eq!(driver.read_acceleration(), Err(3));
    assert_eq!(driver.read_gyro(), Err(4));
    let (_, cs) = driver.release();
    assert_eq!(cs.lows, 2);
    assert_eq!(cs.highs, 2);
    assert!(!cs.low_now);
}

#[test]
fn set_gyro_scale_twice_issues_two_identical_frames() {
    let spi = MockBus(Script::new(vec![Ok(vec![0x00, 0x00]), Ok(vec![0x00, 0x00])]));
    let mut driver = bus::Mpu6500::new(spi, MockCs::default());
    assert_eq!(driver.set_gyro_scale(GyroScale::Gs500), Ok(()));
    assert_eq!(driver.gyro_scale(), GyroScale::Gs500);
    assert_eq!(driver.set_gyro_scale(GyroScale::Gs500), Ok(()));
    assert_eq!(driver.gyro_scale(), GyroScale::Gs500);
    let (spi, _) = driver.release();
    // No caching or elision: both writes reach the wire, identically.
    assert_eq!(spi.0.sent, vec![vec![0x1b, 0x08], vec![0x1b, 0x08]]);
}

#[test]
fn device_is_connected_scenarios() {
    let mut driver = device::Mpu6500::new(MockDevice(Script::new(vec![Ok(vec![0x00, 0x70])])));
    assert!(driver.is_connected());
    assert_eq!(driver.release().0.sent, vec![vec![0xf5, 0x00]]);

    let mut driver = device::Mpu6500::new(MockDevice(Script::new(vec![Ok(vec![0x00, 0x68])])));
    assert!(!driver.is_connected());

    let mut driver = device::Mpu6500::new(MockDevice(Script::new(vec![Err(1)])));
    assert!(!driver.is_connected());
}

#[test]
fn device_reads_return_raw_words() {
    let spi = MockDevice(Script::new(vec![
        Ok(vec![0x55, 0xff, 0xff, 0x12, 0x34, 0x80, 0x00]),
        Ok(vec![0x55, 0x00, 0x0a, 0x7f, 0xff, 0xff, 0xfe]),
    ]));
    let mut driver = device::Mpu6500::new(spi);
    let accel = driver.read_acceleration().unwrap();
    assert_eq!(accel, RawAcceleration { x: -1, y: 0x1234, z: -32768 });
    let gyro = driver.read_gyro().unwrap();
    assert_eq!(gyro, RawGyro { x: 10, y: 32767, z: -2 });
    let spi = driver.release();
    assert_eq!(spi.0.sent[0][0], 0xbb);
    assert_eq!(spi.0.sent[1][0], 0xc3);
}

#[test]
fn device_scale_writes_update_stored_state_only_on_success() {
    let spi = MockDevice(Script::new(vec![Ok(vec![0x00, 0x00]), Err(2)]));
    let mut driver = device::Mpu6500::new(spi);
    assert_eq!(driver.set_accel_scale(AccelScale::G8), Ok(()));
    assert_eq!(driver.accel_scale(), AccelScale::G8);
    assert_eq!(driver.set_gyro_scale(GyroScale::Gs2000), Err(2));
    assert_eq!(driver.gyro_scale(), GyroScale::Gs250);
    let spi = driver.release();
    assert_eq!(spi.0.sent, vec![vec![0x1c, 0x10], vec![0x1b, 0x18]]);
}

#[test]
fn blocking_device_full_session() {
    let spi = MockDevice(Script::new(vec![
        Ok(vec![0xaa, 0x70]),
        Ok(vec![0x00, 0x00]),
        Ok(vec![0x55, 0x7f, 0xff, 0x00, 0x00, 0x00, 0x01]),
    ]));
    let mut driver = device_blocking::Mpu6500::new(spi);
    assert!(driver.is_connected());
    assert_eq!(driver.set_gyro_scale(GyroScale::Gs500), Ok(()));
    assert_eq!(driver.gyro_scale(), GyroScale::Gs500);
    let gyro = driver.read_gyro().unwrap();
    assert_eq!(gyro, RawGyro { x: 32767, y: 0, z: 1 });
    let spi = driver.release();
    assert_eq!(spi.0.sent, vec![
        vec![0xf5, 0x00],
        vec![0x1b, 0x08],
        vec![0xc3, 0x00, 0x00, 0x00, 0x00, 0x00, 0x00],
    ]);
}

#[test]
fn blocking_device_error_paths() {
    let spi = MockDevice(Script::new(vec![Err(5), Err(6)]));
    let mut driver = device_blocking::Mpu6500::new(spi);
    assert_eq!(driver.set_accel_scale(AccelScale::G4), Err(5));
    assert_eq!(driver.accel_scale(), AccelScale::G2);
    assert_eq!(driver.read_acceleration(), Err(6));
}
