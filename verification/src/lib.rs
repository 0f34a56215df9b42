//! Drivers and helper logic for a small board with an MPU6500 inertial
//! sensor on SPI, a traffic-light LED group, an RGB LED, a servo and a
//! buzzer.
//!
//! The core is the MPU6500 driver family: three variants that speak the
//! sensor's register-oriented command/response protocol over a full-duplex
//! SPI transport, convert raw two's-complement sample words into physical
//! units, and manage the chip-select handshake around each transfer.

pub mod bus;
pub mod codec;
pub mod convert;
pub mod device;
pub mod device_blocking;
pub mod intensity;
pub mod led;
pub mod morse;
pub mod registers;
pub mod sample;
pub mod scale;
pub mod servo;
pub mod traffic_light;
pub mod transport;
