//! Wire-protocol codec for the MPU6500's SPI command/response format.
//!
//! A transaction sends a command frame and receives a response buffer of
//! the same length (the transport is full duplex). A read command is the
//! register address with the most significant bit set, followed by one
//! zero byte per data byte wanted; a write command is the address with the
//! most significant bit clear, followed by the value. Byte 0 of every
//! response is clocked out while the command byte is still being sent and
//! carries no sensor data; the payload starts at byte 1. Multi-byte sample
//! values arrive as big-endian signed 16-bit words.

use vstd::prelude::*;

use crate::registers::WHO_AM_I_VALUE;

verus! {

/// The command frame of a read of `count` data bytes starting at
/// `address`: the address with the read bit set, then `count` zero-fill
/// bytes.
pub open spec fn read_frame(address: u8, count: nat) -> Seq<u8> {
    Seq::new(count + 1, |i: int| if i == 0 { address | 0x80 } else { 0u8 })
}

/// The command frame of a write of `value` to `address`: the address with
/// the read bit cleared, then the value. The mask is defensive: every
/// register this driver writes already has bit 7 clear.
pub open spec fn write_frame(address: u8, value: u8) -> Seq<u8> {
    seq![address & 0x7f, value]
}

/// A two-byte big-endian signed 16-bit word, as an integer in
/// `-32768 ..= 32767`.
pub open spec fn be_word(high: u8, low: u8) -> int {
    if high < 0x80 {
        high * 256 + low
    } else {
        high * 256 + low - 0x10000
    }
}

/// Whether a WHO_AM_I response buffer identifies the sensor: its payload
/// byte holds the MPU6500's fixed identity value.
pub open spec fn identity_response_ok(rx: Seq<u8>) -> bool {
    rx.len() == 2 && rx[1] == WHO_AM_I_VALUE
}

/// Builds the command frame for a read of `count` data bytes starting at
/// `address`. The frame has `count + 1` bytes: the address with the read
/// bit set, then zero fill (the sensor ignores what the controller
/// transmits during a read, but the full-duplex transfer still clocks one
/// byte out per byte in).
pub fn build_read(address: u8, count: usize) -> (frame: Vec<u8>)
    requires
        1 <= count < usize::MAX,
    ensures
        frame@ == read_frame(address, count as nat),
        frame@.len() == count + 1,
        frame@[0] == address | 0x80,
        forall|i: int| 1 <= i <= count ==> frame@[i] == 0u8,
{
    let mut frame: Vec<u8> = Vec::new();
    frame.push(address | 0x80);
    let mut i: usize = 0;
    while i < count
        invariant
            i <= count,
            frame@.len() == i + 1,
            frame@[0] == address | 0x80,
            forall|j: int| 1 <= j <= i ==> frame@[j] == 0u8,
        decreases count - i,
    {
        frame.push(0);
        i = i + 1;
    }
    assert(frame@ =~= read_frame(address, count as nat));
    frame
}

/// Builds the two-byte command frame for a write of `value` to `address`.
pub fn build_write(address: u8, value: u8) -> (frame: Vec<u8>)
    ensures
        frame@ == write_frame(address, value),
        frame@.len() == 2,
        frame@[0] == address & 0x7f,
        frame@[1] == value,
{
    let mut frame: Vec<u8> = Vec::new();
    frame.push(address & 0x7f);
    frame.push(value);
    assert(frame@ =~= write_frame(address, value));
    frame
}

/// Extracts the payload of a response buffer: everything after byte 0,
/// which is transmitted concurrently with the command byte and never
/// inspected.
pub fn decode_payload(response: &Vec<u8>) -> (payload: Vec<u8>)
    requires
        response@.len() >= 1,
    ensures
        payload@ == response@.skip(1),
{
    let mut payload: Vec<u8> = Vec::new();
    let mut i: usize = 1;
    while i < response.len()
        invariant
            1 <= i <= response@.len(),
            payload@ =~= response@.subrange(1, i as int),
        decreases response@.len() - i,
    {
        payload.push(response[i]);
        i = i + 1;
    }
    assert(payload@ =~= response@.skip(1));
    payload
}

/// Decodes a big-endian signed 16-bit word from its two bytes.
pub fn decode_word(high: u8, low: u8) -> (r: i16)
    ensures
        r as int == be_word(high, low),
{
    let unsigned: u16 = (high as u16) * 256 + (low as u16);
    if unsigned < 0x8000 {
        unsigned as i16
    } else {
        let offset: u16 = unsigned - 0x8000;
        (offset as i32 - 0x8000) as i16
    }
}

/// Tests whether a WHO_AM_I response buffer identifies the sensor.
pub fn identity_response_connected(rx: &Vec<u8>) -> (r: bool)
    requires
        rx@.len() == 2,
    ensures
        r == identity_response_ok(rx@),
{
    rx[1] == WHO_AM_I_VALUE
}

} // verus!
