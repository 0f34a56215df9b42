//! The transport interfaces the drivers are written against.
//!
//! The drivers are polymorphic over a single capability: a full-duplex
//! byte transfer that clocks one response byte in for every command byte
//! out. These traits model that capability for verification the way a
//! hardware abstraction layer offers it: `SpiBus` is a raw bus held
//! exclusively, around whose transfers the driver must toggle the
//! chip-select pin itself; `SpiDevice` is one addressed device of a
//! shared bus, whose implementation asserts and releases chip-select
//! around every transfer on its own and keeps other devices' transactions
//! from interleaving with it.
//!
//! Implementations live outside the verified library (platform glue,
//! simulators, test doubles), so their contracts here are assumptions:
//! every transfer is appended to the transport's abstract `log` of
//! transactions, and a successful transfer returns exactly one response
//! byte per command byte. Nothing is assumed about the response's
//! contents: the drivers must cope with every byte sequence of the right
//! length, and their own contracts state their results as functions of
//! whatever response the log records.

use vstd::prelude::*;

verus! {

/// One recorded transaction: the frame that was clocked out and, when
/// the transfer succeeded, the response that was clocked in.
pub struct Transaction {
    /// The command frame sent, byte for byte.
    pub frame: Seq<u8>,
    /// The response received, or `None` when the transfer failed.
    pub response: Option<Seq<u8>>,
}

/// Appending one transaction to a log moves every earlier entry nowhere:
/// the new log is one longer, ends in the new transaction and starts
/// with the old log.
pub proof fn lemma_log_push(log: Seq<Transaction>, t: Transaction)
    ensures
        log.push(t).drop_last() == log,
        log.push(t).last() == t,
        log.push(t).len() == log.len() + 1,
{
    assert(log.push(t).drop_last() =~= log);
}

/// An exclusively held full-duplex SPI bus.
///
/// The driver owning the bus also owns the chip-select pin and brackets
/// every `transfer` with it.
pub trait SpiBus: Sized {
    /// The transport's opaque error type.
    type Error;

    /// The transactions this bus has carried so far, oldest first. The
    /// default leaves it unconstrained, as for any abstract state;
    /// implementations need not override it.
    open spec fn log(&self) -> Seq<Transaction> {
        arbitrary()
    }

    /// Transfers `tx` on the wire and returns the bytes clocked in
    /// concurrently, one per command byte.
    fn transfer(&mut self, tx: &Vec<u8>) -> (r: Result<Vec<u8>, Self::Error>)
        ensures
            r matches Ok(rx) ==> rx@.len() == tx@.len() && final(self).log() == old(self).log()
                .push((Transaction { frame: tx@, response: Some(rx@) })),
            r is Err ==> final(self).log() == old(self).log().push(
                (Transaction { frame: tx@, response: None }),
            ),
    ;
}

/// One addressed device of a shared SPI bus.
///
/// The implementation asserts chip-select, runs the transfer and releases
/// chip-select as one transaction, and guarantees that no other device's
/// transaction on the same bus interleaves with it.
pub trait SpiDevice: Sized {
    /// The transport's opaque error type.
    type Error;

    /// The transactions sent to this device so far, oldest first. The
    /// default leaves it unconstrained, as for any abstract state;
    /// implementations need not override it.
    open spec fn log(&self) -> Seq<Transaction> {
        arbitrary()
    }

    /// Runs one chip-select-bracketed transaction transferring `tx` and
    /// returns the bytes clocked in concurrently, one per command byte.
    fn transfer(&mut self, tx: &Vec<u8>) -> (r: Result<Vec<u8>, Self::Error>)
        ensures
            r matches Ok(rx) ==> rx@.len() == tx@.len() && final(self).log() == old(self).log()
                .push((Transaction { frame: tx@, response: Some(rx@) })),
            r is Err ==> final(self).log() == old(self).log().push(
                (Transaction { frame: tx@, response: None }),
            ),
    ;
}

/// A chip-select output pin, active low.
///
/// Driving the pin low enables the sensor to respond on the bus; driving
/// it high ends the transaction.
pub trait CsPin: Sized {
    /// Whether the pin is currently driven low (chip selected). The
    /// default leaves it unconstrained, as for any abstract state;
    /// implementations need not override it.
    open spec fn is_low(&self) -> bool {
        arbitrary()
    }

    /// Drives the pin low, asserting chip-select.
    fn set_low(&mut self)
        ensures
            final(self).is_low(),
    ;

    /// Drives the pin high, releasing chip-select.
    fn set_high(&mut self)
        ensures
            !final(self).is_low(),
    ;
}

} // verus!
