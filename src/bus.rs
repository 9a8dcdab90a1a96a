//! The I2C bus that an expander talks through.
use vstd::prelude::*;

verus! {

/// A blocking I2C controller that addresses its targets with seven-bit addresses.
///
/// Each call is one transaction and may fail with the implementation's own error.
/// `history` is the bus's own record of the transactions made on it: each call
/// appends exactly one transfer, with the bytes that went over the wire and
/// what the call returned. Whether a call succeeds is the bus's to decide.
pub trait I2cBus {
    type Error;

    /// Every transaction made on this bus, oldest first. A bus written in
    /// verified code keeps this record; the default is for buses written
    /// outside it, whose calls Verus cannot check.
    closed spec fn history(&self) -> Seq<Transfer<Self::Error>> {
        Seq::empty()
    }

    /// Writes `bytes` to the target at `address`.
    fn write(&mut self, address: u8, bytes: &[u8]) -> (r: Result<(), Self::Error>)
        ensures
            final(self).history() == old(self).history().push(write_transfer(address, bytes@, r)),
    ;

    /// Reads `buffer.len()` bytes from the target at `address` into `buffer`.
    fn read(&mut self, address: u8, buffer: &mut [u8]) -> (r: Result<(), Self::Error>)
        ensures
            final(buffer)@.len() == old(buffer)@.len(),
            final(self).history() == old(self).history().push(
                Transfer { direction: Direction::Read, address, bytes: final(buffer)@, outcome: r },
            ),
    ;
}

/// Which way the bytes of a transfer went.
#[derive(PartialEq, Eq, Structural, Clone, Copy, Debug)]
pub enum Direction {
    Write,
    Read,
}

/// One transaction on a bus: the bytes sent, or the bytes found in the buffer
/// after a read, and what the bus returned.
pub ghost struct Transfer<E> {
    pub direction: Direction,
    pub address: u8,
    pub bytes: Seq<u8>,
    pub outcome: Result<(), E>,
}

/// A write of `bytes` to `address` that the bus answered with `outcome`.
pub open spec fn write_transfer<E>(address: u8, bytes: Seq<u8>, outcome: Result<(), E>) -> Transfer<E> {
    Transfer { direction: Direction::Write, address, bytes, outcome }
}

} // verus!
