//! A stand-in bus for examples: it accepts every write and answers reads of the
//! input registers with fixed levels.
use vstd::prelude::*;

use crate::bus::{write_transfer, Direction, I2cBus, Transfer};

verus! {

/// Level pattern that reads of the Bank0 input register return.
pub const DUMMY_INPUT_0: u8 = 0b0010_0110;
/// Level pattern that reads of the Bank1 input register return.
pub const DUMMY_INPUT_1: u8 = 0b1110_0101;

/// A bus with no chip behind it, for examples.
pub struct DummyI2CBus {
    /// Command byte of the last write.
    previous_register: u8,
    /// The transactions made on this bus.
    log: Ghost<Seq<Transfer<core::convert::Infallible>>>,
}

impl DummyI2CBus {
    /// The command byte of the last write, zero before any.
    pub closed spec fn previous_register(&self) -> u8 {
        self.previous_register
    }

    /// A bus on which nothing was written yet.
    pub fn new() -> (r: Self)
        ensures
            r.previous_register() == 0,
            r.history() == Seq::<Transfer<core::convert::Infallible>>::empty(),
    {
        DummyI2CBus { previous_register: 0, log: Ghost(Seq::empty()) }
    }
}

impl Default for DummyI2CBus {
    fn default() -> (r: Self)
        ensures
            r.previous_register() == 0,
            r.history() == Seq::<Transfer<core::convert::Infallible>>::empty(),
    {
        DummyI2CBus::new()
    }
}

impl I2cBus for DummyI2CBus {
    type Error = core::convert::Infallible;

    closed spec fn history(&self) -> Seq<Transfer<Self::Error>> {
        self.log@
    }

    fn write(&mut self, address: u8, bytes: &[u8]) -> (r: Result<(), Self::Error>) {
        if bytes.len() > 0 {
            self.previous_register = bytes[0];
        }
        let r = Ok(());
        proof {
            self.log@ = self.log@.push(write_transfer(address, bytes@, r));
        }
        r
    }

    fn read(&mut self, address: u8, buffer: &mut [u8]) -> (r: Result<(), Self::Error>) {
        if buffer.len() > 0 {
            if self.previous_register == 0x00 {
                buffer[0] = DUMMY_INPUT_0;
            } else if self.previous_register == 0x01 {
                buffer[0] = DUMMY_INPUT_1;
            }
        }
        let r = Ok(());
        proof {
            self.log@ = self.log@.push(
                Transfer { direction: Direction::Read, address, bytes: buffer@, outcome: r },
            );
        }
        r
    }
}

} // verus!
