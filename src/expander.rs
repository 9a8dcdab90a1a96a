//! The expander: a cached copy of the chip's eight registers and the
//! register protocol that commits them over the bus.
use vstd::prelude::*;

use crate::bits::{bit_is_set, get_bit, set_bit, with_bit};
use crate::bus::{write_transfer, Direction, I2cBus, Transfer};

verus! {

/// GPIO bank. The chip has two banks of eight pins each.
#[derive(PartialEq, Eq, Structural, Clone, Copy, Debug)]
pub enum Bank {
    Bank0,
    Bank1,
}

/// GPIO pin within a bank. Together with the bank it names one pin of the chip.
#[derive(PartialEq, Eq, Structural, Clone, Copy, Debug)]
pub enum PinID {
    Pin0,
    Pin1,
    Pin2,
    Pin3,
    Pin4,
    Pin5,
    Pin6,
    Pin7,
}

/// GPIO direction.
#[derive(PartialEq, Eq, Structural, Clone, Copy, Debug)]
pub enum Mode {
    Output,
    Input,
}

/// The four registers that each bank has.
#[derive(PartialEq, Eq, Structural, Clone, Copy, Debug)]
pub enum Register {
    /// Input levels, as last read from the chip.
    Input,
    /// Levels that the output drivers are told to hold.
    Output,
    /// Input polarity inversion flags.
    Polarity,
    /// Pin directions: a set bit is an input, a cleared bit an output.
    Configuration,
}

impl PinID {
    /// The bit of a register byte that belongs to this pin.
    pub open spec fn spec_index(self) -> u8 {
        match self {
            PinID::Pin0 => 0,
            PinID::Pin1 => 1,
            PinID::Pin2 => 2,
            PinID::Pin3 => 3,
            PinID::Pin4 => 4,
            PinID::Pin5 => 5,
            PinID::Pin6 => 6,
            PinID::Pin7 => 7,
        }
    }

    /// The bit of a register byte that belongs to this pin.
    #[verifier::when_used_as_spec(spec_index)]
    pub fn index(self) -> (r: u8)
        ensures
            r == self.spec_index(),
            r < 8,
    {
        match self {
            PinID::Pin0 => 0,
            PinID::Pin1 => 1,
            PinID::Pin2 => 2,
            PinID::Pin3 => 3,
            PinID::Pin4 => 4,
            PinID::Pin5 => 5,
            PinID::Pin6 => 6,
            PinID::Pin7 => 7,
        }
    }
}

/// The configuration bit that selects `mode`: set for input, cleared for output.
pub open spec fn mode_bit(mode: Mode) -> bool {
    mode == Mode::Input
}

impl From<Mode> for bool {
    fn from(mode: Mode) -> (r: bool) {
        match mode {
            Mode::Output => false,
            Mode::Input => true,
        }
    }
}

impl vstd::std_specs::convert::FromSpecImpl<Mode> for bool {
    open spec fn obeys_from_spec() -> bool {
        true
    }

    open spec fn from_spec(mode: Mode) -> bool {
        mode_bit(mode)
    }
}

pub const COMMAND_INPUT_0: u8 = 0x00;
pub const COMMAND_INPUT_1: u8 = 0x01;
pub const COMMAND_OUTPUT_0: u8 = 0x02;
pub const COMMAND_OUTPUT_1: u8 = 0x03;
pub const COMMAND_POLARITY_0: u8 = 0x04;
pub const COMMAND_POLARITY_1: u8 = 0x05;
pub const COMMAND_CONF_0: u8 = 0x06;
pub const COMMAND_CONF_1: u8 = 0x07;

/// The command byte that selects `register` of `bank`.
pub open spec fn command(register: Register, bank: Bank) -> u8 {
    match (register, bank) {
        (Register::Input, Bank::Bank0) => COMMAND_INPUT_0,
        (Register::Input, Bank::Bank1) => COMMAND_INPUT_1,
        (Register::Output, Bank::Bank0) => COMMAND_OUTPUT_0,
        (Register::Output, Bank::Bank1) => COMMAND_OUTPUT_1,
        (Register::Polarity, Bank::Bank0) => COMMAND_POLARITY_0,
        (Register::Polarity, Bank::Bank1) => COMMAND_POLARITY_1,
        (Register::Configuration, Bank::Bank0) => COMMAND_CONF_0,
        (Register::Configuration, Bank::Bank1) => COMMAND_CONF_1,
    }
}

/// The command byte that selects `register` of `bank`.
pub fn command_byte(register: Register, bank: Bank) -> (r: u8)
    ensures
        r == command(register, bank),
{
    match (register, bank) {
        (Register::Input, Bank::Bank0) => COMMAND_INPUT_0,
        (Register::Input, Bank::Bank1) => COMMAND_INPUT_1,
        (Register::Output, Bank::Bank0) => COMMAND_OUTPUT_0,
        (Register::Output, Bank::Bank1) => COMMAND_OUTPUT_1,
        (Register::Polarity, Bank::Bank0) => COMMAND_POLARITY_0,
        (Register::Polarity, Bank::Bank1) => COMMAND_POLARITY_1,
        (Register::Configuration, Bank::Bank0) => COMMAND_CONF_0,
        (Register::Configuration, Bank::Bank1) => COMMAND_CONF_1,
    }
}

/// The value that the chip holds in `register` after power-on.
pub open spec fn reset_value(register: Register) -> u8 {
    match register {
        Register::Input => 0x00,
        Register::Output => 0xFF,
        Register::Polarity => 0x00,
        Register::Configuration => 0xFF,
    }
}

/// Error of an input refresh, which writes the register pointer and then reads.
#[derive(Debug)]
pub enum RefreshInputError<E> {
    /// The bus failed to write the register pointer; no read was made.
    WriteError(E),
    /// The pointer was written, then the bus failed to read.
    ReadError(E),
}

impl<E> RefreshInputError<E> {
    /// The name of the phase that failed.
    pub fn to_string(&self) -> (r: String)
        ensures
            r@ == match self {
                RefreshInputError::WriteError(_) => "WriteError"@,
                RefreshInputError::ReadError(_) => "ReadError"@,
            },
    {
        match self {
            RefreshInputError::WriteError(_) => "WriteError".to_owned(),
            RefreshInputError::ReadError(_) => "ReadError".to_owned(),
        }
    }
}

/// The configuration byte that `set_mode_all` writes: every pin in `mode`.
pub open spec fn all_pins_mode(mode: Mode) -> u8 {
    if mode == Mode::Input {
        0xFF
    } else {
        0x00
    }
}

/// The output byte that `set_state_all` writes: every pin at one level.
pub open spec fn all_pins_level(is_high: bool) -> u8 {
    if is_high {
        0xFF
    } else {
        0x00
    }
}

/// The transfer at `t[n]` starts an input read of `bank` from the chip at
/// `address`: a write of the register pointer and, only if the bus accepted it,
/// a read of one byte.
pub open spec fn is_input_exchange<E>(t: Seq<Transfer<E>>, n: int, address: u8, bank: Bank) -> bool {
    &&& 0 <= n < t.len()
    &&& t[n].direction == Direction::Write
    &&& t[n].address == address
    &&& t[n].bytes == seq![command(Register::Input, bank)]
    &&& t[n].outcome is Ok ==> {
        &&& n + 1 < t.len()
        &&& t[n + 1].direction == Direction::Read
        &&& t[n + 1].address == address
        &&& t[n + 1].bytes.len() == 1
    }
}

/// Where the input exchange that starts at `t[n]` ends.
pub open spec fn exchange_end<E>(t: Seq<Transfer<E>>, n: int) -> int {
    if t[n].outcome is Ok {
        n + 2
    } else {
        n + 1
    }
}

/// What the input exchange that starts at `t[n]` yields: the byte read, or the
/// error of the phase that failed.
pub open spec fn exchange_result<E>(t: Seq<Transfer<E>>, n: int) -> Result<u8, RefreshInputError<E>> {
    match t[n].outcome {
        Err(e) => Err(RefreshInputError::WriteError(e)),
        Ok(_) => match t[n + 1].outcome {
            Err(e) => Err(RefreshInputError::ReadError(e)),
            Ok(_) => Ok(t[n + 1].bytes[0]),
        },
    }
}

/// An expander chip on an I2C bus, with a cached copy of its registers.
pub struct PCA9539<B: I2cBus> {
    bus: B,
    address: u8,
    input_0: u8,
    input_1: u8,
    output_0: u8,
    output_1: u8,
    polarity_0: u8,
    polarity_1: u8,
    configuration_0: u8,
    configuration_1: u8,
}

impl<B: I2cBus> PCA9539<B> {
    /// The cached value of `register` of `bank`.
    pub closed spec fn register(&self, register: Register, bank: Bank) -> u8 {
        match (register, bank) {
            (Register::Input, Bank::Bank0) => self.input_0,
            (Register::Input, Bank::Bank1) => self.input_1,
            (Register::Output, Bank::Bank0) => self.output_0,
            (Register::Output, Bank::Bank1) => self.output_1,
            (Register::Polarity, Bank::Bank0) => self.polarity_0,
            (Register::Polarity, Bank::Bank1) => self.polarity_1,
            (Register::Configuration, Bank::Bank0) => self.configuration_0,
            (Register::Configuration, Bank::Bank1) => self.configuration_1,
        }
    }

    /// The seven-bit address of the chip on its bus.
    pub closed spec fn address(&self) -> u8 {
        self.address
    }

    /// The bus the chip is reached through.
    pub closed spec fn bus(&self) -> B {
        self.bus
    }

    /// Every transaction made on the expander's bus, oldest first.
    pub open spec fn transfers(&self) -> Seq<Transfer<B::Error>> {
        self.bus().history()
    }

    /// Every cached register of `self` equals that of `other`.
    pub open spec fn same_registers(&self, other: &Self) -> bool {
        forall|r: Register, b: Bank| #[trigger] self.register(r, b) == other.register(r, b)
    }

    /// Every cached register of `self` but `register` of `bank` equals that of `other`.
    pub open spec fn same_registers_except(&self, other: &Self, register: Register, bank: Bank) -> bool {
        forall|r: Register, b: Bank|
            !(r == register && b == bank) ==> #[trigger] self.register(r, b) == other.register(r, b)
    }

    /// `self` is `old` with a new cached value of `register` of `bank`, nothing sent.
    pub open spec fn cache_update(&self, old: &Self, register: Register, bank: Bank, value: u8) -> bool {
        &&& self.register(register, bank) == value
        &&& self.same_registers_except(old, register, bank)
        &&& self.address() == old.address()
        &&& self.bus() == old.bus()
        &&& self.transfers() == old.transfers()
    }

    /// `self` is `old` after one write of `register` of `bank`, answered with `outcome`.
    pub open spec fn register_written(&self, old: &Self, register: Register, bank: Bank, outcome: Result<(), B::Error>) -> bool {
        &&& self.same_registers(old)
        &&& self.address() == old.address()
        &&& self.transfers() == old.transfers().push(
            write_transfer(old.address(), seq![command(register, bank), old.register(register, bank)], outcome),
        )
    }

    /// `self` is `old` with `register` of `bank` set to `value` in the cache and then
    /// sent to the chip in one write, which the bus answered with `outcome`.
    pub open spec fn committed(&self, old: &Self, register: Register, bank: Bank, value: u8, outcome: Result<(), B::Error>) -> bool {
        &&& self.register(register, bank) == value
        &&& self.same_registers_except(old, register, bank)
        &&& self.address() == old.address()
        &&& self.transfers() == old.transfers().push(
            write_transfer(old.address(), seq![command(register, bank), value], outcome),
        )
    }

    /// `self` is `old` after an input refresh of `bank` that returned `r`: one
    /// write of the register pointer, then, only if the bus accepted it, one read
    /// of one byte. The byte read becomes the cached input register of `bank`; a
    /// failure of either phase is returned as that phase's error and leaves the
    /// cache as it was.
    pub open spec fn input_refreshed(&self, old: &Self, bank: Bank, r: Result<(), RefreshInputError<B::Error>>) -> bool {
        let n = old.transfers().len() as int;
        let t = self.transfers();
        &&& is_input_exchange(t, n, old.address(), bank)
        &&& t.len() == exchange_end(t, n)
        &&& t.take(n) == old.transfers()
        &&& self.address() == old.address()
        &&& match exchange_result(t, n) {
            Ok(value) => {
                &&& r is Ok
                &&& self.register(Register::Input, bank) == value
                &&& self.same_registers_except(old, Register::Input, bank)
            },
            Err(e) => {
                &&& r == Err::<(), _>(e)
                &&& self.same_registers(old)
            },
        }
    }

    /// Creates an expander for the chip at `address`, with the cache holding the
    /// chip's power-on state. Nothing is sent.
    pub fn new(bus: B, address: u8) -> (e: Self)
        ensures
            forall|r: Register, b: Bank| #[trigger] e.register(r, b) == reset_value(r),
            e.address() == address,
            e.bus() == bus,
            e.transfers() == bus.history(),
    {
        PCA9539 {
            bus,
            address,
            input_0: 0x00,
            input_1: 0x00,
            output_0: 0xFF,
            output_1: 0xFF,
            polarity_0: 0x00,
            polarity_1: 0x00,
            configuration_0: 0xFF,
            configuration_1: 0xFF,
        }
    }

    /// The cached value of `register` of `bank`.
    fn get_register(&self, register: Register, bank: Bank) -> (r: u8)
        ensures
            r == self.register(register, bank),
    {
        match (register, bank) {
            (Register::Input, Bank::Bank0) => self.input_0,
            (Register::Input, Bank::Bank1) => self.input_1,
            (Register::Output, Bank::Bank0) => self.output_0,
            (Register::Output, Bank::Bank1) => self.output_1,
            (Register::Polarity, Bank::Bank0) => self.polarity_0,
            (Register::Polarity, Bank::Bank1) => self.polarity_1,
            (Register::Configuration, Bank::Bank0) => self.configuration_0,
            (Register::Configuration, Bank::Bank1) => self.configuration_1,
        }
    }

    /// Replaces the cached value of `register` of `bank`.
    fn put_register(&mut self, register: Register, bank: Bank, value: u8)
        ensures
            final(self).cache_update(old(self), register, bank, value),
    {
        match (register, bank) {
            (Register::Input, Bank::Bank0) => self.input_0 = value,
            (Register::Input, Bank::Bank1) => self.input_1 = value,
            (Register::Output, Bank::Bank0) => self.output_0 = value,
            (Register::Output, Bank::Bank1) => self.output_1 = value,
            (Register::Polarity, Bank::Bank0) => self.polarity_0 = value,
            (Register::Polarity, Bank::Bank1) => self.polarity_1 = value,
            (Register::Configuration, Bank::Bank0) => self.configuration_0 = value,
            (Register::Configuration, Bank::Bank1) => self.configuration_1 = value,
        }
    }

    /// Sends the cached value of `register` of `bank` to the chip in one write.
    pub(crate) fn write_register(&mut self, register: Register, bank: Bank) -> (r: Result<(), B::Error>)
        ensures
            final(self).register_written(old(self), register, bank, r),
    {
        let bytes: [u8; 2] = [command_byte(register, bank), self.get_register(register, bank)];
        let r = self.bus.write(self.address, &bytes);
        assert(bytes@ =~= seq![command(register, bank), self.register(register, bank)]);
        r
    }
    /// Switches pin `id` of `bank` to `mode` in the cached configuration, then
    /// writes the bank's whole configuration byte.
    pub fn set_mode(&mut self, bank: Bank, id: PinID, mode: Mode) -> (r: Result<(), B::Error>)
        ensures
            final(self).committed(
                old(self),
                Register::Configuration,
                bank,
                with_bit(old(self).register(Register::Configuration, bank), id.index(), mode_bit(mode)),
                r,
            ),
    {
        let value = set_bit(self.get_register(Register::Configuration, bank), id.index(), bool::from(mode));
        self.put_register(Register::Configuration, bank, value);
        self.write_register(Register::Configuration, bank)
    }

    /// Switches every pin of `bank` to `mode` and writes the configuration byte.
    pub fn set_mode_all(&mut self, bank: Bank, mode: Mode) -> (r: Result<(), B::Error>)
        ensures
            final(self).committed(old(self), Register::Configuration, bank, all_pins_mode(mode), r),
    {
        let value: u8 = if mode == Mode::Input {
            0xFF
        } else {
            0x00
        };
        self.put_register(Register::Configuration, bank, value);
        self.write_register(Register::Configuration, bank)
    }

    /// Sets the cached output level of pin `id` of `bank`. Nothing is sent:
    /// `write_output_state` commits the bank's output byte.
    pub fn set_state(&mut self, bank: Bank, id: PinID, is_high: bool)
        ensures
            final(self).cache_update(
                old(self),
                Register::Output,
                bank,
                with_bit(old(self).register(Register::Output, bank), id.index(), is_high),
            ),
    {
        let value = set_bit(self.get_register(Register::Output, bank), id.index(), is_high);
        self.put_register(Register::Output, bank, value);
    }

    /// Sets the output level of every pin of `bank` and writes the output byte.
    pub fn set_state_all(&mut self, bank: Bank, is_high: bool) -> (r: Result<(), B::Error>)
        ensures
            final(self).committed(old(self), Register::Output, bank, all_pins_level(is_high), r),
    {
        let value: u8 = if is_high {
            0xFF
        } else {
            0x00
        };
        self.put_register(Register::Output, bank, value);
        self.write_output_state(bank)
    }

    /// Sets or clears the input polarity inversion of pin `id` of `bank`, then
    /// writes the bank's polarity byte.
    pub fn reverse_polarity(&mut self, bank: Bank, id: PinID, reversed: bool) -> (r: Result<(), B::Error>)
        ensures
            final(self).committed(
                old(self),
                Register::Polarity,
                bank,
                with_bit(old(self).register(Register::Polarity, bank), id.index(), reversed),
                r,
            ),
    {
        let value = set_bit(self.get_register(Register::Polarity, bank), id.index(), reversed);
        self.put_register(Register::Polarity, bank, value);
        self.write_register(Register::Polarity, bank)
    }

    /// Writes the cached output byte of `bank` to the chip.
    pub fn write_output_state(&mut self, bank: Bank) -> (r: Result<(), B::Error>)
        ensures
            final(self).register_written(old(self), Register::Output, bank, r),
    {
        self.write_register(Register::Output, bank)
    }

    /// Reads the input register of `bank`: writes the register pointer, then,
    /// only if that succeeded, reads one byte. The cache is left as it was.
    fn read_input_register(&mut self, bank: Bank) -> (r: Result<u8, RefreshInputError<B::Error>>)
        ensures
            is_input_exchange(final(self).transfers(), old(self).transfers().len() as int, old(self).address(), bank),
            final(self).transfers().len() == exchange_end(final(self).transfers(), old(self).transfers().len() as int),
            final(self).transfers().take(old(self).transfers().len() as int) == old(self).transfers(),
            r == exchange_result(final(self).transfers(), old(self).transfers().len() as int),
            final(self).same_registers(old(self)),
            final(self).address() == old(self).address(),
    {
        let pointer: [u8; 1] = [command_byte(Register::Input, bank)];
        let written = self.bus.write(self.address, &pointer);
        assert(pointer@ =~= seq![command(Register::Input, bank)]);
        assert(self.transfers().take(old(self).transfers().len() as int) =~= old(self).transfers());
        match written {
            Err(e) => {
                return Err(RefreshInputError::WriteError(e));
            },
            Ok(()) => {},
        }
        let mut buffer: [u8; 1] = [0u8];
        let read = self.bus.read(self.address, &mut buffer);
        assert(self.transfers().take(old(self).transfers().len() as int) =~= old(self).transfers());
        match read {
            Err(e) => Err(RefreshInputError::ReadError(e)),
            Ok(()) => Ok(buffer[0]),
        }
    }

    /// Refreshes the cached input register of `bank` from the chip. A failure
    /// of either phase leaves the cache as it was.
    pub fn refresh_input_state(&mut self, bank: Bank) -> (r: Result<(), RefreshInputError<B::Error>>)
        ensures
            final(self).input_refreshed(old(self), bank, r),
    {
        match self.read_input_register(bank) {
            Ok(value) => {
                self.put_register(Register::Input, bank, value);
                Ok(())
            },
            Err(e) => Err(e),
        }
    }

    /// Whether the cached input level of pin `id` of `bank` is high. Reads no bus:
    /// `refresh_input_state` brings the cache up to date.
    pub fn is_pin_input_high(&self, bank: Bank, id: PinID) -> (r: bool)
        ensures
            r == bit_is_set(self.register(Register::Input, bank), id.index()),
    {
        get_bit(self.get_register(Register::Input, bank), id.index())
    }

    /// Whether the cached output level of pin `id` of `bank` is high: what the
    /// chip was last told, or is to be told, to drive.
    pub fn is_pin_output_high(&self, bank: Bank, id: PinID) -> (r: bool)
        ensures
            r == bit_is_set(self.register(Register::Output, bank), id.index()),
    {
        get_bit(self.get_register(Register::Output, bank), id.index())
    }
}

} // verus!
