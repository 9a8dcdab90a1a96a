//! What the pin handles do to the shared expander: each operation of a pin
//! handle is one of these, run while the handle holds exclusive access.
use vstd::prelude::*;

use crate::bits::{bit_is_set, with_bit};
use crate::bus::{write_transfer, I2cBus};
use crate::expander::{
    command, exchange_end, exchange_result, is_input_exchange, Bank, Mode, PCA9539, PinID,
    RefreshInputError, Register,
};

verus! {

/// The registers that a state resync sends, in the order it sends them.
pub open spec fn resync_order(i: int) -> (Register, Bank) {
    if i == 0 {
        (Register::Configuration, Bank::Bank0)
    } else if i == 1 {
        (Register::Configuration, Bank::Bank1)
    } else if i == 2 {
        (Register::Polarity, Bank::Bank0)
    } else if i == 3 {
        (Register::Polarity, Bank::Bank1)
    } else if i == 4 {
        (Register::Output, Bank::Bank0)
    } else {
        (Register::Output, Bank::Bank1)
    }
}

/// How many registers a state resync sends.
pub const RESYNC_LEN: usize = 6;

fn resync_entry(i: usize) -> (r: (Register, Bank))
    requires
        i < RESYNC_LEN,
    ensures
        r == resync_order(i as int),
{
    match i {
        0 => (Register::Configuration, Bank::Bank0),
        1 => (Register::Configuration, Bank::Bank1),
        2 => (Register::Polarity, Bank::Bank0),
        3 => (Register::Polarity, Bank::Bank1),
        4 => (Register::Output, Bank::Bank0),
        _ => (Register::Output, Bank::Bank1),
    }
}

impl<B: I2cBus> PCA9539<B> {
    /// `self` is `old` after a resync that returned `r`: the configuration,
    /// polarity and output bytes, in `resync_order`, each in one write, stopping
    /// after the first write that the bus refused.
    pub open spec fn state_resent(&self, old: &Self, r: Result<(), B::Error>) -> bool {
        let n = old.transfers().len() as int;
        let t = self.transfers();
        let k = t.len() - n;
        &&& self.same_registers(old)
        &&& self.address() == old.address()
        &&& 1 <= k <= RESYNC_LEN
        &&& t.take(n) == old.transfers()
        &&& forall|i: int|
            0 <= i < k ==> #[trigger] t[n + i] == write_transfer(
                old.address(),
                seq![command(resync_order(i).0, resync_order(i).1), old.register(resync_order(i).0, resync_order(i).1)],
                t[n + i].outcome,
            )
        &&& forall|i: int| 0 <= i < k - 1 ==> (#[trigger] t[n + i]).outcome is Ok
        &&& r == t[n + k - 1].outcome
        &&& k < RESYNC_LEN ==> r is Err
    }

    /// `self` is `old` after writes of the output bytes of Bank0 and then Bank1
    /// that returned `r`. A failure on Bank0 is returned at once and Bank1 is not
    /// written.
    pub open spec fn all_outputs_written(&self, old: &Self, r: Result<(), B::Error>) -> bool {
        let n = old.transfers().len() as int;
        let t = self.transfers();
        let out0 = old.register(Register::Output, Bank::Bank0);
        let out1 = old.register(Register::Output, Bank::Bank1);
        &&& self.same_registers(old)
        &&& self.address() == old.address()
        &&& n < t.len()
        &&& t.take(n) == old.transfers()
        &&& t[n] == write_transfer(
            old.address(),
            seq![command(Register::Output, Bank::Bank0), out0],
            t[n].outcome,
        )
        &&& if t[n].outcome is Ok {
            &&& t.len() == n + 2
            &&& t[n + 1] == write_transfer(
                old.address(),
                seq![command(Register::Output, Bank::Bank1), out1],
                r,
            )
        } else {
            &&& t.len() == n + 1
            &&& r == t[n].outcome
        }
    }

    /// `self` is `old` after pin `id` of `bank` was made an output at level
    /// `is_high`, which returned `r`: a write of the configuration byte with the
    /// pin's bit cleared, then, only if the bus accepted it, a write of the output
    /// byte with the pin's bit set to the level.
    pub open spec fn switched_to_output(&self, old: &Self, bank: Bank, id: PinID, is_high: bool, r: Result<(), B::Error>) -> bool {
        let n = old.transfers().len() as int;
        let t = self.transfers();
        let conf = with_bit(old.register(Register::Configuration, bank), id.index(), false);
        let out = with_bit(old.register(Register::Output, bank), id.index(), is_high);
        &&& self.address() == old.address()
        &&& n < t.len()
        &&& t.take(n) == old.transfers()
        &&& t[n] == write_transfer(
            old.address(),
            seq![command(Register::Configuration, bank), conf],
            t[n].outcome,
        )
        &&& self.register(Register::Configuration, bank) == conf
        &&& if t[n].outcome is Ok {
            &&& t.len() == n + 2
            &&& t[n + 1] == write_transfer(
                old.address(),
                seq![command(Register::Output, bank), out],
                r,
            )
            &&& self.register(Register::Output, bank) == out
            &&& forall|reg: Register, b: Bank|
                !(b == bank && (reg == Register::Configuration || reg == Register::Output))
                    ==> #[trigger] self.register(reg, b) == old.register(reg, b)
        } else {
            &&& t.len() == n + 1
            &&& r == t[n].outcome
            &&& self.same_registers_except(old, Register::Configuration, bank)
        }
    }

    /// `self` is `old` after input refreshes of Bank0 and then Bank1 that
    /// returned `r`. A failure on Bank0 is returned at once: Bank1 is not
    /// attempted and the cache is left as it was.
    pub open spec fn all_inputs_refreshed(&self, old: &Self, r: Result<(), RefreshInputError<B::Error>>) -> bool {
        let n = old.transfers().len() as int;
        let t = self.transfers();
        let m = exchange_end(t, n);
        &&& self.address() == old.address()
        &&& is_input_exchange(t, n, old.address(), Bank::Bank0)
        &&& t.take(n) == old.transfers()
        &&& match exchange_result(t, n) {
            Err(e) => {
                &&& r == Err::<(), _>(e)
                &&& t.len() == m
                &&& self.same_registers(old)
            },
            Ok(first) => {
                &&& self.register(Register::Input, Bank::Bank0) == first
                &&& is_input_exchange(t, m, old.address(), Bank::Bank1)
                &&& t.len() == exchange_end(t, m)
                &&& match exchange_result(t, m) {
                    Err(e) => {
                        &&& r == Err::<(), _>(e)
                        &&& self.same_registers_except(old, Register::Input, Bank::Bank0)
                    },
                    Ok(second) => {
                        &&& r is Ok
                        &&& self.register(Register::Input, Bank::Bank1) == second
                        &&& forall|reg: Register, b: Bank|
                            reg != Register::Input ==> #[trigger] self.register(reg, b)
                                == old.register(reg, b)
                    },
                }
            },
        }
    }

    /// The input level of pin `id` of `bank`, read from the chip now: a refresh
    /// of the bank's input register, then its cached bit.
    pub fn read_pin_input(&mut self, bank: Bank, id: PinID) -> (r: Result<bool, RefreshInputError<B::Error>>)
        ensures
            final(self).input_refreshed(
                old(self),
                bank,
                match r {
                    Ok(_) => Ok(()),
                    Err(e) => Err(e),
                },
            ),
            r is Ok ==> r == Ok::<bool, RefreshInputError<B::Error>>(
                bit_is_set(final(self).register(Register::Input, bank), id.index()),
            ),
    {
        match self.refresh_input_state(bank) {
            Ok(()) => Ok(self.is_pin_input_high(bank, id)),
            Err(e) => Err(e),
        }
    }

    /// Drives pin `id` of `bank` to a level now: sets the cached output bit, then
    /// writes the bank's output byte.
    pub fn write_pin_output(&mut self, bank: Bank, id: PinID, is_high: bool) -> (r: Result<(), B::Error>)
        ensures
            final(self).committed(
                old(self),
                Register::Output,
                bank,
                with_bit(old(self).register(Register::Output, bank), id.index(), is_high),
                r,
            ),
    {
        self.set_state(bank, id, is_high);
        self.write_output_state(bank)
    }

    /// Makes pin `id` of `bank` an output at the given level: switches its mode,
    /// and only if that write succeeded, sets its output bit and writes the
    /// bank's output byte.
    pub fn switch_to_output(&mut self, bank: Bank, id: PinID, is_high: bool) -> (r: Result<(), B::Error>)
        ensures
            final(self).switched_to_output(old(self), bank, id, is_high, r),
    {
        let ghost before = *self;
        match self.set_mode(bank, id, Mode::Output) {
            Err(e) => {
                assert(self.transfers().take(before.transfers().len() as int) =~= before.transfers());
                return Err(e);
            },
            Ok(()) => {},
        }
        let ghost mid = *self;
        let r = self.write_pin_output(bank, id, is_high);
        assert(self.transfers().take(before.transfers().len() as int) =~= before.transfers());
        assert(self.transfers()[before.transfers().len() as int] == mid.transfers()[before.transfers().len() as int]);
        r
    }

    /// Refreshes the cached input registers of both banks, Bank0 first. A failure
    /// on Bank0 is returned at once and Bank1 is not attempted.
    pub fn refresh_input_state_all(&mut self) -> (r: Result<(), RefreshInputError<B::Error>>)
        ensures
            final(self).all_inputs_refreshed(old(self), r),
    {
        let ghost before = *self;
        match self.refresh_input_state(Bank::Bank0) {
            Err(e) => {
                return Err(e);
            },
            Ok(()) => {},
        }
        let ghost mid = *self;
        let r = self.refresh_input_state(Bank::Bank1);
        proof {
            let n = before.transfers().len() as int;
            let m = mid.transfers().len() as int;
            let t = self.transfers();
            assert(t.take(m) == mid.transfers());
            assert forall|i: int| 0 <= i < m implies t[i] == mid.transfers()[i] by {
                assert(t.take(m)[i] == t[i]);
            }
            assert(t.take(n) =~= before.transfers()) by {
                assert forall|i: int| 0 <= i < n implies t.take(n)[i] == before.transfers()[i] by {
                    assert(mid.transfers().take(n)[i] == mid.transfers()[i]);
                }
            }
            assert(exchange_end(t, n) == m);
        }
        r
    }

    /// Writes the cached output bytes of both banks, Bank0 first. A failure on
    /// Bank0 is returned at once and Bank1 is not attempted.
    pub fn write_output_state_all(&mut self) -> (r: Result<(), B::Error>)
        ensures
            final(self).all_outputs_written(old(self), r),
    {
        let ghost before = *self;
        match self.write_output_state(Bank::Bank0) {
            Err(e) => {
                assert(self.transfers().take(before.transfers().len() as int) =~= before.transfers());
                return Err(e);
            },
            Ok(()) => {},
        }
        let ghost mid = *self;
        let r = self.write_output_state(Bank::Bank1);
        assert(self.transfers().take(before.transfers().len() as int) =~= before.transfers());
        assert(self.transfers()[before.transfers().len() as int] == mid.transfers()[before.transfers().len() as int]);
        r
    }

    /// Sends the cached configuration, polarity and output registers of both
    /// banks to the chip, so that a chip that was reset again matches the cache.
    /// The input registers are not sent: the chip does not take them. Stops at
    /// the first write that fails and returns its error.
    pub fn sync_state(&mut self) -> (r: Result<(), B::Error>)
        ensures
            final(self).state_resent(old(self), r),
    {
        let ghost before = *self;
        let ghost n = before.transfers().len() as int;
        let mut i: usize = 0;
        let mut last: Result<(), B::Error> = Ok(());
        while i < RESYNC_LEN
            invariant
                0 <= i <= RESYNC_LEN,
                before == *old(self),
                n == before.transfers().len(),
                self.same_registers(&before),
                self.address() == before.address(),
                self.transfers().len() == n + i,
                self.transfers().take(n) == before.transfers(),
                forall|j: int|
                    0 <= j < i ==> #[trigger] self.transfers()[n + j] == write_transfer(
                        before.address(),
                        seq![command(resync_order(j).0, resync_order(j).1), before.register(resync_order(j).0, resync_order(j).1)],
                        self.transfers()[n + j].outcome,
                    ),
                forall|j: int| 0 <= j < i ==> (#[trigger] self.transfers()[n + j]).outcome is Ok,
                i > 0 ==> last == self.transfers()[n + i - 1].outcome,
            decreases RESYNC_LEN - i,
        {
            let ghost prev = *self;
            let (register, bank) = resync_entry(i);
            let outcome = self.write_register(register, bank);
            assert(self.transfers().take(n) =~= prev.transfers().take(n));
            assert forall|j: int| 0 <= j < i implies #[trigger] self.transfers()[n + j] == prev.transfers()[n + j] by {}
            assert(self.transfers()[n + i] == write_transfer(
                before.address(),
                seq![command(resync_order(i as int).0, resync_order(i as int).1), before.register(resync_order(i as int).0, resync_order(i as int).1)],
                outcome,
            ));
            if outcome.is_err() {
                return outcome;
            }
            last = outcome;
            i = i + 1;
        }
        last
    }
}

} // verus!
