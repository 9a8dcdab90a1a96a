//! Properties that hold across calls of the expander's operations.
use vstd::prelude::*;

use crate::bits::{bit_is_set, lemma_with_bit, with_bit};
use crate::bus::{write_transfer, Direction, I2cBus};
use crate::expander::{command, mode_bit, Bank, Mode, PCA9539, PinID, RefreshInputError, Register};

verus! {

/// Switching a pin to output and back to input sets that pin's configuration
/// bit and leaves the other seven bits as they were before both calls: the
/// byte is the one a single switch to input gives.
pub proof fn lemma_set_mode_round_trip<B: I2cBus>(
    e0: PCA9539<B>,
    e1: PCA9539<B>,
    e2: PCA9539<B>,
    bank: Bank,
    id: PinID,
    r1: Result<(), B::Error>,
    r2: Result<(), B::Error>,
)
    requires
        e1.committed(
            &e0,
            Register::Configuration,
            bank,
            with_bit(e0.register(Register::Configuration, bank), id.index(), mode_bit(Mode::Output)),
            r1,
        ),
        e2.committed(
            &e1,
            Register::Configuration,
            bank,
            with_bit(e1.register(Register::Configuration, bank), id.index(), mode_bit(Mode::Input)),
            r2,
        ),
    ensures
        e2.register(Register::Configuration, bank) == with_bit(
            e0.register(Register::Configuration, bank),
            id.index(),
            true,
        ),
        forall|j: u8|
            j < 8 ==> #[trigger] bit_is_set(e2.register(Register::Configuration, bank), j) == (j == id.index()
                || bit_is_set(e0.register(Register::Configuration, bank), j)),
        e2.same_registers_except(&e0, Register::Configuration, bank),
{
    let c = e0.register(Register::Configuration, bank);
    let i = id.index();
    assert(with_bit(with_bit(c, i, false), i, true) == with_bit(c, i, true)) by (bit_vector)
        requires
            i < 8,
    ;
    assert forall|j: u8| j < 8 implies #[trigger] bit_is_set(e2.register(Register::Configuration, bank), j) == (j
        == i || bit_is_set(c, j)) by {
        lemma_with_bit(c, i, true, j);
    }
}

/// A successful input refresh made exactly two transactions at the chip's
/// address, a write of the bank's input command byte and then a one-byte read,
/// and each pin's cached input level is the matching bit of the byte read.
pub proof fn lemma_refresh_reads_back<B: I2cBus>(
    before: PCA9539<B>,
    after: PCA9539<B>,
    bank: Bank,
    r: Result<(), RefreshInputError<B::Error>>,
)
    requires
        after.input_refreshed(&before, bank, r),
        r is Ok,
    ensures
        ({
            let n = before.transfers().len() as int;
            let t = after.transfers();
            &&& t.len() == n + 2
            &&& t.take(n) == before.transfers()
            &&& t[n].direction == Direction::Write
            &&& t[n].address == before.address()
            &&& t[n].bytes == seq![command(Register::Input, bank)]
            &&& t[n].outcome is Ok
            &&& t[n + 1].direction == Direction::Read
            &&& t[n + 1].address == before.address()
            &&& t[n + 1].bytes.len() == 1
            &&& t[n + 1].outcome is Ok
            &&& forall|id: PinID|
                #[trigger] bit_is_set(after.register(Register::Input, bank), id.index()) == bit_is_set(
                    t[n + 1].bytes[0],
                    id.index(),
                )
        }),
{
}

/// When the bus refuses the pointer write of an input refresh, the refresh
/// fails with that write error, no read is attempted, and the cache is kept.
pub proof fn lemma_refresh_write_failure_reads_nothing<B: I2cBus>(
    before: PCA9539<B>,
    after: PCA9539<B>,
    bank: Bank,
    r: Result<(), RefreshInputError<B::Error>>,
)
    requires
        after.input_refreshed(&before, bank, r),
        after.transfers()[before.transfers().len() as int].outcome is Err,
    ensures
        ({
            let n = before.transfers().len() as int;
            let t = after.transfers();
            &&& r == Err::<(), _>(RefreshInputError::WriteError(t[n].outcome->Err_0))
            &&& t.len() == n + 1
            &&& forall|i: int| n <= i < t.len() ==> #[trigger] t[i].direction == Direction::Write
            &&& after.same_registers(&before)
        }),
{
}

/// When the pointer write of an input refresh succeeds and the read fails, the
/// refresh fails with the read error, told apart from a write error by its
/// variant, and the cache is kept.
pub proof fn lemma_refresh_read_failure<B: I2cBus>(
    before: PCA9539<B>,
    after: PCA9539<B>,
    bank: Bank,
    r: Result<(), RefreshInputError<B::Error>>,
)
    requires
        after.input_refreshed(&before, bank, r),
        after.transfers()[before.transfers().len() as int].outcome is Ok,
        after.transfers()[before.transfers().len() as int + 1].outcome is Err,
    ensures
        ({
            let n = before.transfers().len() as int;
            let t = after.transfers();
            &&& r == Err::<(), _>(RefreshInputError::ReadError(t[n + 1].outcome->Err_0))
            &&& !(r matches Err(RefreshInputError::WriteError(_)))
            &&& after.same_registers(&before)
        }),
{
}

/// An update of both banks' outputs whose Bank0 write fails sends nothing for
/// Bank1 and returns Bank0's error.
pub proof fn lemma_update_all_short_circuits<B: I2cBus>(
    before: PCA9539<B>,
    after: PCA9539<B>,
    r: Result<(), B::Error>,
)
    requires
        after.all_outputs_written(&before, r),
        after.transfers()[before.transfers().len() as int].outcome is Err,
    ensures
        ({
            let n = before.transfers().len() as int;
            let t = after.transfers();
            &&& t.len() == n + 1
            &&& t[n] == write_transfer(
                before.address(),
                seq![command(Register::Output, Bank::Bank0), before.register(Register::Output, Bank::Bank0)],
                r,
            )
            &&& r is Err
        }),
{
}

/// The output byte `byte` after `changes`, applied in order, each setting one
/// pin's level: a later change of the same pin wins.
pub open spec fn with_levels(byte: u8, changes: Seq<(PinID, bool)>) -> u8
    decreases changes.len(),
{
    if changes.len() == 0 {
        byte
    } else {
        with_bit(with_levels(byte, changes.drop_last()), changes.last().0.index(), changes.last().1)
    }
}

/// Cached output changes are sent together: any number of `set_state` calls on
/// one bank send nothing, and the `write_output_state` after them sends one
/// write of the byte that holds every change, the last change of a pin winning.
///
/// `states[i + 1]` is `states[i]` after the `i`-th `set_state` call, and
/// `after` is the last of them after `write_output_state`.
pub proof fn lemma_cached_output_changes_batch<B: I2cBus>(
    states: Seq<PCA9539<B>>,
    changes: Seq<(PinID, bool)>,
    after: PCA9539<B>,
    bank: Bank,
    r: Result<(), B::Error>,
)
    requires
        states.len() == changes.len() + 1,
        forall|i: int|
            0 <= i < changes.len() ==> states[i + 1].cache_update(
                &states[i],
                Register::Output,
                bank,
                with_bit(states[i].register(Register::Output, bank), (#[trigger] changes[i]).0.index(), changes[i].1),
            ),
        after.register_written(&states[changes.len() as int], Register::Output, bank, r),
    ensures
        forall|i: int| 0 <= i < states.len() ==> (#[trigger] states[i]).transfers() == states[0].transfers(),
        after.transfers() == states[0].transfers().push(
            write_transfer(
                states[0].address(),
                seq![command(Register::Output, bank), with_levels(states[0].register(Register::Output, bank), changes)],
                r,
            ),
        ),
{
    lemma_batch_prefix(states, changes, bank, changes.len() as int);
    assert(changes.take(changes.len() as int) =~= changes);
}

/// After the first `k` changes the cached output byte holds them all and the
/// bus has seen nothing.
proof fn lemma_batch_prefix<B: I2cBus>(states: Seq<PCA9539<B>>, changes: Seq<(PinID, bool)>, bank: Bank, k: int)
    requires
        0 <= k <= changes.len(),
        states.len() == changes.len() + 1,
        forall|i: int|
            0 <= i < changes.len() ==> states[i + 1].cache_update(
                &states[i],
                Register::Output,
                bank,
                with_bit(states[i].register(Register::Output, bank), (#[trigger] changes[i]).0.index(), changes[i].1),
            ),
    ensures
        states[k].register(Register::Output, bank) == with_levels(states[0].register(Register::Output, bank), changes.take(k)),
        states[k].address() == states[0].address(),
        forall|i: int| 0 <= i <= k ==> (#[trigger] states[i]).transfers() == states[0].transfers(),
    decreases k,
{
    if k == 0 {
        assert(changes.take(0) =~= Seq::<(PinID, bool)>::empty());
    } else {
        lemma_batch_prefix(states, changes, bank, k - 1);
        let c = changes[k - 1];
        assert(changes.take(k).drop_last() =~= changes.take(k - 1));
        assert(changes.take(k).last() == c);
    }
}

} // verus!
