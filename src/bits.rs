//! One-byte registers seen as eight pin flags, bit `i` belonging to pin `i`.
use vstd::prelude::*;

verus! {

/// Whether bit `i` of `byte` is set.
pub open spec fn bit_is_set(byte: u8, i: u8) -> bool {
    (byte >> i) & 1u8 == 1u8
}

/// `byte` with bit `i` set to `value` and every other bit kept.
pub open spec fn with_bit(byte: u8, i: u8, value: bool) -> u8 {
    if value {
        byte | (1u8 << i)
    } else {
        byte & !(1u8 << i)
    }
}

/// Changing one bit leaves the seven others as they were.
pub proof fn lemma_with_bit(byte: u8, i: u8, value: bool, j: u8)
    requires
        i < 8,
        j < 8,
    ensures
        bit_is_set(with_bit(byte, i, value), j) == if j == i {
            value
        } else {
            bit_is_set(byte, j)
        },
{
    if value {
        assert(((byte | (1u8 << i)) >> j) & 1u8 == 1u8 <==> (if j == i {
            true
        } else {
            (byte >> j) & 1u8 == 1u8
        })) by (bit_vector)
            requires
                i < 8,
                j < 8,
        ;
    } else {
        assert(((byte & !(1u8 << i)) >> j) & 1u8 == 1u8 <==> (if j == i {
            false
        } else {
            (byte >> j) & 1u8 == 1u8
        })) by (bit_vector)
            requires
                i < 8,
                j < 8,
        ;
    }
}

/// Reads bit `i` of `byte`.
pub fn get_bit(byte: u8, i: u8) -> (r: bool)
    requires
        i < 8,
    ensures
        r == bit_is_set(byte, i),
{
    (byte >> i) & 1u8 == 1u8
}

/// Returns `byte` with bit `i` set to `value`.
pub fn set_bit(byte: u8, i: u8, value: bool) -> (r: u8)
    requires
        i < 8,
    ensures
        r == with_bit(byte, i, value),
{
    if value {
        byte | (1u8 << i)
    } else {
        byte & !(1u8 << i)
    }
}

} // verus!
