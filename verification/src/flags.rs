//! The flags byte: its fixed bits, the parity of a result, and the flag
//! updates that arithmetic and logical instructions perform.

use vstd::prelude::*;
use crate::registers::{FLAG_AUX_CARRY, FLAG_BIT_1, FLAG_CARRY, FLAG_PARITY, FLAG_SIGN, FLAG_ZERO};

verus! {

/// Bit `index` of `value`, as 0 or 1.
pub open spec fn bit_of(value: u8, index: u8) -> nat {
    ((value >> index) & 1) as nat
}

/// The number of one-bits in `value`.
pub open spec fn ones_count(value: u8) -> nat {
    bit_of(value, 0) + bit_of(value, 1) + bit_of(value, 2) + bit_of(value, 3) + bit_of(value, 4)
        + bit_of(value, 5) + bit_of(value, 6) + bit_of(value, 7)
}

/// Whether `value` has an even number of one-bits.
pub open spec fn even_parity(value: u8) -> bool {
    ones_count(value) % 2 == 0
}

/// Whether a flags byte has its fixed bits right: bit 1 set, bits 3 and 5
/// clear.
pub open spec fn flags_valid(flags: u8) -> bool {
    flags & 0b0010_1010 == 0b0000_0010
}

/// The flags byte with its fixed bits forced: bit 1 set, bits 3 and 5
/// cleared, the five flags kept.
pub open spec fn canonical_flags(flags: u8) -> u8 {
    (flags & 0b1101_0111) | FLAG_BIT_1
}

/// Whether flag bit `mask` is set in `flags`.
pub open spec fn flag_set(flags: u8, mask: u8) -> bool {
    flags & mask != 0
}

/// The flags byte with the carry flag replaced by `carry` and every other
/// bit kept.
pub open spec fn with_carry(flags: u8, carry: bool) -> u8 {
    if carry {
        flags | FLAG_CARRY
    } else {
        flags & !FLAG_CARRY
    }
}

/// The flags byte after an arithmetic instruction: bit 1, then Zero, Sign
/// and Parity taken from the result, Carry and Auxiliary Carry as given.
pub open spec fn arithmetic_flags(result: u8, carry: bool, aux_carry: bool) -> u8 {
    FLAG_BIT_1 | (if result == 0 {
        FLAG_ZERO
    } else {
        0
    }) | (if result & 0x80 != 0 {
        FLAG_SIGN
    } else {
        0
    }) | (if even_parity(result) {
        FLAG_PARITY
    } else {
        0
    }) | (if carry {
        FLAG_CARRY
    } else {
        0
    }) | (if aux_carry {
        FLAG_AUX_CARRY
    } else {
        0
    })
}

/// The flags byte after a logical instruction: as after an arithmetic one,
/// with Carry and Auxiliary Carry cleared.
pub open spec fn logical_flags(result: u8) -> u8 {
    arithmetic_flags(result, false, false)
}

/// The flags byte after an increment or decrement: all flags follow the
/// result but Carry, which keeps its value from `flags`.
pub open spec fn step_flags(flags: u8, result: u8, aux_carry: bool) -> u8 {
    (arithmetic_flags(result, false, aux_carry) & !FLAG_CARRY) | (flags & FLAG_CARRY)
}

/// Folding a byte onto itself with exclusive OR leaves its parity in
/// bit 0.
proof fn lemma_parity_fold(value: u8)
    by (bit_vector)
    ensures
        ({
            let x1 = value ^ (value >> 4);
            let x2 = x1 ^ (x1 >> 2);
            let x3 = x2 ^ (x2 >> 1);
            x3 & 1 == 0
        }) <==> even_parity(value),
{
}

/// The five flag bits and bit 1, joined with OR, can each be read back,
/// and leave bits 3 and 5 clear.
proof fn lemma_flag_bits(z: bool, s: bool, p: bool, c: bool, ac: bool)
    by (bit_vector)
    ensures
        ({
            let f = 0x02u8 | (if z { 0x40u8 } else { 0u8 }) | (if s { 0x80u8 } else { 0u8 }) | (if p { 0x04u8 } else { 0u8 })
                | (if c { 0x01u8 } else { 0u8 }) | (if ac { 0x10u8 } else { 0u8 });
            &&& f & 0b0010_1010 == 0b0000_0010
            &&& (f & 0x40 != 0) == z
            &&& (f & 0x80 != 0) == s
            &&& (f & 0x04 != 0) == p
            &&& (f & 0x01 != 0) == c
            &&& (f & 0x10 != 0) == ac
        }),
{
}

/// What the flags byte of an arithmetic update holds: the fixed bits are
/// right, and each flag is set exactly when its cause is present.
pub proof fn lemma_arithmetic_flags(result: u8, carry: bool, aux_carry: bool)
    ensures
        flags_valid(arithmetic_flags(result, carry, aux_carry)),
        flag_set(arithmetic_flags(result, carry, aux_carry), FLAG_ZERO) == (result == 0),
        flag_set(arithmetic_flags(result, carry, aux_carry), FLAG_SIGN) == (result >= 128),
        flag_set(arithmetic_flags(result, carry, aux_carry), FLAG_PARITY) == even_parity(result),
        flag_set(arithmetic_flags(result, carry, aux_carry), FLAG_CARRY) == carry,
        flag_set(arithmetic_flags(result, carry, aux_carry), FLAG_AUX_CARRY) == aux_carry,
{
    lemma_flag_bits(result == 0, result & 0x80 != 0, even_parity(result), carry, aux_carry);
    assert((result & 0x80 != 0) == (result >= 128)) by (bit_vector);
}

/// Replacing the carry flag touches bit 0 only.
pub proof fn lemma_with_carry(flags: u8, carry: bool)
    by (bit_vector)
    ensures
        with_carry(flags, carry) & 0xFE == flags & 0xFE,
        (with_carry(flags, carry) & 0x01 != 0) == carry,
        with_carry(flags, carry) & 0xD4 == flags & 0xD4,
        (flags & 0x2A == 0x02) ==> (with_carry(flags, carry) & 0x2A == 0x02),
        flags ^ 0x01 == with_carry(flags, flags & 0x01 == 0),
{
}

/// Forcing the fixed bits yields a valid flags byte, keeps the five flags,
/// and changes nothing in a byte that is already valid.
pub proof fn lemma_canonical_flags(flags: u8)
    by (bit_vector)
    ensures
        canonical_flags(flags) & 0x2A == 0x02,
        canonical_flags(flags) & 0xD5 == flags & 0xD5,
        (flags & 0x2A == 0x02) ==> canonical_flags(flags) == flags,
{
}

/// The flags byte of an increment or decrement has its fixed bits
/// right, carries the old Carry, and follows the result in every other
/// flag.
pub proof fn lemma_step_flags(flags: u8, result: u8, aux_carry: bool)
    ensures
        flags_valid(step_flags(flags, result, aux_carry)),
        flag_set(step_flags(flags, result, aux_carry), FLAG_CARRY) == flag_set(flags, FLAG_CARRY),
        flag_set(step_flags(flags, result, aux_carry), FLAG_ZERO) == (result == 0),
        flag_set(step_flags(flags, result, aux_carry), FLAG_SIGN) == (result >= 128),
        flag_set(step_flags(flags, result, aux_carry), FLAG_PARITY) == even_parity(result),
        flag_set(step_flags(flags, result, aux_carry), FLAG_AUX_CARRY) == aux_carry,
{
    lemma_arithmetic_flags(result, false, aux_carry);
    let computed = arithmetic_flags(result, false, aux_carry);
    assert({
        let merged = (computed & !0x01u8) | (flags & 0x01u8);
        &&& (computed & 0x2A == 0x02 ==> merged & 0x2A == 0x02)
        &&& (merged & 0x01 != 0) == (flags & 0x01 != 0)
        &&& (merged & 0x40 != 0) == (computed & 0x40 != 0)
        &&& (merged & 0x80 != 0) == (computed & 0x80 != 0)
        &&& (merged & 0x04 != 0) == (computed & 0x04 != 0)
        &&& (merged & 0x10 != 0) == (computed & 0x10 != 0)
    }) by (bit_vector);
}

/// Whether `value` has an even number of one-bits.
pub fn parity_even(value: u8) -> (even: bool)
    ensures
        even == even_parity(value),
{
    proof {
        lemma_parity_fold(value);
    }
    let x1: u8 = value ^ (value >> 4);
    let x2: u8 = x1 ^ (x1 >> 2);
    let x3: u8 = x2 ^ (x2 >> 1);
    x3 & 1 == 0
}

/// Computes the flags byte of an arithmetic result.
pub fn compute_arithmetic_flags(result: u8, carry: bool, aux_carry: bool) -> (flags: u8)
    ensures
        flags == arithmetic_flags(result, carry, aux_carry),
        flags_valid(flags),
{
    proof {
        lemma_arithmetic_flags(result, carry, aux_carry);
    }
    let zero: u8 = if result == 0 { FLAG_ZERO } else { 0 };
    let sign: u8 = if result & 0x80 != 0 { FLAG_SIGN } else { 0 };
    let parity: u8 = if parity_even(result) { FLAG_PARITY } else { 0 };
    let carry_bit: u8 = if carry { FLAG_CARRY } else { 0 };
    let aux_bit: u8 = if aux_carry { FLAG_AUX_CARRY } else { 0 };
    FLAG_BIT_1 | zero | sign | parity | carry_bit | aux_bit
}

/// Replaces the carry flag of a flags byte.
pub fn set_carry(flags: u8, carry: bool) -> (updated: u8)
    ensures
        updated == with_carry(flags, carry),
{
    if carry {
        flags | FLAG_CARRY
    } else {
        flags & !FLAG_CARRY
    }
}

} // verus!
