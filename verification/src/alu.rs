//! The arithmetic of the accumulator: addition and subtraction with
//! their carries, decimal adjustment, and the rotations.

use vstd::prelude::*;
use crate::bits::{lemma_byte_fields, lemma_rotations};

verus! {

/// Operation of the accumulator group, the three-bit field of an opcode.
#[derive(Debug, Clone, Copy, PartialEq, Eq, Structural)]
pub enum AluOp {
    /// Add the operand.
    Add,
    /// Add the operand and the carry flag.
    Adc,
    /// Subtract the operand.
    Sub,
    /// Subtract the operand and the carry flag.
    Sbb,
    /// Bitwise AND with the operand.
    Ana,
    /// Bitwise exclusive OR with the operand.
    Xra,
    /// Bitwise OR with the operand.
    Ora,
    /// Subtract the operand for the flags alone; the accumulator stays.
    Compare,
}

impl AluOp {
    /// The operation selected by the low three bits of `code`.
    pub open spec fn decode(code: u8) -> AluOp {
        match code % 8 {
            0 => AluOp::Add,
            1 => AluOp::Adc,
            2 => AluOp::Sub,
            3 => AluOp::Sbb,
            4 => AluOp::Ana,
            5 => AluOp::Xra,
            6 => AluOp::Ora,
            _ => AluOp::Compare,
        }
    }

    /// Decodes the three-bit operation field of an accumulator opcode;
    /// higher bits of `code` are ignored.
    pub fn from_code(code: u8) -> (op: AluOp)
        ensures
            op == AluOp::decode(code),
    {
        proof {
            lemma_byte_fields(code);
        }
        match code & 0x07 {
            0 => AluOp::Add,
            1 => AluOp::Adc,
            2 => AluOp::Sub,
            3 => AluOp::Sbb,
            4 => AluOp::Ana,
            5 => AluOp::Xra,
            6 => AluOp::Ora,
            _ => AluOp::Compare,
        }
    }
}

/// Outcome of an 8-bit arithmetic operation: the truncated result, the
/// carry (or borrow) out of bit 7, and the carry (or borrow) out of the
/// low nibble.
#[derive(Debug, Clone, Copy, PartialEq, Eq, Structural)]
pub struct AluResult {
    pub value: u8,
    pub carry: bool,
    pub aux_carry: bool,
}

/// Outcome of rotating the accumulator: the rotated byte and the bit that
/// left it.
#[derive(Debug, Clone, Copy, PartialEq, Eq, Structural)]
pub struct Rotation {
    pub value: u8,
    pub carry: bool,
}

/// One if `bit` is set, zero if not.
pub open spec fn bit_value(bit: bool) -> int {
    if bit {
        1
    } else {
        0
    }
}

/// `a + operand + carry_in`: the sum modulo 256, whether the sum passed
/// 255, and whether the sum of the low nibbles passed 15.
pub open spec fn sum(a: u8, operand: u8, carry_in: bool) -> AluResult {
    let total = a + operand + bit_value(carry_in);
    AluResult {
        value: (total % 256) as u8,
        carry: total > 255,
        aux_carry: a % 16 + operand % 16 + bit_value(carry_in) > 15,
    }
}

/// `a - operand - borrow_in`: the difference modulo 256, whether the
/// difference fell below zero, and whether the difference of the low
/// nibbles fell below zero.
pub open spec fn difference(a: u8, operand: u8, borrow_in: bool) -> AluResult {
    let total = a - operand - bit_value(borrow_in);
    AluResult {
        value: (total % 256) as u8,
        carry: total < 0,
        aux_carry: a % 16 - operand % 16 - bit_value(borrow_in) < 0,
    }
}

/// Whether decimal adjustment corrects the low digit: the low nibble is
/// no decimal digit, or the last operation carried out of it.
pub open spec fn adjusts_low_digit(a: u8, aux_carry: bool) -> bool {
    a % 16 > 9 || aux_carry
}

/// Whether decimal adjustment corrects the high digit: the high nibble is
/// no decimal digit, or the last operation carried, or correcting a low
/// nibble above 9 will carry into a high nibble that holds 9.
pub open spec fn adjusts_high_digit(a: u8, carry: bool) -> bool {
    a / 16 > 9 || carry || (a % 16 > 9 && a / 16 >= 9)
}

/// Decimal adjustment of `a` after an addition that left `carry` and
/// `aux_carry`: 6 is added for the low digit and `0x60` for the high
/// digit, each where its correction is due, modulo 256. The carry is set
/// exactly when the high digit was corrected; the auxiliary carry is
/// cleared.
pub open spec fn decimal_adjusted(a: u8, carry: bool, aux_carry: bool) -> AluResult {
    let low: int = if adjusts_low_digit(a, aux_carry) { 0x06 } else { 0 };
    let high: int = if adjusts_high_digit(a, carry) { 0x60 } else { 0 };
    AluResult {
        value: ((a + low + high) % 256) as u8,
        carry: adjusts_high_digit(a, carry),
        aux_carry: false,
    }
}

/// `a` rotated left by one bit: bit 7 moves to bit 0 and to the carry.
pub open spec fn rotated_left(a: u8) -> Rotation {
    Rotation { value: ((a * 2) % 256 + a / 128) as u8, carry: a >= 128 }
}

/// `a` rotated right by one bit: bit 0 moves to bit 7 and to the carry.
pub open spec fn rotated_right(a: u8) -> Rotation {
    Rotation { value: (a / 2 + (a % 2) * 128) as u8, carry: a % 2 == 1 }
}

/// `a` rotated left through the carry: `carry_in` enters bit 0, bit 7
/// leaves to the carry.
pub open spec fn rotated_left_through(a: u8, carry_in: bool) -> Rotation {
    Rotation { value: ((a * 2) % 256 + bit_value(carry_in)) as u8, carry: a >= 128 }
}

/// `a` rotated right through the carry: `carry_in` enters bit 7, bit 0
/// leaves to the carry.
pub open spec fn rotated_right_through(a: u8, carry_in: bool) -> Rotation {
    Rotation { value: (a / 2 + bit_value(carry_in) * 128) as u8, carry: a % 2 == 1 }
}

/// Reduction modulo 256 of a value at most one period away from a byte.
proof fn lemma_wrap_byte(total: int)
    requires
        -256 <= total < 512,
    ensures
        total % 256 == (if total < 0 {
            total + 256
        } else if total >= 256 {
            total - 256
        } else {
            total
        }),
{
}

/// Adds `operand` and the incoming carry to `a`.
pub fn add_bytes(a: u8, operand: u8, carry_in: bool) -> (result: AluResult)
    ensures
        result == sum(a, operand, carry_in),
{
    proof {
        assert(a & 0x0F == a % 16 && operand & 0x0F == operand % 16) by {
            lemma_byte_fields(a);
            lemma_byte_fields(operand);
        }
        lemma_wrap_byte(a + operand + bit_value(carry_in));
    }
    let carry: u8 = if carry_in { 1 } else { 0 };
    let total: u16 = a as u16 + operand as u16 + carry as u16;
    let aux_carry = (a & 0x0F) + (operand & 0x0F) + carry > 0x0F;
    AluResult { value: a.wrapping_add(operand).wrapping_add(carry), carry: total > 0xFF, aux_carry }
}

/// Subtracts `operand` and the incoming borrow from `a`.
pub fn sub_bytes(a: u8, operand: u8, borrow_in: bool) -> (result: AluResult)
    ensures
        result == difference(a, operand, borrow_in),
{
    proof {
        assert(a & 0x0F == a % 16 && operand & 0x0F == operand % 16) by {
            lemma_byte_fields(a);
            lemma_byte_fields(operand);
        }
        lemma_wrap_byte(a - operand - bit_value(borrow_in));
    }
    let borrow: u8 = if borrow_in { 1 } else { 0 };
    let taken: u16 = operand as u16 + borrow as u16;
    let aux_carry = ((a & 0x0F) as u16) < (operand & 0x0F) as u16 + borrow as u16;
    AluResult { value: a.wrapping_sub(operand).wrapping_sub(borrow), carry: (a as u16) < taken, aux_carry }
}

/// Adjusts `a` to two decimal digits after an addition.
pub fn decimal_adjust(a: u8, carry: bool, aux_carry: bool) -> (result: AluResult)
    ensures
        result == decimal_adjusted(a, carry, aux_carry),
{
    proof {
        assert(a & 0x0F == a % 16 && a >> 4 == a / 16) by {
            lemma_byte_fields(a);
        }
        let low: int = if adjusts_low_digit(a, aux_carry) { 0x06 } else { 0 };
        let high: int = if adjusts_high_digit(a, carry) { 0x60 } else { 0 };
        lemma_wrap_byte(a + low + high);
    }
    let mut correction: u8 = 0;
    let mut carry_out = false;
    if (a & 0x0F) > 9 || aux_carry {
        correction = 0x06;
    }
    if (a >> 4) > 9 || carry || ((a & 0x0F) > 9 && (a >> 4) >= 9) {
        correction = correction + 0x60;
        carry_out = true;
    }
    AluResult { value: a.wrapping_add(correction), carry: carry_out, aux_carry: false }
}

/// Rotates `a` left by one bit.
pub fn rotate_left(a: u8) -> (result: Rotation)
    ensures
        result == rotated_left(a),
{
    proof {
        lemma_rotations(a, false);
    }
    let carry = (a & 0x80) != 0;
    let low: u8 = if carry { 1 } else { 0 };
    Rotation { value: (a << 1) | low, carry }
}

/// Rotates `a` right by one bit.
pub fn rotate_right(a: u8) -> (result: Rotation)
    ensures
        result == rotated_right(a),
{
    proof {
        lemma_rotations(a, false);
    }
    let carry = (a & 0x01) != 0;
    let high: u8 = if carry { 0x80 } else { 0 };
    Rotation { value: (a >> 1) | high, carry }
}

/// Rotates `a` left by one bit through the carry.
pub fn rotate_left_through_carry(a: u8, carry_in: bool) -> (result: Rotation)
    ensures
        result == rotated_left_through(a, carry_in),
{
    proof {
        lemma_rotations(a, carry_in);
    }
    let low: u8 = if carry_in { 1 } else { 0 };
    Rotation { value: (a << 1) | low, carry: (a & 0x80) != 0 }
}

/// Rotates `a` right by one bit through the carry.
pub fn rotate_right_through_carry(a: u8, carry_in: bool) -> (result: Rotation)
    ensures
        result == rotated_right_through(a, carry_in),
{
    proof {
        lemma_rotations(a, carry_in);
    }
    let high: u8 = if carry_in { 0x80 } else { 0 };
    Rotation { value: (a >> 1) | high, carry: (a & 0x01) != 0 }
}

} // verus!
