//! Facts about bitwise operations on bytes and words, each established by
//! bit-vector reasoning and stated in terms of ordinary arithmetic.

use vstd::prelude::*;

verus! {

/// Masking with a run of low one-bits is reduction modulo a power of two,
/// and shifting right is division by a power of two.
pub proof fn lemma_byte_fields(x: u8)
    by (bit_vector)
    ensures
        x & 0x07 == x % 8,
        x & 0x03 == x % 4,
        x & 0x0F == x % 16,
        x & 0x01 == x % 2,
        (x >> 3) & 0x07 == (x / 8) % 8,
        (x >> 4) & 0x03 == (x / 16) % 4,
        x >> 4 == x / 16,
        x >> 7 == x / 128,
        (x & 0x80 != 0) <==> x >= 128,
        (x & 0x01 != 0) <==> x % 2 == 1,
{
}

/// A 16-bit word and its two bytes: joining, splitting, and replacing
/// one byte while keeping the other.
pub proof fn lemma_word_fields(word: u16, high: u8, low: u8)
    by (bit_vector)
    ensures
        ((high as u16) << 8) | (low as u16) == high as u16 * 256 + low as u16,
        (word >> 8) as u8 == word / 256,
        (word & 0xFF) as u8 == word % 256,
        word as u8 == word % 256,
        (word & 0xFF00) | (low as u16) == (word / 256) * 256 + low as u16,
        (word & 0x00FF) | ((high as u16) << 8) == high as u16 * 256 + word % 256,
{
}

/// The four rotations of a byte, one bit to the left or right, with the
/// vacated bit filled from the bit rotated out or from `carry_in`.
pub proof fn lemma_rotations(x: u8, carry_in: bool)
    by (bit_vector)
    ensures
        ({
            &&& (x << 1) | (if x & 0x80 != 0 { 1u8 } else { 0u8 }) == (x * 2) % 256 + x / 128
            &&& (x >> 1) | (if x & 0x01 != 0 { 0x80u8 } else { 0u8 }) == x / 2 + (x % 2) * 128
            &&& carry_in ==> (x << 1) | 1u8 == (x * 2) % 256 + 1
            &&& !carry_in ==> (x << 1) | 0u8 == (x * 2) % 256
            &&& carry_in ==> (x >> 1) | 0x80u8 == x / 2 + 128
            &&& !carry_in ==> (x >> 1) | 0u8 == x / 2
            &&& (x & 0x80 != 0) <==> x >= 128
            &&& (x & 0x01 != 0) <==> x % 2 == 1
        }),
{
}

/// The bit masks that pick out the opcode families, as ranges and
/// residues.
pub proof fn lemma_opcode_masks(opcode: u8)
    by (bit_vector)
    ensures
        ({
            &&& (opcode & 0xC7 == 0x06) == (opcode < 0x40 && opcode % 8 == 6)
            &&& (opcode & 0xC7 == 0x04) == (opcode < 0x40 && opcode % 8 == 4)
            &&& (opcode & 0xC7 == 0x05) == (opcode < 0x40 && opcode % 8 == 5)
            &&& (opcode & 0xCF == 0x01) == (opcode < 0x40 && opcode % 16 == 1)
            &&& (opcode & 0xCF == 0x09) == (opcode < 0x40 && opcode % 16 == 9)
            &&& (opcode & 0xCF == 0x03) == (opcode < 0x40 && opcode % 16 == 3)
            &&& (opcode & 0xCF == 0x0B) == (opcode < 0x40 && opcode % 16 == 11)
            &&& (opcode & 0xCF == 0xC5) == (opcode >= 0xC0 && opcode % 16 == 5)
            &&& (opcode & 0xCF == 0xC1) == (opcode >= 0xC0 && opcode % 16 == 1)
            &&& (opcode & 0xC7 == 0xC2) == (opcode >= 0xC0 && opcode % 8 == 2)
            &&& (opcode & 0xC7 == 0xC4) == (opcode >= 0xC0 && opcode % 8 == 4)
            &&& (opcode & 0xC7 == 0xC0) == (opcode >= 0xC0 && opcode % 8 == 0)
            &&& (opcode & 0xC7 == 0xC7) == (opcode >= 0xC0 && opcode % 8 == 7)
        }),
{
}

/// Which bytes the opcode families and single opcodes cover: all of the
/// first quarter of the opcode space, and all of the last quarter but
/// five.
pub proof fn lemma_opcode_cover(opcode: u8)
    by (bit_vector)
    ensures
        ({
            &&& opcode < 0x40 ==> (opcode % 8 == 6 || opcode % 8 == 4 || opcode % 8 == 5 || opcode % 16
                == 1 || opcode % 16 == 9 || opcode % 16 == 3 || opcode % 16 == 11 || opcode == 0x02
                || opcode == 0x12 || opcode == 0x0A || opcode == 0x1A || opcode == 0x32 || opcode
                == 0x3A || opcode == 0x22 || opcode == 0x2A || opcode == 0x07 || opcode == 0x0F
                || opcode == 0x17 || opcode == 0x1F || opcode == 0x27 || opcode == 0x2F || opcode
                == 0x37 || opcode == 0x3F || opcode == 0x00 || opcode == 0x08 || opcode == 0x10
                || opcode == 0x18 || opcode == 0x20 || opcode == 0x28 || opcode == 0x30 || opcode
                == 0x38)
            &&& opcode >= 0xC0 ==> ((opcode % 16 == 5 || opcode % 16 == 1 || opcode % 8 == 2 || opcode % 8
                == 4 || opcode % 8 == 0 || opcode % 8 == 7 || opcode == 0xC3 || opcode == 0xCD
                || opcode == 0xC9 || opcode == 0xC6 || opcode == 0xCE || opcode == 0xD6 || opcode
                == 0xDE || opcode == 0xE6 || opcode == 0xEE || opcode == 0xF6 || opcode == 0xFE
                || opcode == 0xD3 || opcode == 0xDB || opcode == 0xE3 || opcode == 0xE9 || opcode
                == 0xEB || opcode == 0xF3 || opcode == 0xF9 || opcode == 0xFB) <==> !(opcode == 0xCB
                || opcode == 0xD9 || opcode == 0xDD || opcode == 0xED || opcode == 0xFD))
        }),
{
}

/// A 24-bit address held in 32 bits and its three bytes: reading one,
/// replacing one while keeping the others, and stepping with wraparound.
pub proof fn lemma_address_fields(address: u32, value: u8)
    by (bit_vector)
    requires
        address < 0x100_0000,
    ensures
        ({
            &&& address as u8 == address % 256
            &&& (address >> 8) as u8 == (address / 256) % 256
            &&& (address >> 16) as u8 == address / 0x1_0000
            &&& (address & 0x00FF_FF00) | (value as u32) == (address / 256) * 256 + value as u32
            &&& (address & 0x00FF_00FF) | ((value as u32) << 8) == (address / 0x1_0000) * 0x1_0000
                + (value as u32) * 256 + address % 256
            &&& (address & 0x0000_FFFF) | ((value as u32) << 16) == (value as u32) * 0x1_0000 + address
                % 0x1_0000
            &&& (address + 1) as u32 & 0x00FF_FFFF == (address + 1) % 0x100_0000
            &&& address > 0 ==> (address - 1) as u32 & 0x00FF_FFFF == address - 1
            &&& 0xFFFF_FFFFu32 & 0x00FF_FFFF == 0x00FF_FFFF
        }),
{
}

/// Truncating a 64-bit length to 32 bits is reduction modulo 2^32.
pub proof fn lemma_length_truncation(length: u64)
    by (bit_vector)
    ensures
        length as u32 == length % 0x1_0000_0000,
{
}

} // verus!
