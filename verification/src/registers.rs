//! Operand encodings of the 8080: single registers, register pairs, the
//! push/pop pairs and the eight branch conditions, together with the bit
//! positions of the flags byte.

use vstd::prelude::*;
use crate::bits::lemma_byte_fields;

verus! {

/// Carry flag, bit 0.
pub const FLAG_CARRY: u8 = 0b0000_0001;

/// Bit 1 of the flags byte, which always reads as one.
pub const FLAG_BIT_1: u8 = 0b0000_0010;

/// Parity flag, bit 2.
pub const FLAG_PARITY: u8 = 0b0000_0100;

/// Contribution of bit 3 to the flags byte: the bit always reads as zero.
pub const FLAG_BIT_3: u8 = 0b0000_0000;

/// Auxiliary-carry flag, bit 4.
pub const FLAG_AUX_CARRY: u8 = 0b0001_0000;

/// Contribution of bit 5 to the flags byte: the bit always reads as zero.
pub const FLAG_BIT_5: u8 = 0b0000_0000;

/// Zero flag, bit 6.
pub const FLAG_ZERO: u8 = 0b0100_0000;

/// Sign flag, bit 7.
pub const FLAG_SIGN: u8 = 0b1000_0000;

/// Branch condition, the three-bit field of conditional jumps, calls and
/// returns.
#[derive(Debug, Clone, Copy, PartialEq, Eq, Structural)]
pub enum Condition {
    /// Zero flag clear.
    NZ,
    /// Zero flag set.
    Z,
    /// Carry flag clear.
    NC,
    /// Carry flag set.
    C,
    /// Parity flag clear (odd parity).
    PO,
    /// Parity flag set (even parity).
    PE,
    /// Sign flag clear (plus).
    P,
    /// Sign flag set (minus).
    M,
}

impl Condition {
    /// The condition selected by the low three bits of `code`.
    pub open spec fn decode(code: u8) -> Condition {
        match code % 8 {
            0 => Condition::NZ,
            1 => Condition::Z,
            2 => Condition::NC,
            3 => Condition::C,
            4 => Condition::PO,
            5 => Condition::PE,
            6 => Condition::P,
            _ => Condition::M,
        }
    }

    /// The three-bit encoding of the condition.
    pub open spec fn code(self) -> u8 {
        match self {
            Condition::NZ => 0,
            Condition::Z => 1,
            Condition::NC => 2,
            Condition::C => 3,
            Condition::PO => 4,
            Condition::PE => 5,
            Condition::P => 6,
            Condition::M => 7,
        }
    }

    /// The flag bit that the condition examines.
    pub open spec fn mask(self) -> u8 {
        match self {
            Condition::NZ | Condition::Z => FLAG_ZERO,
            Condition::NC | Condition::C => FLAG_CARRY,
            Condition::PO | Condition::PE => FLAG_PARITY,
            Condition::P | Condition::M => FLAG_SIGN,
        }
    }

    /// Whether the condition asks for its flag bit to be set.
    pub open spec fn polarity(self) -> bool {
        match self {
            Condition::Z | Condition::C | Condition::PE | Condition::M => true,
            Condition::NZ | Condition::NC | Condition::PO | Condition::P => false,
        }
    }

    /// Whether the condition holds of a flags byte: the examined bit is set
    /// exactly when the condition asks for it to be set.
    pub open spec fn holds(self, flags: u8) -> bool {
        ((flags & self.mask()) != 0) == self.polarity()
    }

    /// Mnemonic suffix of the condition.
    pub open spec fn mnemonic(self) -> Seq<char> {
        match self {
            Condition::NZ => "NZ"@,
            Condition::Z => "Z"@,
            Condition::NC => "NC"@,
            Condition::C => "C"@,
            Condition::PO => "PO"@,
            Condition::PE => "PE"@,
            Condition::P => "P"@,
            Condition::M => "M"@,
        }
    }

    /// Plain-language wording of the condition.
    pub open spec fn wording(self) -> Seq<char> {
        match self {
            Condition::NZ => "not zero"@,
            Condition::Z => "zero"@,
            Condition::NC => "no carry"@,
            Condition::C => "carry"@,
            Condition::PO => "parity odd"@,
            Condition::PE => "parity even"@,
            Condition::P => "plus"@,
            Condition::M => "minus"@,
        }
    }

    /// Decodes the three-bit condition field of an opcode; higher bits of
    /// `code` are ignored.
    pub fn from_code(code: u8) -> (cond: Condition)
        ensures
            cond == Condition::decode(code),
            cond.code() == code % 8,
    {
        proof {
            lemma_byte_fields(code);
        }
        match code & 0x07 {
            0 => Condition::NZ,
            1 => Condition::Z,
            2 => Condition::NC,
            3 => Condition::C,
            4 => Condition::PO,
            5 => Condition::PE,
            6 => Condition::P,
            _ => Condition::M,
        }
    }

    /// The three-bit encoding, the inverse of [`Condition::from_code`].
    pub fn to_code(self) -> (code: u8)
        ensures
            code == self.code(),
            code < 8,
            Condition::decode(code) == self,
    {
        match self {
            Condition::NZ => 0,
            Condition::Z => 1,
            Condition::NC => 2,
            Condition::C => 3,
            Condition::PO => 4,
            Condition::PE => 5,
            Condition::P => 6,
            Condition::M => 7,
        }
    }

    /// Mnemonic suffix used in disassembly.
    pub fn name(self) -> (text: &'static str)
        ensures
            text@ == self.mnemonic(),
    {
        match self {
            Condition::NZ => "NZ",
            Condition::Z => "Z",
            Condition::NC => "NC",
            Condition::C => "C",
            Condition::PO => "PO",
            Condition::PE => "PE",
            Condition::P => "P",
            Condition::M => "M",
        }
    }

    /// Plain-language description.
    pub fn description(self) -> (text: &'static str)
        ensures
            text@ == self.wording(),
    {
        match self {
            Condition::NZ => "not zero",
            Condition::Z => "zero",
            Condition::NC => "no carry",
            Condition::C => "carry",
            Condition::PO => "parity odd",
            Condition::PE => "parity even",
            Condition::P => "plus",
            Condition::M => "minus",
        }
    }

    /// The flag bit this condition tests.
    pub fn flag_mask(self) -> (mask: u8)
        ensures
            mask == self.mask(),
    {
        match self {
            Condition::NZ | Condition::Z => FLAG_ZERO,
            Condition::NC | Condition::C => FLAG_CARRY,
            Condition::PO | Condition::PE => FLAG_PARITY,
            Condition::P | Condition::M => FLAG_SIGN,
        }
    }

    /// Whether the tested flag must be set (`true`) or clear (`false`) for
    /// the condition to hold.
    pub fn flag_value(self) -> (value: bool)
        ensures
            value == self.polarity(),
    {
        match self {
            Condition::Z | Condition::C | Condition::PE | Condition::M => true,
            Condition::NZ | Condition::NC | Condition::PO | Condition::P => false,
        }
    }
}

/// Operand of the single-register instructions, the three-bit field of an
/// opcode. `M` is not a physical register: it stands for the memory byte
/// at the address held in H:L.
#[derive(Debug, Clone, Copy, PartialEq, Eq, Structural)]
pub enum Register {
    B,
    C,
    D,
    E,
    H,
    L,
    /// The memory byte addressed by H:L.
    M,
    /// The accumulator.
    A,
}

impl Register {
    /// The register selected by the low three bits of `code`.
    pub open spec fn decode(code: u8) -> Register {
        match code % 8 {
            0 => Register::B,
            1 => Register::C,
            2 => Register::D,
            3 => Register::E,
            4 => Register::H,
            5 => Register::L,
            6 => Register::M,
            _ => Register::A,
        }
    }

    /// The three-bit encoding of the register.
    pub open spec fn code(self) -> u8 {
        match self {
            Register::B => 0,
            Register::C => 1,
            Register::D => 2,
            Register::E => 3,
            Register::H => 4,
            Register::L => 5,
            Register::M => 6,
            Register::A => 7,
        }
    }

    /// Assembler name of the register.
    pub open spec fn mnemonic(self) -> Seq<char> {
        match self {
            Register::B => "B"@,
            Register::C => "C"@,
            Register::D => "D"@,
            Register::E => "E"@,
            Register::H => "H"@,
            Register::L => "L"@,
            Register::M => "M"@,
            Register::A => "A"@,
        }
    }

    /// Plain-language wording of the register.
    pub open spec fn wording(self) -> Seq<char> {
        match self {
            Register::B => "B register"@,
            Register::C => "C register"@,
            Register::D => "D register"@,
            Register::E => "E register"@,
            Register::H => "H register (high)"@,
            Register::L => "L register (low)"@,
            Register::M => "Memory [HL]"@,
            Register::A => "Accumulator"@,
        }
    }

    /// Decodes a three-bit register field of an opcode; higher bits of
    /// `code` are ignored.
    pub fn from_code(code: u8) -> (reg: Register)
        ensures
            reg == Register::decode(code),
            reg.code() == code % 8,
    {
        proof {
            lemma_byte_fields(code);
        }
        match code & 0x07 {
            0 => Register::B,
            1 => Register::C,
            2 => Register::D,
            3 => Register::E,
            4 => Register::H,
            5 => Register::L,
            6 => Register::M,
            _ => Register::A,
        }
    }

    /// The three-bit encoding, the inverse of [`Register::from_code`].
    pub fn to_code(self) -> (code: u8)
        ensures
            code == self.code(),
            code < 8,
            Register::decode(code) == self,
    {
        match self {
            Register::B => 0,
            Register::C => 1,
            Register::D => 2,
            Register::E => 3,
            Register::H => 4,
            Register::L => 5,
            Register::M => 6,
            Register::A => 7,
        }
    }

    /// Assembler name used in disassembly.
    pub fn name(self) -> (text: &'static str)
        ensures
            text@ == self.mnemonic(),
    {
        match self {
            Register::B => "B",
            Register::C => "C",
            Register::D => "D",
            Register::E => "E",
            Register::H => "H",
            Register::L => "L",
            Register::M => "M",
            Register::A => "A",
        }
    }

    /// Whether the operand is the memory byte at H:L.
    pub fn is_memory(self) -> (memory: bool)
        ensures
            memory == (self == Register::M),
    {
        matches!(self, Register::M)
    }

    /// Extra cycles an instruction spends on this operand: three for the
    /// memory operand, none for a physical register.
    pub fn cycle_modifier(self) -> (extra: u8)
        ensures
            extra == (if self == Register::M { 3u8 } else { 0u8 }),
    {
        if self.is_memory() {
            3
        } else {
            0
        }
    }

    /// Plain-language description.
    pub fn description(self) -> (text: &'static str)
        ensures
            text@ == self.wording(),
    {
        match self {
            Register::B => "B register",
            Register::C => "C register",
            Register::D => "D register",
            Register::E => "E register",
            Register::H => "H register (high)",
            Register::L => "L register (low)",
            Register::M => "Memory [HL]",
            Register::A => "Accumulator",
        }
    }
}

/// Operand of the 16-bit load and arithmetic instructions, the two-bit
/// field of an opcode.
#[derive(Debug, Clone, Copy, PartialEq, Eq, Structural)]
pub enum RegisterPair {
    BC,
    DE,
    HL,
    /// The stack pointer.
    SP,
}

impl RegisterPair {
    /// The pair selected by the low two bits of `code`.
    pub open spec fn decode(code: u8) -> RegisterPair {
        match code % 4 {
            0 => RegisterPair::BC,
            1 => RegisterPair::DE,
            2 => RegisterPair::HL,
            _ => RegisterPair::SP,
        }
    }

    /// The two-bit encoding of the pair.
    pub open spec fn code(self) -> u8 {
        match self {
            RegisterPair::BC => 0,
            RegisterPair::DE => 1,
            RegisterPair::HL => 2,
            RegisterPair::SP => 3,
        }
    }

    /// The push/pop pair that shares this pair's encoding: code 3 is the
    /// stack pointer here and the program status word there.
    pub open spec fn push_pop(self) -> PushPopPair {
        match self {
            RegisterPair::BC => PushPopPair::BC,
            RegisterPair::DE => PushPopPair::DE,
            RegisterPair::HL => PushPopPair::HL,
            RegisterPair::SP => PushPopPair::PSW,
        }
    }

    /// The register holding the low byte of the pair, if the pair is made
    /// of two single registers.
    pub open spec fn low(self) -> Option<Register> {
        match self {
            RegisterPair::BC => Some(Register::C),
            RegisterPair::DE => Some(Register::E),
            RegisterPair::HL => Some(Register::L),
            RegisterPair::SP => None,
        }
    }

    /// The register holding the high byte of the pair, if the pair is made
    /// of two single registers.
    pub open spec fn high(self) -> Option<Register> {
        match self {
            RegisterPair::BC => Some(Register::B),
            RegisterPair::DE => Some(Register::D),
            RegisterPair::HL => Some(Register::H),
            RegisterPair::SP => None,
        }
    }

    /// Assembler name of the pair.
    pub open spec fn mnemonic(self) -> Seq<char> {
        match self {
            RegisterPair::BC => "BC"@,
            RegisterPair::DE => "DE"@,
            RegisterPair::HL => "HL"@,
            RegisterPair::SP => "SP"@,
        }
    }

    /// Plain-language wording of the pair.
    pub open spec fn wording(self) -> Seq<char> {
        match self {
            RegisterPair::BC => "BC register pair"@,
            RegisterPair::DE => "DE register pair"@,
            RegisterPair::HL => "HL register pair"@,
            RegisterPair::SP => "Stack Pointer"@,
        }
    }

    /// Decodes the two-bit pair field of a 16-bit load or arithmetic
    /// opcode; higher bits of `code` are ignored.
    pub fn from_code(code: u8) -> (pair: RegisterPair)
        ensures
            pair == RegisterPair::decode(code),
            pair.code() == code % 4,
    {
        proof {
            lemma_byte_fields(code);
        }
        match code & 0x03 {
            0 => RegisterPair::BC,
            1 => RegisterPair::DE,
            2 => RegisterPair::HL,
            _ => RegisterPair::SP,
        }
    }

    /// The two-bit encoding, the inverse of [`RegisterPair::from_code`].
    pub fn to_code(self) -> (code: u8)
        ensures
            code == self.code(),
            code < 4,
            RegisterPair::decode(code) == self,
    {
        match self {
            RegisterPair::BC => 0,
            RegisterPair::DE => 1,
            RegisterPair::HL => 2,
            RegisterPair::SP => 3,
        }
    }

    /// Decodes the two-bit pair field of a PUSH or POP opcode, where code
    /// 3 means the program status word.
    pub fn from_push_pop_code(code: u8) -> (pair: PushPopPair)
        ensures
            pair == PushPopPair::decode(code),
            pair == RegisterPair::decode(code).push_pop(),
    {
        PushPopPair::from_code(code)
    }

    /// The push/pop pair with the same encoding as this pair.
    pub fn to_push_pop(self) -> (pair: PushPopPair)
        ensures
            pair == self.push_pop(),
            pair.code() == self.code(),
    {
        match self {
            RegisterPair::BC => PushPopPair::BC,
            RegisterPair::DE => PushPopPair::DE,
            RegisterPair::HL => PushPopPair::HL,
            RegisterPair::SP => PushPopPair::PSW,
        }
    }

    /// Assembler name used in disassembly.
    pub fn name(self) -> (text: &'static str)
        ensures
            text@ == self.mnemonic(),
    {
        match self {
            RegisterPair::BC => "BC",
            RegisterPair::DE => "DE",
            RegisterPair::HL => "HL",
            RegisterPair::SP => "SP",
        }
    }

    /// Plain-language description.
    pub fn description(self) -> (text: &'static str)
        ensures
            text@ == self.wording(),
    {
        match self {
            RegisterPair::BC => "BC register pair",
            RegisterPair::DE => "DE register pair",
            RegisterPair::HL => "HL register pair",
            RegisterPair::SP => "Stack Pointer",
        }
    }

    /// The single register that holds the pair's low byte; none for SP.
    pub fn low_register(self) -> (reg: Option<Register>)
        ensures
            reg == self.low(),
    {
        match self {
            RegisterPair::BC => Some(Register::C),
            RegisterPair::DE => Some(Register::E),
            RegisterPair::HL => Some(Register::L),
            RegisterPair::SP => None,
        }
    }

    /// The single register that holds the pair's high byte; none for SP.
    pub fn high_register(self) -> (reg: Option<Register>)
        ensures
            reg == self.high(),
    {
        match self {
            RegisterPair::BC => Some(Register::B),
            RegisterPair::DE => Some(Register::D),
            RegisterPair::HL => Some(Register::H),
            RegisterPair::SP => None,
        }
    }

    /// Whether `pp` names the same two registers as this pair. SP and PSW
    /// share an encoding but never match.
    pub fn matches_push_pop(&self, pp: PushPopPair) -> (same: bool)
        ensures
            same == (pp.register_pair() == Some(*self)),
    {
        match (*self, pp) {
            (RegisterPair::BC, PushPopPair::BC) => true,
            (RegisterPair::DE, PushPopPair::DE) => true,
            (RegisterPair::HL, PushPopPair::HL) => true,
            _ => false,
        }
    }

    /// Whether the pair can address memory in STAX and LDAX: only BC and
    /// DE can.
    pub fn supports_indirect(self) -> (indirect: bool)
        ensures
            indirect == (self == RegisterPair::BC || self == RegisterPair::DE),
    {
        matches!(self, RegisterPair::BC | RegisterPair::DE)
    }
}

/// Operand of PUSH and POP. The encoding is that of [`RegisterPair`],
/// except that code 3 means the program status word, the accumulator
/// joined with the flags byte, in place of the stack pointer.
#[derive(Debug, Clone, Copy, PartialEq, Eq, Structural)]
pub enum PushPopPair {
    BC,
    DE,
    HL,
    /// The accumulator (high byte) and the flags byte (low byte).
    PSW,
}

impl PushPopPair {
    /// The pair selected by the low two bits of `code`.
    pub open spec fn decode(code: u8) -> PushPopPair {
        match code % 4 {
            0 => PushPopPair::BC,
            1 => PushPopPair::DE,
            2 => PushPopPair::HL,
            _ => PushPopPair::PSW,
        }
    }

    /// The two-bit encoding of the pair.
    pub open spec fn code(self) -> u8 {
        match self {
            PushPopPair::BC => 0,
            PushPopPair::DE => 1,
            PushPopPair::HL => 2,
            PushPopPair::PSW => 3,
        }
    }

    /// The register pair made of the same two registers; none for PSW.
    pub open spec fn register_pair(self) -> Option<RegisterPair> {
        match self {
            PushPopPair::BC => Some(RegisterPair::BC),
            PushPopPair::DE => Some(RegisterPair::DE),
            PushPopPair::HL => Some(RegisterPair::HL),
            PushPopPair::PSW => None,
        }
    }

    /// Assembler name of the pair.
    pub open spec fn mnemonic(self) -> Seq<char> {
        match self {
            PushPopPair::BC => "BC"@,
            PushPopPair::DE => "DE"@,
            PushPopPair::HL => "HL"@,
            PushPopPair::PSW => "PSW"@,
        }
    }

    /// Plain-language wording of the pair.
    pub open spec fn wording(self) -> Seq<char> {
        match self {
            PushPopPair::BC => "BC register pair"@,
            PushPopPair::DE => "DE register pair"@,
            PushPopPair::HL => "HL register pair"@,
            PushPopPair::PSW => "Program Status Word (A + Flags)"@,
        }
    }

    /// Assembler name used in disassembly.
    pub fn name(self) -> (text: &'static str)
        ensures
            text@ == self.mnemonic(),
    {
        match self {
            PushPopPair::BC => "BC",
            PushPopPair::DE => "DE",
            PushPopPair::HL => "HL",
            PushPopPair::PSW => "PSW",
        }
    }

    /// Decodes the two-bit pair field of a PUSH or POP opcode; higher
    /// bits of `code` are ignored.
    pub fn from_code(code: u8) -> (pair: PushPopPair)
        ensures
            pair == PushPopPair::decode(code),
            pair == RegisterPair::decode(code).push_pop(),
            pair.code() == code % 4,
    {
        proof {
            lemma_byte_fields(code);
        }
        match code & 0x03 {
            0 => PushPopPair::BC,
            1 => PushPopPair::DE,
            2 => PushPopPair::HL,
            _ => PushPopPair::PSW,
        }
    }

    /// The two-bit encoding, the inverse of [`PushPopPair::from_code`].
    pub fn to_code(self) -> (code: u8)
        ensures
            code == self.code(),
            code < 4,
            PushPopPair::decode(code) == self,
    {
        match self {
            PushPopPair::BC => 0,
            PushPopPair::DE => 1,
            PushPopPair::HL => 2,
            PushPopPair::PSW => 3,
        }
    }

    /// Plain-language description.
    pub fn description(self) -> (text: &'static str)
        ensures
            text@ == self.wording(),
    {
        match self {
            PushPopPair::BC => "BC register pair",
            PushPopPair::DE => "DE register pair",
            PushPopPair::HL => "HL register pair",
            PushPopPair::PSW => "Program Status Word (A + Flags)",
        }
    }

    /// The register pair made of the same two registers; none for PSW.
    pub fn to_register_pair(self) -> (pair: Option<RegisterPair>)
        ensures
            pair == self.register_pair(),
    {
        match self {
            PushPopPair::BC => Some(RegisterPair::BC),
            PushPopPair::DE => Some(RegisterPair::DE),
            PushPopPair::HL => Some(RegisterPair::HL),
            PushPopPair::PSW => None,
        }
    }

    /// Whether the pair is the program status word.
    pub fn is_psw(self) -> (psw: bool)
        ensures
            psw == (self == PushPopPair::PSW),
    {
        matches!(self, PushPopPair::PSW)
    }
}

} // verus!
