//! The execution engine: the register file, memory and I/O bus of one
//! 8080, and the fetch-decode-dispatch step that drives them.

use vstd::prelude::*;
use vstd::pervasive::unreached;
use vstd::string::StringExecFns;
use crate::alu::{
    add_bytes, decimal_adjust, rotate_left, rotate_left_through_carry, rotate_right,
    rotate_right_through_carry, sub_bytes, AluOp,
};
use crate::bits::{lemma_byte_fields, lemma_opcode_masks, lemma_word_fields};
use crate::flags::{
    arithmetic_flags, compute_arithmetic_flags, flags_valid, lemma_with_carry, logical_flags,
    set_carry,
};
use crate::hex::{hex_byte, hex_word, push_hex_byte, push_hex_word};
use crate::io::bus::IoBus;
use crate::io::device::IoDevice;
use crate::io::devices::null::NullDevice;
use crate::io::devices::timer::Timer;
use crate::laws::lemma_step_keeps_flags_valid;
use crate::machine::{
    alu_op_of, condition_of, dest_of, opcode_defined, operand_cycles, pair_of, push_pop_of,
    src_of, vector_of, BusAccess, Machine, INTERRUPT_VECTOR,
};
use crate::memory::FlatMemory;
use crate::registers::{
    Condition, PushPopPair, Register, RegisterPair, FLAG_AUX_CARRY, FLAG_BIT_1, FLAG_CARRY,
    FLAG_PARITY, FLAG_SIGN, FLAG_ZERO,
};

verus! {

/// An Intel 8080 with its memory, its timer and its I/O bus. The devices
/// on the bus are of type `D`.
pub struct Intel8080<D: IoDevice = NullDevice> {
    pub a: u8,
    pub b: u8,
    pub c: u8,
    pub d: u8,
    pub e: u8,
    pub h: u8,
    pub l: u8,
    /// Flags byte: S Z 0 AC 0 P 1 C from bit 7 down.
    pub flags: u8,
    pub sp: u16,
    pub pc: u16,
    memory: Box<FlatMemory>,
    io_bus: IoBus<D>,
    /// The interval timer behind ports `0x30` to `0x32`.
    pub timer: Timer,
    pub halted: bool,
    pub interrupts_enabled: bool,
    /// Total of the cycles of all instructions executed.
    pub cycles: u64,
}

impl<D: IoDevice> View for Intel8080<D> {
    type V = Machine;

    /// The state of the engine but for its I/O bus.
    closed spec fn view(&self) -> Machine {
        Machine {
            a: self.a,
            b: self.b,
            c: self.c,
            d: self.d,
            e: self.e,
            h: self.h,
            l: self.l,
            flags: self.flags,
            sp: self.sp,
            pc: self.pc,
            memory: self.memory@,
            timer: self.timer@,
            halted: self.halted,
            interrupts_enabled: self.interrupts_enabled,
            cycles: self.cycles,
        }
    }
}

/// The operand fields of an opcode, as the engine extracts them with
/// shifts and masks, are the fields that the instruction set defines.
proof fn lemma_opcode_fields(opcode: u8)
    ensures
        Register::decode((opcode >> 3) & 0x07) == dest_of(opcode),
        Register::decode(opcode & 0x07) == src_of(opcode),
        RegisterPair::decode((opcode >> 4) & 0x03) == pair_of(opcode),
        PushPopPair::decode((opcode >> 4) & 0x03) == push_pop_of(opcode),
        Condition::decode((opcode >> 3) & 0x07) == condition_of(opcode),
        AluOp::decode((opcode >> 3) & 0x07) == alu_op_of(opcode),
        (opcode >> 3) & 0x07 == vector_of(opcode),
{
    lemma_byte_fields(opcode);
}

impl Intel8080<NullDevice> {
    /// An engine at power-on with an empty I/O bus.
    pub fn new() -> (cpu: Self)
        ensures
            cpu@ == Machine::initial(),
            cpu.bus().devices().len() == 0,
            forall|port: u8| #[trigger] cpu.bus().binding(port) == None::<usize>,
    {
        Intel8080::with_io_bus(IoBus::new())
    }
}

impl<D: IoDevice> Intel8080<D> {
    /// The I/O bus of the engine.
    pub closed spec fn bus(&self) -> IoBus<D> {
        self.io_bus
    }

    /// The memory of an engine spans the whole address space.
    pub proof fn lemma_view_wf(&self)
        ensures
            self@.wf(),
    {
        self.memory.lemma_size();
    }

    /// An engine at power-on wired to the given I/O bus.
    pub fn with_io_bus(io_bus: IoBus<D>) -> (cpu: Self)
        ensures
            cpu@ == Machine::initial(),
            cpu.bus() == io_bus,
    {
        Intel8080 {
            a: 0,
            b: 0,
            c: 0,
            d: 0,
            e: 0,
            h: 0,
            l: 0,
            flags: FLAG_BIT_1,
            sp: 0,
            pc: 0,
            memory: Box::new(FlatMemory::new()),
            io_bus,
            timer: Timer::new(),
            halted: false,
            interrupts_enabled: false,
            cycles: 0,
        }
    }

    /// The I/O bus, for binding devices to ports.
    pub fn io_bus_mut(&mut self) -> (bus: &mut IoBus<D>)
        ensures
            *bus == old(self).bus(),
            final(self).bus() == *final(bus),
            final(self)@ == old(self)@,
    {
        &mut self.io_bus
    }

    /// The I/O bus, for inspecting its devices.
    pub fn io_bus(&self) -> (bus: &IoBus<D>)
        ensures
            *bus == self.bus(),
    {
        &self.io_bus
    }

    // Single registers.

    /// The accumulator.
    pub fn get_a(&self) -> (value: u8)
        ensures
            value == self@.a,
    {
        self.a
    }

    /// Register B.
    pub fn get_b(&self) -> (value: u8)
        ensures
            value == self@.b,
    {
        self.b
    }

    /// Register C.
    pub fn get_c(&self) -> (value: u8)
        ensures
            value == self@.c,
    {
        self.c
    }

    /// Register D.
    pub fn get_d(&self) -> (value: u8)
        ensures
            value == self@.d,
    {
        self.d
    }

    /// Register E.
    pub fn get_e(&self) -> (value: u8)
        ensures
            value == self@.e,
    {
        self.e
    }

    /// Register H.
    pub fn get_h(&self) -> (value: u8)
        ensures
            value == self@.h,
    {
        self.h
    }

    /// Register L.
    pub fn get_l(&self) -> (value: u8)
        ensures
            value == self@.l,
    {
        self.l
    }

    /// The flags byte.
    pub fn get_flags(&self) -> (value: u8)
        ensures
            value == self@.flags,
    {
        self.flags
    }

    /// The stack pointer.
    pub fn get_sp(&self) -> (value: u16)
        ensures
            value == self@.sp,
    {
        self.sp
    }

    /// The program counter.
    pub fn get_pc(&self) -> (value: u16)
        ensures
            value == self@.pc,
    {
        self.pc
    }

    /// Whether the engine has halted.
    pub fn is_halted(&self) -> (halted: bool)
        ensures
            halted == self@.halted,
    {
        self.halted
    }

    /// Total of the cycles of all instructions executed.
    pub fn get_cycles(&self) -> (cycles: u64)
        ensures
            cycles == self@.cycles,
    {
        self.cycles
    }

    /// Sets the accumulator.
    pub fn set_a(&mut self, val: u8)
        ensures
            final(self)@ == (Machine { a: val, ..old(self)@ }),
            final(self).bus() == old(self).bus(),
    {
        self.a = val;
    }

    /// Sets register B.
    pub fn set_b(&mut self, val: u8)
        ensures
            final(self)@ == (Machine { b: val, ..old(self)@ }),
            final(self).bus() == old(self).bus(),
    {
        self.b = val;
    }

    /// Sets register C.
    pub fn set_c(&mut self, val: u8)
        ensures
            final(self)@ == (Machine { c: val, ..old(self)@ }),
            final(self).bus() == old(self).bus(),
    {
        self.c = val;
    }

    /// Sets register D.
    pub fn set_d(&mut self, val: u8)
        ensures
            final(self)@ == (Machine { d: val, ..old(self)@ }),
            final(self).bus() == old(self).bus(),
    {
        self.d = val;
    }

    /// Sets register E.
    pub fn set_e(&mut self, val: u8)
        ensures
            final(self)@ == (Machine { e: val, ..old(self)@ }),
            final(self).bus() == old(self).bus(),
    {
        self.e = val;
    }

    /// Sets register H.
    pub fn set_h(&mut self, val: u8)
        ensures
            final(self)@ == (Machine { h: val, ..old(self)@ }),
            final(self).bus() == old(self).bus(),
    {
        self.h = val;
    }

    /// Sets register L.
    pub fn set_l(&mut self, val: u8)
        ensures
            final(self)@ == (Machine { l: val, ..old(self)@ }),
            final(self).bus() == old(self).bus(),
    {
        self.l = val;
    }

    /// Sets the stack pointer.
    pub fn set_sp(&mut self, val: u16)
        ensures
            final(self)@ == (Machine { sp: val, ..old(self)@ }),
            final(self).bus() == old(self).bus(),
    {
        self.sp = val;
    }

    /// Sets the program counter.
    pub fn set_pc(&mut self, val: u16)
        ensures
            final(self)@ == old(self)@.jump(val),
            final(self).bus() == old(self).bus(),
    {
        self.pc = val;
    }

    /// Sets the flags byte as given, fixed bits included.
    pub fn set_flags(&mut self, val: u8)
        ensures
            final(self)@ == (Machine { flags: val, ..old(self)@ }),
            final(self).bus() == old(self).bus(),
    {
        self.flags = val;
    }

    /// Halts the engine or lets it go on.
    pub fn set_halted(&mut self, halted: bool)
        ensures
            final(self)@ == (Machine { halted, ..old(self)@ }),
            final(self).bus() == old(self).bus(),
    {
        self.halted = halted;
    }

    /// Whether interrupts are enabled.
    pub fn get_interrupts_enabled(&self) -> (enabled: bool)
        ensures
            enabled == self@.interrupts_enabled,
    {
        self.interrupts_enabled
    }

    /// Enables or disables interrupts.
    pub fn set_interrupts_enabled(&mut self, enabled: bool)
        ensures
            final(self)@ == (Machine { interrupts_enabled: enabled, ..old(self)@ }),
            final(self).bus() == old(self).bus(),
    {
        self.interrupts_enabled = enabled;
    }

    /// Sets the running total of cycles.
    pub fn set_cycles(&mut self, cycles: u64)
        ensures
            final(self)@ == (Machine { cycles, ..old(self)@ }),
            final(self).bus() == old(self).bus(),
    {
        self.cycles = cycles;
    }

    /// The interval timer.
    pub fn timer(&self) -> (timer: &Timer)
        ensures
            timer@ == self@.timer,
    {
        &self.timer
    }

    /// The interval timer, for changing it. Whatever the caller does to
    /// the timer stays in the engine; nothing else changes.
    pub fn timer_mut(&mut self) -> (timer: &mut Timer)
        ensures
            timer@ == old(self)@.timer,
            final(self)@ == (Machine { timer: final(timer)@, ..old(self)@ }),
            final(self).bus() == old(self).bus(),
    {
        &mut self.timer
    }

    // Register pairs.

    /// The pair B:C.
    pub fn get_bc(&self) -> (value: u16)
        ensures
            value == self@.bc(),
    {
        proof {
            lemma_word_fields(0, self.b, self.c);
        }
        ((self.b as u16) << 8) | (self.c as u16)
    }

    /// Sets the pair B:C.
    pub fn set_bc(&mut self, val: u16)
        ensures
            final(self)@ == old(self)@.with_bc(val),
            final(self).bus() == old(self).bus(),
    {
        proof {
            lemma_word_fields(val, 0, 0);
        }
        self.b = (val >> 8) as u8;
        self.c = val as u8;
    }

    /// The pair D:E.
    pub fn get_de(&self) -> (value: u16)
        ensures
            value == self@.de(),
    {
        proof {
            lemma_word_fields(0, self.d, self.e);
        }
        ((self.d as u16) << 8) | (self.e as u16)
    }

    /// Sets the pair D:E.
    pub fn set_de(&mut self, val: u16)
        ensures
            final(self)@ == old(self)@.with_de(val),
            final(self).bus() == old(self).bus(),
    {
        proof {
            lemma_word_fields(val, 0, 0);
        }
        self.d = (val >> 8) as u8;
        self.e = val as u8;
    }

    /// The pair H:L.
    pub fn get_hl(&self) -> (value: u16)
        ensures
            value == self@.hl(),
    {
        proof {
            lemma_word_fields(0, self.h, self.l);
        }
        ((self.h as u16) << 8) | (self.l as u16)
    }

    /// Sets the pair H:L.
    pub fn set_hl(&mut self, val: u16)
        ensures
            final(self)@ == old(self)@.with_hl(val),
            final(self).bus() == old(self).bus(),
    {
        proof {
            lemma_word_fields(val, 0, 0);
        }
        self.h = (val >> 8) as u8;
        self.l = val as u8;
    }

    /// The program status word: the accumulator in the high byte, the
    /// flags in the low byte with bit 1 set and bits 3 and 5 clear.
    pub fn get_psw(&self) -> (value: u16)
        ensures
            value == self@.psw(),
    {
        let flags: u8 = (self.flags & 0b1101_0111) | FLAG_BIT_1;
        proof {
            lemma_word_fields(0, self.a, flags);
        }
        ((self.a as u16) << 8) | (flags as u16)
    }

    /// Unpacks a program status word into the accumulator and the flags,
    /// forcing bit 1 of the flags to one and bits 3 and 5 to zero.
    pub fn set_psw(&mut self, val: u16)
        ensures
            final(self)@ == old(self)@.with_psw(val),
            final(self).bus() == old(self).bus(),
    {
        proof {
            lemma_word_fields(val, 0, 0);
        }
        self.a = (val >> 8) as u8;
        self.flags = ((val as u8) & 0b1101_0111) | FLAG_BIT_1;
    }

    // Operands by name.

    /// The value of a single-register operand; `M` reads the byte at
    /// H:L.
    pub fn get_reg(&mut self, reg: Register) -> (value: u8)
        ensures
            value == old(self)@.reg(reg),
            final(self)@ == old(self)@,
            final(self).bus() == old(self).bus(),
    {
        match reg {
            Register::A => self.a,
            Register::B => self.b,
            Register::C => self.c,
            Register::D => self.d,
            Register::E => self.e,
            Register::H => self.h,
            Register::L => self.l,
            Register::M => {
                let addr = self.get_hl();
                self.read_byte(addr)
            },
        }
    }

    /// Sets a single-register operand; `M` writes the byte at H:L.
    pub fn set_reg(&mut self, reg: Register, value: u8)
        ensures
            final(self)@ == old(self)@.with_reg(reg, value),
            final(self).bus() == old(self).bus(),
    {
        match reg {
            Register::A => self.a = value,
            Register::B => self.b = value,
            Register::C => self.c = value,
            Register::D => self.d = value,
            Register::E => self.e = value,
            Register::H => self.h = value,
            Register::L => self.l = value,
            Register::M => {
                let addr = self.get_hl();
                self.write_byte(addr, value)
            },
        }
    }

    /// The value of a register pair.
    pub fn get_pair(&self, pair: RegisterPair) -> (value: u16)
        ensures
            value == self@.pair(pair),
    {
        match pair {
            RegisterPair::BC => self.get_bc(),
            RegisterPair::DE => self.get_de(),
            RegisterPair::HL => self.get_hl(),
            RegisterPair::SP => self.sp,
        }
    }

    /// Sets a register pair.
    pub fn set_pair(&mut self, pair: RegisterPair, val: u16)
        ensures
            final(self)@ == old(self)@.with_pair(pair, val),
            final(self).bus() == old(self).bus(),
    {
        match pair {
            RegisterPair::BC => self.set_bc(val),
            RegisterPair::DE => self.set_de(val),
            RegisterPair::HL => self.set_hl(val),
            RegisterPair::SP => self.sp = val,
        }
    }

    /// Whether a branch condition holds of the current flags.
    pub fn test_condition(&self, cond: Condition) -> (holds: bool)
        ensures
            holds == self@.condition(cond),
    {
        match cond {
            Condition::NZ => (self.flags & FLAG_ZERO) == 0,
            Condition::Z => (self.flags & FLAG_ZERO) != 0,
            Condition::NC => (self.flags & FLAG_CARRY) == 0,
            Condition::C => (self.flags & FLAG_CARRY) != 0,
            Condition::PO => (self.flags & FLAG_PARITY) == 0,
            Condition::PE => (self.flags & FLAG_PARITY) != 0,
            Condition::P => (self.flags & FLAG_SIGN) == 0,
            Condition::M => (self.flags & FLAG_SIGN) != 0,
        }
    }

    /// The value of a push/pop pair.
    pub fn get_push_pop_pair(&self, pair: PushPopPair) -> (value: u16)
        ensures
            value == self@.push_pop(pair),
    {
        match pair {
            PushPopPair::BC => self.get_bc(),
            PushPopPair::DE => self.get_de(),
            PushPopPair::HL => self.get_hl(),
            PushPopPair::PSW => self.get_psw(),
        }
    }

    /// Sets a push/pop pair.
    pub fn set_push_pop_pair(&mut self, pair: PushPopPair, val: u16)
        ensures
            final(self)@ == old(self)@.with_push_pop(pair, val),
            final(self).bus() == old(self).bus(),
    {
        match pair {
            PushPopPair::BC => self.set_bc(val),
            PushPopPair::DE => self.set_de(val),
            PushPopPair::HL => self.set_hl(val),
            PushPopPair::PSW => self.set_psw(val),
        }
    }

    // Operands by code.

    /// The value of the single-register operand with the given three-bit
    /// code; higher bits of `code` are ignored.
    pub fn get_reg_by_code(&mut self, code: u8) -> (value: u8)
        ensures
            value == old(self)@.reg(Register::decode(code)),
            final(self)@ == old(self)@,
            final(self).bus() == old(self).bus(),
    {
        self.get_reg(Register::from_code(code))
    }

    /// Sets the single-register operand with the given three-bit code;
    /// higher bits of `code` are ignored.
    pub fn set_reg_by_code(&mut self, code: u8, val: u8)
        ensures
            final(self)@ == old(self)@.with_reg(Register::decode(code), val),
            final(self).bus() == old(self).bus(),
    {
        self.set_reg(Register::from_code(code), val)
    }

    /// The value of the register pair with the given two-bit code, where
    /// code 3 is the stack pointer; higher bits of `code` are ignored.
    pub fn get_pair_by_code(&self, code: u8) -> (value: u16)
        ensures
            value == self@.pair(RegisterPair::decode(code)),
    {
        self.get_pair(RegisterPair::from_code(code))
    }

    /// Sets the register pair with the given two-bit code, where code 3
    /// is the stack pointer; higher bits of `code` are ignored.
    pub fn set_pair_by_code(&mut self, code: u8, val: u16)
        ensures
            final(self)@ == old(self)@.with_pair(RegisterPair::decode(code), val),
            final(self).bus() == old(self).bus(),
    {
        self.set_pair(RegisterPair::from_code(code), val)
    }

    /// The value of the push/pop pair with the given two-bit code, where
    /// code 3 is the program status word; higher bits of `code` are
    /// ignored.
    pub fn get_push_pop_pair_by_code(&self, code: u8) -> (value: u16)
        ensures
            value == self@.push_pop(PushPopPair::decode(code)),
    {
        self.get_push_pop_pair(PushPopPair::from_code(code))
    }

    /// Sets the push/pop pair with the given two-bit code, where code 3
    /// is the program status word; higher bits of `code` are ignored.
    pub fn set_push_pop_pair_by_code(&mut self, code: u8, val: u16)
        ensures
            final(self)@ == old(self)@.with_push_pop(PushPopPair::decode(code), val),
            final(self).bus() == old(self).bus(),
    {
        self.set_push_pop_pair(PushPopPair::from_code(code), val)
    }

    /// Whether the branch condition with the given three-bit code holds
    /// of the current flags; higher bits of `condition` are ignored.
    pub fn test_condition_by_code(&self, condition: u8) -> (holds: bool)
        ensures
            holds == self@.condition(Condition::decode(condition)),
    {
        self.test_condition(Condition::from_code(condition))
    }

    // Memory.

    /// The byte at `addr`.
    pub fn read_byte(&mut self, addr: u16) -> (value: u8)
        ensures
            value == old(self)@.byte_at(addr),
            final(self)@ == old(self)@,
            final(self).bus() == old(self).bus(),
    {
        self.memory.load(addr)
    }

    /// Stores `value` at `addr`.
    pub fn write_byte(&mut self, addr: u16, value: u8)
        ensures
            final(self)@ == old(self)@.with_byte(addr, value),
            final(self).bus() == old(self).bus(),
    {
        self.memory.store(addr, value)
    }

    /// The byte at the program counter, which moves on by one.
    pub fn fetch_byte(&mut self) -> (value: u8)
        ensures
            value == old(self)@.next_byte(),
            final(self)@ == old(self)@.skip(1),
            final(self).bus() == old(self).bus(),
    {
        let byte = self.read_byte(self.pc);
        self.pc = self.pc.wrapping_add(1);
        byte
    }

    /// The little-endian word at the program counter, which moves on by
    /// two.
    pub fn fetch_word(&mut self) -> (value: u16)
        ensures
            value == old(self)@.next_word(),
            final(self)@ == old(self)@.skip(2),
            final(self).bus() == old(self).bus(),
    {
        let low = self.fetch_byte();
        let high = self.fetch_byte();
        proof {
            lemma_word_fields(0, high, low);
        }
        ((high as u16) << 8) | (low as u16)
    }

    /// The little-endian word at `address`.
    pub fn read_word(&mut self, address: u16) -> (value: u16)
        ensures
            value == old(self)@.word_at(address),
            final(self)@ == old(self)@,
            final(self).bus() == old(self).bus(),
    {
        let low = self.read_byte(address);
        let high = self.read_byte(address.wrapping_add(1));
        proof {
            lemma_word_fields(0, high, low);
        }
        ((high as u16) << 8) | (low as u16)
    }

    /// Stores a little-endian word at `address`.
    pub fn write_word(&mut self, address: u16, value: u16)
        ensures
            final(self)@ == old(self)@.with_word(address, value),
            final(self).bus() == old(self).bus(),
    {
        proof {
            lemma_word_fields(value, 0, 0);
        }
        self.write_byte(address, value as u8);
        self.write_byte(address.wrapping_add(1), (value >> 8) as u8);
    }

    // Flags.

    /// Sets Zero, Sign, Parity and Carry from a result and clears
    /// Auxiliary Carry.
    pub fn update_flags(&mut self, result: u8, carry: bool)
        ensures
            final(self)@ == (Machine { flags: arithmetic_flags(result, carry, false), ..old(self)@ }),
            final(self).bus() == old(self).bus(),
            flags_valid(final(self)@.flags),
    {
        self.flags = compute_arithmetic_flags(result, carry, false);
    }

    /// Sets all five flags after an arithmetic operation.
    pub fn update_flags_arithmetic(&mut self, result: u8, carry: bool, aux_carry: bool)
        ensures
            final(self)@ == (Machine { flags: arithmetic_flags(result, carry, aux_carry), ..old(self)@ }),
            final(self).bus() == old(self).bus(),
            flags_valid(final(self)@.flags),
    {
        self.flags = compute_arithmetic_flags(result, carry, aux_carry);
    }

    /// Sets Zero, Sign and Parity after a logical operation and clears
    /// Carry and Auxiliary Carry.
    pub fn update_flags_logical(&mut self, result: u8)
        ensures
            final(self)@ == (Machine { flags: logical_flags(result), ..old(self)@ }),
            final(self).bus() == old(self).bus(),
            flags_valid(final(self)@.flags),
    {
        self.flags = compute_arithmetic_flags(result, false, false);
    }

    /// Whether the carry flag is set.
    fn carry_flag(&self) -> (carry: bool)
        ensures
            carry == self@.carry(),
    {
        (self.flags & FLAG_CARRY) != 0
    }

    /// Applies an operation of the accumulator group to the accumulator
    /// and `operand`.
    pub fn accumulate(&mut self, op: AluOp, operand: u8)
        ensures
            final(self)@ == old(self)@.accumulate(op, operand),
            final(self).bus() == old(self).bus(),
            flags_valid(final(self)@.flags),
    {
        match op {
            AluOp::Add => {
                let result = add_bytes(self.a, operand, false);
                self.a = result.value;
                self.update_flags_arithmetic(result.value, result.carry, result.aux_carry);
            },
            AluOp::Adc => {
                let result = add_bytes(self.a, operand, self.carry_flag());
                self.a = result.value;
                self.update_flags_arithmetic(result.value, result.carry, result.aux_carry);
            },
            AluOp::Sub => {
                let result = sub_bytes(self.a, operand, false);
                self.a = result.value;
                self.update_flags_arithmetic(result.value, result.carry, result.aux_carry);
            },
            AluOp::Sbb => {
                let result = sub_bytes(self.a, operand, self.carry_flag());
                self.a = result.value;
                self.update_flags_arithmetic(result.value, result.carry, result.aux_carry);
            },
            AluOp::Ana => {
                self.a &= operand;
                self.update_flags_logical(self.a);
            },
            AluOp::Xra => {
                self.a ^= operand;
                self.update_flags_logical(self.a);
            },
            AluOp::Ora => {
                self.a |= operand;
                self.update_flags_logical(self.a);
            },
            AluOp::Compare => {
                let result = sub_bytes(self.a, operand, false);
                self.update_flags_arithmetic(result.value, result.carry, result.aux_carry);
            },
        }
    }

    // Instructions. Each is entered with the program counter behind the
    // opcode byte, and returns the cycles the instruction takes.

    /// NOP.
    pub fn perform_nop(&mut self) -> (cycles: u8)
        ensures
            cycles == 4,
            final(self)@ == old(self)@,
            final(self).bus() == old(self).bus(),
    {
        4
    }

    /// HLT: halts the engine.
    pub fn perform_hlt(&mut self) -> (cycles: u8)
        ensures
            cycles == 7,
            final(self)@ == old(self)@.hlt(),
            final(self).bus() == old(self).bus(),
    {
        self.halted = true;
        7
    }

    /// MOV between two operands given by name: 5 cycles, 7 if either is
    /// `M`.
    pub fn mov(&mut self, dest: Register, src: Register) -> (cycles: u8)
        ensures
            cycles == operand_cycles(dest == Register::M || src == Register::M, 5, 7),
            final(self)@ == old(self)@.mov(dest, src),
            final(self).bus() == old(self).bus(),
    {
        let value = self.get_reg(src);
        self.set_reg(dest, value);
        if dest == Register::M || src == Register::M {
            7
        } else {
            5
        }
    }

    /// MOV, the operands in bits 5 to 3 and 2 to 0 of the opcode.
    pub fn perform_mov(&mut self, opcode: u8) -> (cycles: u8)
        ensures
            cycles == operand_cycles(dest_of(opcode) == Register::M || src_of(opcode) == Register::M, 5, 7),
            final(self)@ == old(self)@.mov(dest_of(opcode), src_of(opcode)),
            final(self).bus() == old(self).bus(),
    {
        proof {
            lemma_opcode_fields(opcode);
        }
        let dest = Register::from_code((opcode >> 3) & 0x07);
        let src = Register::from_code(opcode & 0x07);
        self.mov(dest, src)
    }

    /// ADD, ADC, SUB, SBB, ANA, XRA, ORA or CMP with a register operand:
    /// the operation in bits 5 to 3 of the opcode, the operand in bits 2
    /// to 0; 4 cycles, 7 for `M`.
    pub fn perform_alu(&mut self, opcode: u8) -> (cycles: u8)
        ensures
            cycles == operand_cycles(src_of(opcode) == Register::M, 4, 7),
            final(self)@ == old(self)@.alu(alu_op_of(opcode), src_of(opcode)),
            final(self).bus() == old(self).bus(),
            flags_valid(final(self)@.flags),
    {
        proof {
            lemma_opcode_fields(opcode);
        }
        let operation = AluOp::from_code((opcode >> 3) & 0x07);
        let src = Register::from_code(opcode & 0x07);
        let value = self.get_reg(src);
        self.accumulate(operation, value);
        if src == Register::M {
            7
        } else {
            4
        }
    }

    /// MVI: 7 cycles, 10 for `M`.
    pub fn perform_mvi(&mut self, opcode: u8) -> (cycles: u8)
        ensures
            cycles == operand_cycles(dest_of(opcode) == Register::M, 7, 10),
            final(self)@ == old(self)@.mvi(dest_of(opcode)),
            final(self).bus() == old(self).bus(),
    {
        proof {
            lemma_opcode_fields(opcode);
        }
        let reg = Register::from_code((opcode >> 3) & 0x07);
        let value = self.fetch_byte();
        self.set_reg(reg, value);
        if reg == Register::M {
            10
        } else {
            7
        }
    }

    /// INR: 5 cycles, 10 for `M`. Carry keeps its value.
    pub fn perform_inr(&mut self, opcode: u8) -> (cycles: u8)
        ensures
            cycles == operand_cycles(dest_of(opcode) == Register::M, 5, 10),
            final(self)@ == old(self)@.inr(dest_of(opcode)),
            final(self).bus() == old(self).bus(),
    {
        proof {
            lemma_opcode_fields(opcode);
        }
        let reg = Register::from_code((opcode >> 3) & 0x07);
        let value = self.get_reg(reg);
        let result = value.wrapping_add(1);
        let aux_carry = (value & 0x0F) == 0x0F;
        proof {
            lemma_byte_fields(value);
        }
        self.set_reg(reg, result);
        let carry = self.flags & FLAG_CARRY;
        self.update_flags_arithmetic(result, false, aux_carry);
        self.flags = (self.flags & !FLAG_CARRY) | carry;
        if reg == Register::M {
            10
        } else {
            5
        }
    }

    /// DCR: 5 cycles, 10 for `M`. Carry keeps its value.
    pub fn perform_dcr(&mut self, opcode: u8) -> (cycles: u8)
        ensures
            cycles == operand_cycles(dest_of(opcode) == Register::M, 5, 10),
            final(self)@ == old(self)@.dcr(dest_of(opcode)),
            final(self).bus() == old(self).bus(),
    {
        proof {
            lemma_opcode_fields(opcode);
        }
        let reg = Register::from_code((opcode >> 3) & 0x07);
        let value = self.get_reg(reg);
        let result = value.wrapping_sub(1);
        let aux_borrow = (value & 0x0F) == 0x00;
        proof {
            lemma_byte_fields(value);
        }
        self.set_reg(reg, result);
        let carry = self.flags & FLAG_CARRY;
        self.update_flags_arithmetic(result, false, aux_borrow);
        self.flags = (self.flags & !FLAG_CARRY) | carry;
        if reg == Register::M {
            10
        } else {
            5
        }
    }

    /// LXI into a pair given by name.
    pub fn lxi(&mut self, pair: RegisterPair) -> (cycles: u8)
        ensures
            cycles == 10,
            final(self)@ == old(self)@.lxi(pair),
            final(self).bus() == old(self).bus(),
    {
        let value = self.fetch_word();
        self.set_pair(pair, value);
        10
    }

    /// LXI, the pair in bits 5 and 4 of the opcode.
    pub fn perform_lxi(&mut self, opcode: u8) -> (cycles: u8)
        ensures
            cycles == 10,
            final(self)@ == old(self)@.lxi(pair_of(opcode)),
            final(self).bus() == old(self).bus(),
    {
        proof {
            lemma_opcode_fields(opcode);
        }
        let pair = RegisterPair::from_code((opcode >> 4) & 0x03);
        self.lxi(pair)
    }

    /// DAD of a pair given by name. Only Carry changes among the flags.
    pub fn dad(&mut self, pair: RegisterPair) -> (cycles: u8)
        ensures
            cycles == 10,
            final(self)@ == old(self)@.dad(pair),
            final(self).bus() == old(self).bus(),
    {
        let value = self.get_pair(pair);
        let hl = self.get_hl();
        let result: u32 = hl as u32 + value as u32;
        self.set_hl(hl.wrapping_add(value));
        self.flags = set_carry(self.flags, result > 0xFFFF);
        10
    }

    /// DAD, the pair in bits 5 and 4 of the opcode.
    pub fn perform_dad(&mut self, opcode: u8) -> (cycles: u8)
        ensures
            cycles == 10,
            final(self)@ == old(self)@.dad(pair_of(opcode)),
            final(self).bus() == old(self).bus(),
    {
        proof {
            lemma_opcode_fields(opcode);
        }
        let pair = RegisterPair::from_code((opcode >> 4) & 0x03);
        self.dad(pair)
    }

    /// INX. No flag changes.
    pub fn perform_inx(&mut self, opcode: u8) -> (cycles: u8)
        ensures
            cycles == 5,
            final(self)@ == old(self)@.inx(pair_of(opcode)),
            final(self).bus() == old(self).bus(),
    {
        proof {
            lemma_opcode_fields(opcode);
        }
        let pair = RegisterPair::from_code((opcode >> 4) & 0x03);
        let value = self.get_pair(pair).wrapping_add(1);
        self.set_pair(pair, value);
        5
    }

    /// DCX. No flag changes.
    pub fn perform_dcx(&mut self, opcode: u8) -> (cycles: u8)
        ensures
            cycles == 5,
            final(self)@ == old(self)@.dcx(pair_of(opcode)),
            final(self).bus() == old(self).bus(),
    {
        proof {
            lemma_opcode_fields(opcode);
        }
        let pair = RegisterPair::from_code((opcode >> 4) & 0x03);
        let value = self.get_pair(pair).wrapping_sub(1);
        self.set_pair(pair, value);
        5
    }

    /// PUSH of a pair given by name.
    pub fn push(&mut self, pair: PushPopPair) -> (cycles: u8)
        ensures
            cycles == 11,
            final(self)@ == old(self)@.push(pair),
            final(self).bus() == old(self).bus(),
    {
        let value = self.get_push_pop_pair(pair);
        self.push_word(value);
        11
    }

    /// PUSH, the pair in bits 5 and 4 of the opcode.
    pub fn perform_push(&mut self, opcode: u8) -> (cycles: u8)
        ensures
            cycles == 11,
            final(self)@ == old(self)@.push(push_pop_of(opcode)),
            final(self).bus() == old(self).bus(),
    {
        proof {
            lemma_opcode_fields(opcode);
        }
        let pair = PushPopPair::from_code((opcode >> 4) & 0x03);
        self.push(pair)
    }

    /// POP into a pair given by name.
    pub fn pop(&mut self, pair: PushPopPair) -> (cycles: u8)
        ensures
            cycles == 10,
            final(self)@ == old(self)@.pop(pair),
            final(self).bus() == old(self).bus(),
    {
        let value = self.read_word(self.sp);
        self.set_push_pop_pair(pair, value);
        self.sp = self.sp.wrapping_add(2);
        10
    }

    /// POP, the pair in bits 5 and 4 of the opcode.
    pub fn perform_pop(&mut self, opcode: u8) -> (cycles: u8)
        ensures
            cycles == 10,
            final(self)@ == old(self)@.pop(push_pop_of(opcode)),
            final(self).bus() == old(self).bus(),
    {
        proof {
            lemma_opcode_fields(opcode);
        }
        let pair = PushPopPair::from_code((opcode >> 4) & 0x03);
        self.pop(pair)
    }

    /// Pushes a word: the stack pointer goes down by two and the word is
    /// stored there.
    fn push_word(&mut self, value: u16)
        ensures
            final(self)@ == old(self)@.pushed(value),
            final(self).bus() == old(self).bus(),
    {
        self.sp = self.sp.wrapping_sub(2);
        self.write_word(self.sp, value);
    }

    /// Conditional jump on a condition given by name: 10 cycles, taken
    /// or not.
    pub fn jcc(&mut self, cond: Condition) -> (cycles: u8)
        ensures
            cycles == 10,
            final(self)@ == old(self)@.jcc(cond),
            final(self).bus() == old(self).bus(),
    {
        let addr = self.fetch_word();
        if self.test_condition(cond) {
            self.pc = addr;
        }
        10
    }

    /// Conditional jump, the condition in bits 5 to 3 of the opcode.
    pub fn perform_conditional_jump(&mut self, opcode: u8) -> (cycles: u8)
        ensures
            cycles == 10,
            final(self)@ == old(self)@.jcc(condition_of(opcode)),
            final(self).bus() == old(self).bus(),
    {
        proof {
            lemma_opcode_fields(opcode);
        }
        let condition = Condition::from_code((opcode >> 3) & 0x07);
        self.jcc(condition)
    }

    /// Conditional call: 17 cycles if taken, else 11.
    pub fn perform_conditional_call(&mut self, opcode: u8) -> (cycles: u8)
        ensures
            cycles == operand_cycles(old(self)@.condition(condition_of(opcode)), 11, 17),
            final(self)@ == old(self)@.ccc(condition_of(opcode)),
            final(self).bus() == old(self).bus(),
    {
        proof {
            lemma_opcode_fields(opcode);
        }
        let condition = Condition::from_code((opcode >> 3) & 0x07);
        let addr = self.fetch_word();
        if self.test_condition(condition) {
            self.push_word(self.pc);
            self.pc = addr;
            17
        } else {
            11
        }
    }

    /// Conditional return: 11 cycles if taken, else 5.
    pub fn perform_conditional_return(&mut self, opcode: u8) -> (cycles: u8)
        ensures
            cycles == operand_cycles(old(self)@.condition(condition_of(opcode)), 5, 11),
            final(self)@ == old(self)@.rcc(condition_of(opcode)),
            final(self).bus() == old(self).bus(),
    {
        proof {
            lemma_opcode_fields(opcode);
        }
        let condition = Condition::from_code((opcode >> 3) & 0x07);
        if self.test_condition(condition) {
            self.pc = self.read_word(self.sp);
            self.sp = self.sp.wrapping_add(2);
            11
        } else {
            5
        }
    }

    /// RST: a call to eight times the number in bits 5 to 3 of the
    /// opcode.
    pub fn perform_rst(&mut self, opcode: u8) -> (cycles: u8)
        ensures
            cycles == 11,
            final(self)@ == old(self)@.rst(vector_of(opcode)),
            final(self).bus() == old(self).bus(),
    {
        proof {
            lemma_opcode_fields(opcode);
        }
        let n: u8 = (opcode >> 3) & 0x07;
        let addr: u16 = n as u16 * 8;
        self.push_word(self.pc);
        self.pc = addr;
        11
    }

    /// JMP.
    pub fn perform_jmp(&mut self) -> (cycles: u8)
        ensures
            cycles == 10,
            final(self)@ == old(self)@.jmp(),
            final(self).bus() == old(self).bus(),
    {
        let addr = self.fetch_word();
        self.pc = addr;
        10
    }

    /// CALL.
    pub fn perform_call(&mut self) -> (cycles: u8)
        ensures
            cycles == 17,
            final(self)@ == old(self)@.call(),
            final(self).bus() == old(self).bus(),
    {
        let addr = self.fetch_word();
        self.push_word(self.pc);
        self.pc = addr;
        17
    }

    /// RET.
    pub fn perform_ret(&mut self) -> (cycles: u8)
        ensures
            cycles == 10,
            final(self)@ == old(self)@.ret(),
            final(self).bus() == old(self).bus(),
    {
        self.pc = self.read_word(self.sp);
        self.sp = self.sp.wrapping_add(2);
        10
    }

    /// STAX B.
    pub fn perform_stax_b(&mut self) -> (cycles: u8)
        ensures
            cycles == 7,
            final(self)@ == old(self)@.stax(RegisterPair::BC),
            final(self).bus() == old(self).bus(),
    {
        self.write_byte(self.get_bc(), self.a);
        7
    }

    /// STAX D.
    pub fn perform_stax_d(&mut self) -> (cycles: u8)
        ensures
            cycles == 7,
            final(self)@ == old(self)@.stax(RegisterPair::DE),
            final(self).bus() == old(self).bus(),
    {
        self.write_byte(self.get_de(), self.a);
        7
    }

    /// LDAX B.
    pub fn perform_ldax_b(&mut self) -> (cycles: u8)
        ensures
            cycles == 7,
            final(self)@ == old(self)@.ldax(RegisterPair::BC),
            final(self).bus() == old(self).bus(),
    {
        self.a = self.read_byte(self.get_bc());
        7
    }

    /// LDAX D.
    pub fn perform_ldax_d(&mut self) -> (cycles: u8)
        ensures
            cycles == 7,
            final(self)@ == old(self)@.ldax(RegisterPair::DE),
            final(self).bus() == old(self).bus(),
    {
        self.a = self.read_byte(self.get_de());
        7
    }

    /// STA.
    pub fn perform_sta(&mut self) -> (cycles: u8)
        ensures
            cycles == 13,
            final(self)@ == old(self)@.sta(),
            final(self).bus() == old(self).bus(),
    {
        let addr = self.fetch_word();
        self.write_byte(addr, self.a);
        13
    }

    /// LDA.
    pub fn perform_lda(&mut self) -> (cycles: u8)
        ensures
            cycles == 13,
            final(self)@ == old(self)@.lda(),
            final(self).bus() == old(self).bus(),
    {
        let addr = self.fetch_word();
        self.a = self.read_byte(addr);
        13
    }

    /// SHLD.
    pub fn perform_shld(&mut self) -> (cycles: u8)
        ensures
            cycles == 16,
            final(self)@ == old(self)@.shld(),
            final(self).bus() == old(self).bus(),
    {
        let addr = self.fetch_word();
        self.write_word(addr, self.get_hl());
        16
    }

    /// LHLD.
    pub fn perform_lhld(&mut self) -> (cycles: u8)
        ensures
            cycles == 16,
            final(self)@ == old(self)@.lhld(),
            final(self).bus() == old(self).bus(),
    {
        let addr = self.fetch_word();
        let value = self.read_word(addr);
        self.set_hl(value);
        16
    }

    /// An operation of the accumulator group on the byte that follows
    /// the opcode.
    fn perform_immediate(&mut self, op: AluOp) -> (cycles: u8)
        ensures
            cycles == 7,
            final(self)@ == old(self)@.alu_immediate(op),
            final(self).bus() == old(self).bus(),
            flags_valid(final(self)@.flags),
    {
        let data = self.fetch_byte();
        self.accumulate(op, data);
        7
    }

    /// ADI.
    pub fn perform_adi(&mut self) -> (cycles: u8)
        ensures
            cycles == 7,
            final(self)@ == old(self)@.alu_immediate(AluOp::Add),
            final(self).bus() == old(self).bus(),
    {
        self.perform_immediate(AluOp::Add)
    }

    /// SUI.
    pub fn perform_sui(&mut self) -> (cycles: u8)
        ensures
            cycles == 7,
            final(self)@ == old(self)@.alu_immediate(AluOp::Sub),
            final(self).bus() == old(self).bus(),
    {
        self.perform_immediate(AluOp::Sub)
    }

    /// ANI.
    pub fn perform_ani(&mut self) -> (cycles: u8)
        ensures
            cycles == 7,
            final(self)@ == old(self)@.alu_immediate(AluOp::Ana),
            final(self).bus() == old(self).bus(),
    {
        self.perform_immediate(AluOp::Ana)
    }

    /// XRI.
    pub fn perform_xri(&mut self) -> (cycles: u8)
        ensures
            cycles == 7,
            final(self)@ == old(self)@.alu_immediate(AluOp::Xra),
            final(self).bus() == old(self).bus(),
    {
        self.perform_immediate(AluOp::Xra)
    }

    /// ORI.
    pub fn perform_ori(&mut self) -> (cycles: u8)
        ensures
            cycles == 7,
            final(self)@ == old(self)@.alu_immediate(AluOp::Ora),
            final(self).bus() == old(self).bus(),
    {
        self.perform_immediate(AluOp::Ora)
    }

    /// CPI.
    pub fn perform_cpi(&mut self) -> (cycles: u8)
        ensures
            cycles == 7,
            final(self)@ == old(self)@.alu_immediate(AluOp::Compare),
            final(self).bus() == old(self).bus(),
    {
        self.perform_immediate(AluOp::Compare)
    }

    /// ACI.
    pub fn perform_aci(&mut self) -> (cycles: u8)
        ensures
            cycles == 7,
            final(self)@ == old(self)@.alu_immediate(AluOp::Adc),
            final(self).bus() == old(self).bus(),
    {
        self.perform_immediate(AluOp::Adc)
    }

    /// SBI.
    pub fn perform_sbi(&mut self) -> (cycles: u8)
        ensures
            cycles == 7,
            final(self)@ == old(self)@.alu_immediate(AluOp::Sbb),
            final(self).bus() == old(self).bus(),
    {
        self.perform_immediate(AluOp::Sbb)
    }

    /// RLC.
    pub fn perform_rlc(&mut self) -> (cycles: u8)
        ensures
            cycles == 4,
            final(self)@ == old(self)@.rlc(),
            final(self).bus() == old(self).bus(),
    {
        let rotation = rotate_left(self.a);
        self.a = rotation.value;
        self.flags = set_carry(self.flags, rotation.carry);
        4
    }

    /// RRC.
    pub fn perform_rrc(&mut self) -> (cycles: u8)
        ensures
            cycles == 4,
            final(self)@ == old(self)@.rrc(),
            final(self).bus() == old(self).bus(),
    {
        let rotation = rotate_right(self.a);
        self.a = rotation.value;
        self.flags = set_carry(self.flags, rotation.carry);
        4
    }

    /// RAL.
    pub fn perform_ral(&mut self) -> (cycles: u8)
        ensures
            cycles == 4,
            final(self)@ == old(self)@.ral(),
            final(self).bus() == old(self).bus(),
    {
        let rotation = rotate_left_through_carry(self.a, self.carry_flag());
        self.a = rotation.value;
        self.flags = set_carry(self.flags, rotation.carry);
        4
    }

    /// RAR.
    pub fn perform_rar(&mut self) -> (cycles: u8)
        ensures
            cycles == 4,
            final(self)@ == old(self)@.rar(),
            final(self).bus() == old(self).bus(),
    {
        let rotation = rotate_right_through_carry(self.a, self.carry_flag());
        self.a = rotation.value;
        self.flags = set_carry(self.flags, rotation.carry);
        4
    }

    /// DAA.
    pub fn perform_daa(&mut self) -> (cycles: u8)
        ensures
            cycles == 4,
            final(self)@ == old(self)@.daa(),
            final(self).bus() == old(self).bus(),
            flags_valid(final(self)@.flags),
    {
        let aux_carry = (self.flags & FLAG_AUX_CARRY) != 0;
        let result = decimal_adjust(self.a, self.carry_flag(), aux_carry);
        self.a = result.value;
        self.update_flags_arithmetic(result.value, result.carry, result.aux_carry);
        4
    }

    /// CMA.
    pub fn perform_cma(&mut self) -> (cycles: u8)
        ensures
            cycles == 4,
            final(self)@ == old(self)@.cma(),
            final(self).bus() == old(self).bus(),
    {
        self.a = !self.a;
        4
    }

    /// STC.
    pub fn perform_stc(&mut self) -> (cycles: u8)
        ensures
            cycles == 4,
            final(self)@ == old(self)@.stc(),
            final(self).bus() == old(self).bus(),
    {
        self.flags |= FLAG_CARRY;
        4
    }

    /// CMC.
    pub fn perform_cmc(&mut self) -> (cycles: u8)
        ensures
            cycles == 4,
            final(self)@ == old(self)@.cmc(),
            final(self).bus() == old(self).bus(),
    {
        proof {
            lemma_with_carry(self.flags, false);
        }
        self.flags ^= FLAG_CARRY;
        4
    }

    /// OUT: the accumulator goes to the timer if the port is one of the
    /// timer's three, else to the I/O bus.
    pub fn perform_out(&mut self) -> (cycles: u8)
        ensures
            cycles == 10,
            final(self)@ == old(self)@.output(),
            bus_follows(old(self)@.port_access(false), old(self).bus(), final(self)@.a, final(self).bus()),
    {
        let port = self.fetch_byte();
        if port >= 0x30 && port <= 0x32 {
            self.timer.write(port, self.a);
        } else {
            self.io_bus.write(port, self.a);
        }
        10
    }

    /// IN: the accumulator is read from the timer if the port is one of
    /// the timer's three, else from the I/O bus.
    pub fn perform_in(&mut self) -> (cycles: u8)
        ensures
            cycles == 10,
            final(self)@ == old(self)@.input(final(self)@.a),
            bus_follows(old(self)@.port_access(true), old(self).bus(), final(self)@.a, final(self).bus()),
    {
        let port = self.fetch_byte();
        if port >= 0x30 && port <= 0x32 {
            self.a = self.timer.read(port);
        } else {
            self.a = self.io_bus.read(port);
        }
        10
    }

    /// XTHL.
    pub fn perform_xthl(&mut self) -> (cycles: u8)
        ensures
            cycles == 18,
            final(self)@ == old(self)@.xthl(),
            final(self).bus() == old(self).bus(),
    {
        let temp = self.read_word(self.sp);
        self.write_word(self.sp, self.get_hl());
        self.set_hl(temp);
        18
    }

    /// PCHL.
    pub fn perform_pchl(&mut self) -> (cycles: u8)
        ensures
            cycles == 5,
            final(self)@ == old(self)@.pchl(),
            final(self).bus() == old(self).bus(),
    {
        self.pc = self.get_hl();
        5
    }

    /// XCHG.
    pub fn perform_xchg(&mut self) -> (cycles: u8)
        ensures
            cycles == 4,
            final(self)@ == old(self)@.xchg(),
            final(self).bus() == old(self).bus(),
    {
        let temp = self.get_de();
        self.set_de(self.get_hl());
        self.set_hl(temp);
        4
    }

    /// EI.
    pub fn perform_ei(&mut self) -> (cycles: u8)
        ensures
            cycles == 4,
            final(self)@ == old(self)@.ei(),
            final(self).bus() == old(self).bus(),
    {
        self.interrupts_enabled = true;
        4
    }

    /// SPHL.
    pub fn perform_sphl(&mut self) -> (cycles: u8)
        ensures
            cycles == 5,
            final(self)@ == old(self)@.sphl(),
            final(self).bus() == old(self).bus(),
    {
        self.sp = self.get_hl();
        5
    }

    /// DI.
    pub fn perform_di(&mut self) -> (cycles: u8)
        ensures
            cycles == 4,
            final(self)@ == old(self)@.di(),
            final(self).bus() == old(self).bus(),
    {
        self.interrupts_enabled = false;
        4
    }

    /// One of the seven undocumented opcodes that do nothing.
    pub fn perform_nop_undoc(&mut self) -> (cycles: u8)
        ensures
            cycles == 4,
            final(self)@ == old(self)@,
            final(self).bus() == old(self).bus(),
    {
        4
    }

    // Stepping.

    /// Delivers an interrupt: disables interrupts, pushes the program
    /// counter, transfers control to the interrupt vector and clears the
    /// timer's request.
    fn handle_interrupt(&mut self)
        ensures
            final(self)@ == old(self)@.interrupted(),
            final(self).bus() == old(self).bus(),
    {
        self.interrupts_enabled = false;
        self.push_word(self.pc);
        self.pc = INTERRUPT_VECTOR;
        self.timer.check_interrupt();
    }

    /// Executes an instruction of the first quarter of the opcode space.
    fn execute_low(&mut self, opcode: u8) -> (cycles: u8)
        requires
            opcode < 0x40,
        ensures
            old(self)@.execute_low(opcode) == Some((final(self)@, cycles)),
            final(self).bus() == old(self).bus(),
    {
        proof {
            lemma_opcode_masks(opcode);
        }
        if (opcode & 0xC7) == 0x06 {
            self.perform_mvi(opcode)
        } else if (opcode & 0xC7) == 0x04 {
            self.perform_inr(opcode)
        } else if (opcode & 0xC7) == 0x05 {
            self.perform_dcr(opcode)
        } else if (opcode & 0xCF) == 0x01 {
            self.perform_lxi(opcode)
        } else if (opcode & 0xCF) == 0x09 {
            self.perform_dad(opcode)
        } else if (opcode & 0xCF) == 0x03 {
            self.perform_inx(opcode)
        } else if (opcode & 0xCF) == 0x0B {
            self.perform_dcx(opcode)
        } else if opcode == 0x02 {
            self.perform_stax_b()
        } else if opcode == 0x12 {
            self.perform_stax_d()
        } else if opcode == 0x0A {
            self.perform_ldax_b()
        } else if opcode == 0x1A {
            self.perform_ldax_d()
        } else if opcode == 0x32 {
            self.perform_sta()
        } else if opcode == 0x3A {
            self.perform_lda()
        } else if opcode == 0x22 {
            self.perform_shld()
        } else if opcode == 0x2A {
            self.perform_lhld()
        } else if opcode == 0x07 {
            self.perform_rlc()
        } else if opcode == 0x0F {
            self.perform_rrc()
        } else if opcode == 0x17 {
            self.perform_ral()
        } else if opcode == 0x1F {
            self.perform_rar()
        } else if opcode == 0x27 {
            self.perform_daa()
        } else if opcode == 0x2F {
            self.perform_cma()
        } else if opcode == 0x37 {
            self.perform_stc()
        } else if opcode == 0x3F {
            self.perform_cmc()
        } else if opcode == 0x00 {
            self.perform_nop()
        } else {
            self.perform_nop_undoc()
        }
    }

    /// Executes an instruction of the last quarter of the opcode space.
    fn execute_high(&mut self, opcode: u8) -> (cycles: u8)
        requires
            opcode >= 0xC0,
            opcode_defined(opcode),
        ensures
            old(self)@.execute_high(opcode, final(self)@.a) == Some((final(self)@, cycles)),
            opcode != 0xD3 && opcode != 0xDB ==> final(self).bus() == old(self).bus(),
            opcode == 0xD3 ==> bus_follows(
                old(self)@.port_access(false),
                old(self).bus(),
                final(self)@.a,
                final(self).bus(),
            ),
            opcode == 0xDB ==> bus_follows(
                old(self)@.port_access(true),
                old(self).bus(),
                final(self)@.a,
                final(self).bus(),
            ),
    {
        proof {
            lemma_opcode_masks(opcode);
        }
        if (opcode & 0xCF) == 0xC5 {
            self.perform_push(opcode)
        } else if (opcode & 0xCF) == 0xC1 {
            self.perform_pop(opcode)
        } else if (opcode & 0xC7) == 0xC2 {
            self.perform_conditional_jump(opcode)
        } else if (opcode & 0xC7) == 0xC4 {
            self.perform_conditional_call(opcode)
        } else if (opcode & 0xC7) == 0xC0 {
            self.perform_conditional_return(opcode)
        } else if (opcode & 0xC7) == 0xC7 {
            self.perform_rst(opcode)
        } else if opcode == 0xC3 {
            self.perform_jmp()
        } else if opcode == 0xCD {
            self.perform_call()
        } else if opcode == 0xC9 {
            self.perform_ret()
        } else if opcode == 0xC6 {
            self.perform_adi()
        } else if opcode == 0xCE {
            self.perform_aci()
        } else if opcode == 0xD6 {
            self.perform_sui()
        } else if opcode == 0xDE {
            self.perform_sbi()
        } else if opcode == 0xE6 {
            self.perform_ani()
        } else if opcode == 0xEE {
            self.perform_xri()
        } else if opcode == 0xF6 {
            self.perform_ori()
        } else if opcode == 0xFE {
            self.perform_cpi()
        } else if opcode == 0xD3 {
            self.perform_out()
        } else if opcode == 0xDB {
            self.perform_in()
        } else if opcode == 0xE3 {
            self.perform_xthl()
        } else if opcode == 0xE9 {
            self.perform_pchl()
        } else if opcode == 0xEB {
            self.perform_xchg()
        } else if opcode == 0xF3 {
            self.perform_di()
        } else if opcode == 0xF9 {
            self.perform_sphl()
        } else if opcode == 0xFB {
            self.perform_ei()
        } else {
            unreached()
        }
    }

    /// Whether a step can be taken: an interrupt is due or the byte at
    /// the program counter encodes an instruction.
    pub fn can_step(&self) -> (steppable: bool)
        ensures
            steppable == self@.steppable(),
    {
        if self.interrupts_enabled && self.timer.interrupt_requested() {
            true
        } else {
            is_defined_opcode(self.memory.load(self.pc))
        }
    }

    /// Executes one step. If interrupts are enabled and the timer's
    /// request is pending, the step delivers the interrupt and takes no
    /// cycles. Otherwise it fetches the opcode at the program counter,
    /// executes the instruction, advances the timer by the instruction's
    /// cycles and adds them to the running total. Returns the cycles
    /// taken.
    ///
    /// The byte at the program counter must encode an instruction unless
    /// an interrupt is due; [`Intel8080::step`] checks this first.
    ///
    /// Only IN from a port of the bus depends on a device. The byte the
    /// device answered is then the accumulator after the step, so the
    /// contract hands the accumulator to the model as the answer of the
    /// bus.
    pub fn execute_one(&mut self) -> (cycles: u8)
        requires
            old(self)@.steppable(),
        ensures
            cycles == old(self)@.step_cycles(),
            final(self)@ == old(self)@.step(final(self)@.a),
            bus_follows(old(self)@.bus_access(), old(self).bus(), final(self)@.a, final(self).bus()),
            flags_valid(old(self)@.flags) ==> flags_valid(final(self)@.flags),
    {
        if self.interrupts_enabled && self.timer.interrupt_requested() {
            self.handle_interrupt();
            proof {
                if flags_valid(old(self)@.flags) {
                    lemma_step_keeps_flags_valid(old(self)@, self@.a);
                }
            }
            return 0;
        }
        let opcode = self.fetch_byte();
        let cycles = if opcode < 0x40 {
            self.execute_low(opcode)
        } else if opcode == 0x76 {
            self.perform_hlt()
        } else if opcode < 0x80 {
            self.perform_mov(opcode)
        } else if opcode < 0xC0 {
            self.perform_alu(opcode)
        } else {
            self.execute_high(opcode)
        };
        self.timer.tick(cycles as u64);
        self.cycles = self.cycles.wrapping_add(cycles as u64);
        proof {
            if flags_valid(old(self)@.flags) {
                lemma_step_keeps_flags_valid(old(self)@, self@.a);
            }
        }
        cycles
    }

    /// Executes one step if one can be taken. Where the byte at the
    /// program counter encodes no instruction and no interrupt is due,
    /// nothing changes and the error names the byte and its address.
    pub fn step(&mut self) -> (result: Result<u8, UnknownOpcode>)
        ensures
            result.is_ok() == old(self)@.steppable(),
            match result {
                Ok(cycles) => {
                    &&& cycles == old(self)@.step_cycles()
                    &&& takes_step(old(self)@, old(self).bus(), final(self)@, final(self).bus())
                },
                Err(error) => {
                    &&& !old(self)@.steppable()
                    &&& error == (UnknownOpcode { opcode: old(self)@.next_byte(), pc: old(self)@.pc })
                    &&& final(self)@ == old(self)@
                    &&& final(self).bus() == old(self).bus()
                },
            },
    {
        reveal(takes_step);
        if self.can_step() {
            Ok(self.execute_one())
        } else {
            Err(UnknownOpcode { opcode: self.memory.load(self.pc), pc: self.pc })
        }
    }

    /// Executes steps until the engine halts, meets a byte that encodes
    /// no instruction, or has taken `max_steps` steps. An engine that is
    /// halted already takes no step.
    pub fn run_for(&mut self, max_steps: u64) -> (summary: RunSummary)
        ensures
            summary.steps <= max_steps,
            runs_to(old(self)@, old(self).bus(), final(self)@, final(self).bus(), summary.steps as nat),
            summary.stop == stop_reason(final(self)@),
            summary.stop == Stop::StepLimit ==> summary.steps == max_steps,
    {
        let mut steps: u64 = 0;
        proof {
            lemma_run_starts(self@, self.bus());
        }
        while steps < max_steps && !self.halted
            invariant
                steps <= max_steps,
                runs_to(old(self)@, old(self).bus(), self@, self.bus(), steps as nat),
            decreases max_steps - steps,
        {
            let ghost before = self@;
            let ghost before_bus = self.bus();
            match self.step() {
                Ok(_) => {
                    proof {
                        lemma_run_extends(
                            old(self)@,
                            old(self).bus(),
                            before,
                            before_bus,
                            self@,
                            self.bus(),
                            steps as nat,
                        );
                    }
                    steps = steps + 1;
                },
                Err(error) => {
                    return RunSummary { stop: Stop::UnknownOpcode(error), steps };
                },
            }
        }
        if self.halted {
            RunSummary { stop: Stop::Halted, steps }
        } else if self.can_step() {
            RunSummary { stop: Stop::StepLimit, steps }
        } else {
            RunSummary {
                stop: Stop::UnknownOpcode(UnknownOpcode { opcode: self.memory.load(self.pc), pc: self.pc }),
                steps,
            }
        }
    }

    /// Executes steps until the engine halts or meets a byte that encodes
    /// no instruction. The engine imposes no limit of its own: the run
    /// gives up only after 2^64 - 1 steps.
    pub fn run(&mut self) -> (summary: RunSummary)
        ensures
            runs_to(old(self)@, old(self).bus(), final(self)@, final(self).bus(), summary.steps as nat),
            summary.stop == stop_reason(final(self)@),
            summary.stop == Stop::StepLimit ==> summary.steps == u64::MAX,
    {
        self.run_for(u64::MAX)
    }

    /// Loads a program: stores its bytes from `start_address` on and
    /// sets the program counter to `start_address`. Addresses wrap from
    /// `0xFFFF` to `0x0000`.
    pub fn load_program(&mut self, program: &[u8], start_address: u16)
        ensures
            final(self)@ == old(self)@.loaded(program@, start_address),
            final(self).bus() == old(self).bus(),
    {
        let mut index: usize = 0;
        let mut address: u16 = start_address;
        while index < program.len()
            invariant
                index <= program.len(),
                address == (start_address + index) % 0x1_0000,
                self@ == old(self)@.with_bytes(start_address, program@.subrange(0, index as int)),
                self.bus() == old(self).bus(),
            decreases program.len() - index,
        {
            proof {
                let loaded = program@.subrange(0, index as int + 1);
                assert(loaded.drop_last() =~= program@.subrange(0, index as int));
                assert(loaded.last() == program@[index as int]);
            }
            self.write_byte(address, program[index]);
            address = address.wrapping_add(1);
            index = index + 1;
        }
        assert(program@.subrange(0, index as int) =~= program@);
        self.pc = start_address;
    }

    /// Disassembles the instruction at `addr` for diagnostics: its text
    /// and its length in bytes. Opcodes the disassembler does not know
    /// are shown as data bytes.
    pub fn disassemble_at(&mut self, addr: u16) -> (listing: (String, u8))
        ensures
            listing.0@ == old(self)@.disassembly(addr).0,
            listing.1 == old(self)@.disassembly(addr).1,
            final(self)@ == old(self)@,
            final(self).bus() == old(self).bus(),
    {
        let opcode = self.read_byte(addr);
        let byte = self.read_byte(addr.wrapping_add(1));
        let word = self.read_word(addr.wrapping_add(1));
        if opcode == 0x00 {
            (String::from_str("NOP"), 1)
        } else if opcode == 0x01 {
            (word_operand("LXI B,", word), 3)
        } else if opcode == 0x06 {
            (byte_operand("MVI B,", byte), 2)
        } else if opcode == 0x21 {
            (word_operand("LXI H,", word), 3)
        } else if opcode == 0x22 {
            (word_operand("SHLD ", word), 3)
        } else if opcode == 0x2A {
            (word_operand("LHLD ", word), 3)
        } else if opcode == 0x32 {
            (word_operand("STA ", word), 3)
        } else if opcode == 0x3A {
            (word_operand("LDA ", word), 3)
        } else if opcode == 0x3E {
            (byte_operand("MVI A,", byte), 2)
        } else if opcode == 0x76 {
            (String::from_str("HLT"), 1)
        } else if opcode == 0x77 {
            (String::from_str("MOV M,A"), 1)
        } else if opcode == 0x78 {
            (String::from_str("MOV A,B"), 1)
        } else if opcode == 0x7E {
            (String::from_str("MOV A,M"), 1)
        } else if opcode == 0x80 {
            (String::from_str("ADD B"), 1)
        } else if opcode == 0xC1 {
            (String::from_str("POP B"), 1)
        } else if opcode == 0xC3 {
            (word_operand("JMP ", word), 3)
        } else if opcode == 0xC5 {
            (String::from_str("PUSH B"), 1)
        } else {
            (byte_operand("DB ", opcode), 1)
        }
    }
}

/// A byte that encodes no instruction, and the address it was fetched
/// from.
#[derive(Debug, Clone, Copy, PartialEq, Eq, Structural)]
pub struct UnknownOpcode {
    pub opcode: u8,
    pub pc: u16,
}

impl UnknownOpcode {
    /// The wording of the diagnostic.
    pub open spec fn text(self) -> Seq<char> {
        "Unknown opcode: 0x"@ + hex_byte(self.opcode) + " at PC: 0x"@ + hex_word(self.pc)
    }

    /// The diagnostic as text: the opcode and its address in
    /// hexadecimal.
    pub fn message(&self) -> (text: String)
        ensures
            text@ == self.text(),
    {
        let mut text = String::from_str("Unknown opcode: 0x");
        push_hex_byte(&mut text, self.opcode);
        text.append(" at PC: 0x");
        push_hex_word(&mut text, self.pc);
        text
    }
}

/// Why a run ended.
#[derive(Debug, Clone, Copy, PartialEq, Eq, Structural)]
pub enum Stop {
    /// The engine executed HLT.
    Halted,
    /// The byte at the program counter encodes no instruction.
    UnknownOpcode(UnknownOpcode),
    /// The run took all the steps it was allowed.
    StepLimit,
}

/// How a run ended and how many steps it took.
#[derive(Debug, Clone, Copy, PartialEq, Eq, Structural)]
pub struct RunSummary {
    pub stop: Stop,
    pub steps: u64,
}

/// Why a run that left the machine as `end` ended: the machine is
/// halted, or else it cannot take a step, or else the run was out of
/// steps.
pub open spec fn stop_reason(end: Machine) -> Stop {
    if end.halted {
        Stop::Halted
    } else if !end.steppable() {
        Stop::UnknownOpcode(UnknownOpcode { opcode: end.next_byte(), pc: end.pc })
    } else {
        Stop::StepLimit
    }
}

/// Whether one step may take the machine and its bus from `before` to
/// `after`.
#[verifier::opaque]
pub open spec fn takes_step<D: IoDevice>(
    before: Machine,
    before_bus: IoBus<D>,
    after: Machine,
    after_bus: IoBus<D>,
) -> bool {
    &&& before.steppable()
    &&& after == before.step(after.a)
    &&& bus_follows(before.bus_access(), before_bus, after.a, after_bus)
}

/// Whether step `index` of a trace is a step of the engine: the machine
/// it starts from is not halted, and one step may take it and its bus to
/// the next entry of the trace.
pub open spec fn step_in<D: IoDevice>(trace: Seq<(Machine, IoBus<D>)>, index: int) -> bool {
    &&& !trace[index].0.halted
    &&& takes_step(trace[index].0, trace[index].1, trace[index + 1].0, trace[index + 1].1)
}

/// Whether a trace records a run of `steps` steps: it holds the machine
/// and its bus before the first step and after each step.
pub open spec fn is_run<D: IoDevice>(trace: Seq<(Machine, IoBus<D>)>, steps: nat) -> bool {
    &&& trace.len() == steps + 1
    &&& forall|index: int| 0 <= index < steps ==> #[trigger] step_in(trace, index)
}

/// Whether `steps` steps, none of them taken by a halted machine, may
/// take the machine and its bus from `start` to `end`.
pub open spec fn runs_to<D: IoDevice>(
    start: Machine,
    start_bus: IoBus<D>,
    end: Machine,
    end_bus: IoBus<D>,
    steps: nat,
) -> bool {
    exists|trace: Seq<(Machine, IoBus<D>)>|
        {
            &&& #[trigger] is_run(trace, steps)
            &&& trace[0] == (start, start_bus)
            &&& trace[steps as int] == (end, end_bus)
        }
}

/// No step takes the machine and its bus to themselves.
pub proof fn lemma_run_starts<D: IoDevice>(start: Machine, start_bus: IoBus<D>)
    ensures
        runs_to(start, start_bus, start, start_bus, 0),
{
    let trace = seq![(start, start_bus)];
    assert(is_run(trace, 0));
}

/// A run of `steps` steps followed by one more step is a run of
/// `steps + 1` steps.
pub proof fn lemma_run_extends<D: IoDevice>(
    start: Machine,
    start_bus: IoBus<D>,
    middle: Machine,
    middle_bus: IoBus<D>,
    end: Machine,
    end_bus: IoBus<D>,
    steps: nat,
)
    requires
        runs_to(start, start_bus, middle, middle_bus, steps),
        !middle.halted,
        takes_step(middle, middle_bus, end, end_bus),
    ensures
        runs_to(start, start_bus, end, end_bus, steps + 1),
{
    let trace = choose|trace: Seq<(Machine, IoBus<D>)>|
        {
            &&& #[trigger] is_run(trace, steps)
            &&& trace[0] == (start, start_bus)
            &&& trace[steps as int] == (middle, middle_bus)
        };
    let longer = trace.push((end, end_bus));
    assert forall|index: int| 0 <= index < steps + 1 implies #[trigger] step_in(longer, index) by {
        if index < steps {
            assert(step_in(trace, index));
        }
    }
    assert(is_run(longer, steps + 1));
}

/// The text of an instruction with a 16-bit operand: the mnemonic, the
/// operand in hexadecimal, and the radix mark.
fn word_operand(mnemonic: &str, word: u16) -> (text: String)
    ensures
        text@ == mnemonic@ + hex_word(word) + "h"@,
{
    let mut text = String::from_str(mnemonic);
    push_hex_word(&mut text, word);
    text.append("h");
    text
}

/// The text of an instruction with an 8-bit operand: the mnemonic, the
/// operand in hexadecimal, and the radix mark.
fn byte_operand(mnemonic: &str, byte: u8) -> (text: String)
    ensures
        text@ == mnemonic@ + hex_byte(byte) + "h"@,
{
    let mut text = String::from_str(mnemonic);
    push_hex_byte(&mut text, byte);
    text.append("h");
    text
}

/// Whether the bus went from `before` to `after` as `access` asks: an
/// idle step leaves it alone, a read answers `value`, a write hands its
/// byte over.
pub open spec fn bus_follows<D: IoDevice>(
    access: BusAccess,
    before: IoBus<D>,
    value: u8,
    after: IoBus<D>,
) -> bool {
    match access {
        BusAccess::Idle => after == before,
        BusAccess::Read { port } => before.reads(port, value, &after),
        BusAccess::Write { port, value: written } => before.writes(port, written, &after),
    }
}

/// Whether a byte encodes an instruction.
pub fn is_defined_opcode(opcode: u8) -> (defined: bool)
    ensures
        defined == opcode_defined(opcode),
{
    !(opcode == 0xCB || opcode == 0xD9 || opcode == 0xDD || opcode == 0xED || opcode == 0xFD)
}

} // verus!
