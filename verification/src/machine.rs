//! The machine as a mathematical value, and what each instruction does
//! to it. The executable engine is specified against these definitions.

use vstd::prelude::*;
use crate::alu::{
    decimal_adjusted, difference, rotated_left, rotated_left_through, rotated_right,
    rotated_right_through, sum, AluOp, AluResult,
};
use crate::flags::{
    arithmetic_flags, canonical_flags, flag_set, logical_flags, step_flags, with_carry,
};
use crate::hex::{hex_byte, hex_word};
use crate::io::devices::timer::TimerState;
use crate::registers::{
    Condition, PushPopPair, Register, RegisterPair, FLAG_AUX_CARRY, FLAG_CARRY,
};

verus! {

/// Address that interrupt delivery transfers control to.
pub const INTERRUPT_VECTOR: u16 = 0x0038;

/// The 16-bit word with the given high and low bytes.
pub open spec fn word(high: u8, low: u8) -> u16 {
    (high * 256 + low) as u16
}

/// The high byte of a word.
pub open spec fn high_byte(value: u16) -> u8 {
    (value / 256) as u8
}

/// The low byte of a word.
pub open spec fn low_byte(value: u16) -> u8 {
    (value % 256) as u8
}

/// Whether `port` is hard-wired to the timer.
pub open spec fn is_timer_port(port: u8) -> bool {
    0x30 <= port <= 0x32
}

/// What a step asks of the I/O bus.
pub enum BusAccess {
    /// The step leaves the bus alone.
    Idle,
    /// The step reads `port`.
    Read { port: u8 },
    /// The step writes `value` to `port`.
    Write { port: u8, value: u8 },
}

/// The state of the machine but for the devices on the I/O bus.
pub struct Machine {
    pub a: u8,
    pub b: u8,
    pub c: u8,
    pub d: u8,
    pub e: u8,
    pub h: u8,
    pub l: u8,
    pub flags: u8,
    pub sp: u16,
    pub pc: u16,
    /// The 65536 bytes of memory, indexed by address.
    pub memory: Seq<u8>,
    pub timer: TimerState,
    pub halted: bool,
    pub interrupts_enabled: bool,
    /// Total of the cycles of all instructions executed, modulo 2^64.
    pub cycles: u64,
}

impl Machine {
    /// The memory spans the whole address space.
    pub open spec fn wf(self) -> bool {
        self.memory.len() == 0x1_0000
    }

    /// The machine at power-on: every register zero, the stack pointer
    /// and the program counter among them, only bit 1 of the flags set,
    /// memory zero, the timer idle, interrupts disabled, not halted, no
    /// cycle counted.
    pub open spec fn initial() -> Machine {
        Machine {
            a: 0,
            b: 0,
            c: 0,
            d: 0,
            e: 0,
            h: 0,
            l: 0,
            flags: 0x02,
            sp: 0,
            pc: 0,
            memory: Seq::new(0x1_0000, |i: int| 0u8),
            timer: TimerState { counter: 0, reload_value: 0, enabled: false, interrupt_pending: false },
            halted: false,
            interrupts_enabled: false,
            cycles: 0,
        }
    }

    // Register pairs.

    /// The pair B:C.
    pub open spec fn bc(self) -> u16 {
        word(self.b, self.c)
    }

    /// The pair D:E.
    pub open spec fn de(self) -> u16 {
        word(self.d, self.e)
    }

    /// The pair H:L.
    pub open spec fn hl(self) -> u16 {
        word(self.h, self.l)
    }

    /// The program status word: the accumulator above the flags byte,
    /// the flags with their fixed bits forced.
    pub open spec fn psw(self) -> u16 {
        word(self.a, canonical_flags(self.flags))
    }

    /// The machine with B:C replaced.
    pub open spec fn with_bc(self, value: u16) -> Machine {
        Machine { b: high_byte(value), c: low_byte(value), ..self }
    }

    /// The machine with D:E replaced.
    pub open spec fn with_de(self, value: u16) -> Machine {
        Machine { d: high_byte(value), e: low_byte(value), ..self }
    }

    /// The machine with H:L replaced.
    pub open spec fn with_hl(self, value: u16) -> Machine {
        Machine { h: high_byte(value), l: low_byte(value), ..self }
    }

    /// The machine with the accumulator and flags taken from a program
    /// status word, the fixed bits of the flags forced.
    pub open spec fn with_psw(self, value: u16) -> Machine {
        Machine { a: high_byte(value), flags: canonical_flags(low_byte(value)), ..self }
    }

    // Memory.

    /// The byte at `addr`.
    pub open spec fn byte_at(self, addr: u16) -> u8 {
        self.memory[addr as int]
    }

    /// The little-endian word at `addr`; the high byte of a word at
    /// `0xFFFF` is the byte at `0x0000`.
    pub open spec fn word_at(self, addr: u16) -> u16 {
        word(self.byte_at(addr.wrapping_add(1)), self.byte_at(addr))
    }

    /// The machine with the byte at `addr` replaced.
    pub open spec fn with_byte(self, addr: u16, value: u8) -> Machine {
        Machine { memory: self.memory.update(addr as int, value), ..self }
    }

    /// The machine with the little-endian word at `addr` replaced.
    pub open spec fn with_word(self, addr: u16, value: u16) -> Machine {
        self.with_byte(addr, low_byte(value)).with_byte(addr.wrapping_add(1), high_byte(value))
    }

    /// The machine with `bytes` stored one after the other from `start`
    /// on, each at the address of its predecessor plus one, modulo 2^16.
    /// Where the bytes run over their own beginning, the later byte
    /// stays.
    pub open spec fn with_bytes(self, start: u16, bytes: Seq<u8>) -> Machine
        decreases bytes.len(),
    {
        if bytes.len() == 0 {
            self
        } else {
            self.with_bytes(start, bytes.drop_last()).with_byte(
                ((start + bytes.len() - 1) % 0x1_0000) as u16,
                bytes.last(),
            )
        }
    }

    /// The machine after a program was loaded at `start`: the bytes are
    /// in memory and the program counter is at `start`.
    pub open spec fn loaded(self, program: Seq<u8>, start: u16) -> Machine {
        self.with_bytes(start, program).jump(start)
    }

    // Operands.

    /// The value of a single-register operand; `M` is the byte at H:L.
    pub open spec fn reg(self, reg: Register) -> u8 {
        match reg {
            Register::A => self.a,
            Register::B => self.b,
            Register::C => self.c,
            Register::D => self.d,
            Register::E => self.e,
            Register::H => self.h,
            Register::L => self.l,
            Register::M => self.byte_at(self.hl()),
        }
    }

    /// The machine with a single-register operand replaced; `M` is the
    /// byte at H:L.
    pub open spec fn with_reg(self, reg: Register, value: u8) -> Machine {
        match reg {
            Register::A => Machine { a: value, ..self },
            Register::B => Machine { b: value, ..self },
            Register::C => Machine { c: value, ..self },
            Register::D => Machine { d: value, ..self },
            Register::E => Machine { e: value, ..self },
            Register::H => Machine { h: value, ..self },
            Register::L => Machine { l: value, ..self },
            Register::M => self.with_byte(self.hl(), value),
        }
    }

    /// The value of a register pair.
    pub open spec fn pair(self, pair: RegisterPair) -> u16 {
        match pair {
            RegisterPair::BC => self.bc(),
            RegisterPair::DE => self.de(),
            RegisterPair::HL => self.hl(),
            RegisterPair::SP => self.sp,
        }
    }

    /// The machine with a register pair replaced.
    pub open spec fn with_pair(self, pair: RegisterPair, value: u16) -> Machine {
        match pair {
            RegisterPair::BC => self.with_bc(value),
            RegisterPair::DE => self.with_de(value),
            RegisterPair::HL => self.with_hl(value),
            RegisterPair::SP => Machine { sp: value, ..self },
        }
    }

    /// The value of a push/pop pair.
    pub open spec fn push_pop(self, pair: PushPopPair) -> u16 {
        match pair {
            PushPopPair::BC => self.bc(),
            PushPopPair::DE => self.de(),
            PushPopPair::HL => self.hl(),
            PushPopPair::PSW => self.psw(),
        }
    }

    /// The machine with a push/pop pair replaced.
    pub open spec fn with_push_pop(self, pair: PushPopPair, value: u16) -> Machine {
        match pair {
            PushPopPair::BC => self.with_bc(value),
            PushPopPair::DE => self.with_de(value),
            PushPopPair::HL => self.with_hl(value),
            PushPopPair::PSW => self.with_psw(value),
        }
    }

    /// Whether a branch condition holds of the flags.
    pub open spec fn condition(self, cond: Condition) -> bool {
        cond.holds(self.flags)
    }

    /// Whether the carry flag is set.
    pub open spec fn carry(self) -> bool {
        flag_set(self.flags, FLAG_CARRY)
    }

    /// Whether the auxiliary-carry flag is set.
    pub open spec fn aux_carry(self) -> bool {
        flag_set(self.flags, FLAG_AUX_CARRY)
    }

    // Fetching and the stack.

    /// The byte at the program counter.
    pub open spec fn next_byte(self) -> u8 {
        self.byte_at(self.pc)
    }

    /// The little-endian word at the program counter.
    pub open spec fn next_word(self) -> u16 {
        self.word_at(self.pc)
    }

    /// The machine with the program counter advanced by `count`, modulo
    /// 2^16.
    pub open spec fn skip(self, count: u16) -> Machine {
        Machine { pc: self.pc.wrapping_add(count), ..self }
    }

    /// The machine with the program counter replaced.
    pub open spec fn jump(self, target: u16) -> Machine {
        Machine { pc: target, ..self }
    }

    /// The machine after pushing a word: the stack pointer goes down by
    /// two, modulo 2^16, and the word is stored there.
    pub open spec fn pushed(self, value: u16) -> Machine {
        let sp = self.sp.wrapping_sub(2);
        Machine { sp, ..self }.with_word(sp, value)
    }

    /// The byte on top of the stack, the low byte of the top word.
    pub open spec fn top_byte(self) -> u8 {
        self.byte_at(self.sp)
    }

    /// The word on top of the stack.
    pub open spec fn top(self) -> u16 {
        self.word_at(self.sp)
    }

    /// The machine with the top word dropped from the stack: the stack
    /// pointer goes up by two, modulo 2^16.
    pub open spec fn popped(self) -> Machine {
        Machine { sp: self.sp.wrapping_add(2), ..self }
    }

    // Instructions. Each takes the machine as it stands after the opcode
    // byte was fetched, the program counter at the byte that follows.

    /// HLT: the machine halts.
    pub open spec fn hlt(self) -> Machine {
        Machine { halted: true, ..self }
    }

    /// MOV: `dest` receives the value of `src`.
    pub open spec fn mov(self, dest: Register, src: Register) -> Machine {
        self.with_reg(dest, self.reg(src))
    }

    /// The machine with the accumulator and all flags taken from an
    /// arithmetic result.
    pub open spec fn with_arithmetic(self, result: AluResult) -> Machine {
        Machine {
            a: result.value,
            flags: arithmetic_flags(result.value, result.carry, result.aux_carry),
            ..self
        }
    }

    /// The machine with the accumulator replaced by a logical result:
    /// Zero, Sign and Parity follow the result, Carry and Auxiliary Carry
    /// are cleared.
    pub open spec fn with_logical(self, value: u8) -> Machine {
        Machine { a: value, flags: logical_flags(value), ..self }
    }

    /// An operation of the accumulator group on the accumulator and
    /// `operand`. A comparison sets the flags of the subtraction and
    /// leaves the accumulator.
    pub open spec fn accumulate(self, op: AluOp, operand: u8) -> Machine {
        match op {
            AluOp::Add => self.with_arithmetic(sum(self.a, operand, false)),
            AluOp::Adc => self.with_arithmetic(sum(self.a, operand, self.carry())),
            AluOp::Sub => self.with_arithmetic(difference(self.a, operand, false)),
            AluOp::Sbb => self.with_arithmetic(difference(self.a, operand, self.carry())),
            AluOp::Ana => self.with_logical(self.a & operand),
            AluOp::Xra => self.with_logical(self.a ^ operand),
            AluOp::Ora => self.with_logical(self.a | operand),
            AluOp::Compare => Machine { a: self.a, ..self.with_arithmetic(difference(self.a, operand, false)) },
        }
    }

    /// ADD, ADC, SUB, SBB, ANA, XRA, ORA, CMP with a register operand.
    pub open spec fn alu(self, op: AluOp, src: Register) -> Machine {
        self.accumulate(op, self.reg(src))
    }

    /// ADI, ACI, SUI, SBI, ANI, XRI, ORI, CPI: the operand is the byte
    /// that follows the opcode.
    pub open spec fn alu_immediate(self, op: AluOp) -> Machine {
        self.skip(1).accumulate(op, self.next_byte())
    }

    /// MVI: `reg` receives the byte that follows the opcode.
    pub open spec fn mvi(self, reg: Register) -> Machine {
        self.skip(1).with_reg(reg, self.next_byte())
    }

    /// INR: `reg` goes up by one, modulo 256. All flags follow the result
    /// but Carry, which stays; Auxiliary Carry is set when the low nibble
    /// overflowed.
    pub open spec fn inr(self, reg: Register) -> Machine {
        let value = self.reg(reg);
        let result = value.wrapping_add(1);
        Machine { flags: step_flags(self.flags, result, value % 16 == 15), ..self.with_reg(reg, result) }
    }

    /// DCR: `reg` goes down by one, modulo 256. All flags follow the
    /// result but Carry, which stays; Auxiliary Carry is set when the low
    /// nibble borrowed.
    pub open spec fn dcr(self, reg: Register) -> Machine {
        let value = self.reg(reg);
        let result = value.wrapping_sub(1);
        Machine { flags: step_flags(self.flags, result, value % 16 == 0), ..self.with_reg(reg, result) }
    }

    /// LXI: `pair` receives the word that follows the opcode.
    pub open spec fn lxi(self, pair: RegisterPair) -> Machine {
        self.skip(2).with_pair(pair, self.next_word())
    }

    /// DAD: H:L receives H:L plus `pair`, modulo 2^16. Carry is set
    /// exactly when the sum passed `0xFFFF`; no other flag changes.
    pub open spec fn dad(self, pair: RegisterPair) -> Machine {
        let total = self.hl() + self.pair(pair);
        Machine { flags: with_carry(self.flags, total > 0xFFFF), ..self.with_hl((total % 0x1_0000) as u16) }
    }

    /// INX: `pair` goes up by one, modulo 2^16; no flag changes.
    pub open spec fn inx(self, pair: RegisterPair) -> Machine {
        self.with_pair(pair, self.pair(pair).wrapping_add(1))
    }

    /// DCX: `pair` goes down by one, modulo 2^16; no flag changes.
    pub open spec fn dcx(self, pair: RegisterPair) -> Machine {
        self.with_pair(pair, self.pair(pair).wrapping_sub(1))
    }

    /// PUSH: the pair goes onto the stack.
    pub open spec fn push(self, pair: PushPopPair) -> Machine {
        self.pushed(self.push_pop(pair))
    }

    /// POP: the pair receives the top of the stack, which is dropped.
    pub open spec fn pop(self, pair: PushPopPair) -> Machine {
        self.with_push_pop(pair, self.top()).popped()
    }

    /// JMP: control goes to the address that follows the opcode.
    pub open spec fn jmp(self) -> Machine {
        self.jump(self.next_word())
    }

    /// Conditional jump: taken if the condition holds, else execution
    /// continues behind the address.
    pub open spec fn jcc(self, cond: Condition) -> Machine {
        if self.condition(cond) {
            self.jmp()
        } else {
            self.skip(2)
        }
    }

    /// CALL: the address of the next instruction goes onto the stack and
    /// control goes to the address that follows the opcode.
    pub open spec fn call(self) -> Machine {
        self.skip(2).pushed(self.pc.wrapping_add(2)).jump(self.next_word())
    }

    /// Conditional call: performed if the condition holds, else
    /// execution continues behind the address.
    pub open spec fn ccc(self, cond: Condition) -> Machine {
        if self.condition(cond) {
            self.call()
        } else {
            self.skip(2)
        }
    }

    /// RET: control goes to the address on top of the stack, which is
    /// dropped.
    pub open spec fn ret(self) -> Machine {
        self.jump(self.top()).popped()
    }

    /// Conditional return: performed if the condition holds, else
    /// nothing happens.
    pub open spec fn rcc(self, cond: Condition) -> Machine {
        if self.condition(cond) {
            self.ret()
        } else {
            self
        }
    }

    /// RST: the address of the next instruction goes onto the stack and
    /// control goes to address `8 * vector`.
    pub open spec fn rst(self, vector: u8) -> Machine {
        self.pushed(self.pc).jump((vector * 8) as u16)
    }

    /// STAX: the accumulator is stored at the address in `pair`.
    pub open spec fn stax(self, pair: RegisterPair) -> Machine {
        self.with_byte(self.pair(pair), self.a)
    }

    /// LDAX: the accumulator is loaded from the address in `pair`.
    pub open spec fn ldax(self, pair: RegisterPair) -> Machine {
        Machine { a: self.byte_at(self.pair(pair)), ..self }
    }

    /// STA: the accumulator is stored at the address that follows the
    /// opcode.
    pub open spec fn sta(self) -> Machine {
        self.skip(2).with_byte(self.next_word(), self.a)
    }

    /// LDA: the accumulator is loaded from the address that follows the
    /// opcode.
    pub open spec fn lda(self) -> Machine {
        Machine { a: self.byte_at(self.next_word()), ..self.skip(2) }
    }

    /// SHLD: H:L is stored at the address that follows the opcode.
    pub open spec fn shld(self) -> Machine {
        self.skip(2).with_word(self.next_word(), self.hl())
    }

    /// LHLD: H:L is loaded from the address that follows the opcode.
    pub open spec fn lhld(self) -> Machine {
        self.skip(2).with_hl(self.word_at(self.next_word()))
    }

    /// RLC: the accumulator rotates left; Carry receives bit 7.
    pub open spec fn rlc(self) -> Machine {
        let r = rotated_left(self.a);
        Machine { a: r.value, flags: with_carry(self.flags, r.carry), ..self }
    }

    /// RRC: the accumulator rotates right; Carry receives bit 0.
    pub open spec fn rrc(self) -> Machine {
        let r = rotated_right(self.a);
        Machine { a: r.value, flags: with_carry(self.flags, r.carry), ..self }
    }

    /// RAL: the accumulator rotates left through Carry.
    pub open spec fn ral(self) -> Machine {
        let r = rotated_left_through(self.a, self.carry());
        Machine { a: r.value, flags: with_carry(self.flags, r.carry), ..self }
    }

    /// RAR: the accumulator rotates right through Carry.
    pub open spec fn rar(self) -> Machine {
        let r = rotated_right_through(self.a, self.carry());
        Machine { a: r.value, flags: with_carry(self.flags, r.carry), ..self }
    }

    /// DAA: the accumulator is adjusted to two decimal digits; the flags
    /// follow the adjusted value and the carry of the adjustment.
    pub open spec fn daa(self) -> Machine {
        self.with_arithmetic(decimal_adjusted(self.a, self.carry(), self.aux_carry()))
    }

    /// CMA: every bit of the accumulator is inverted; no flag changes.
    pub open spec fn cma(self) -> Machine {
        Machine { a: !self.a, ..self }
    }

    /// STC: Carry is set.
    pub open spec fn stc(self) -> Machine {
        Machine { flags: with_carry(self.flags, true), ..self }
    }

    /// CMC: Carry is inverted.
    pub open spec fn cmc(self) -> Machine {
        Machine { flags: with_carry(self.flags, !self.carry()), ..self }
    }

    /// XTHL: H:L and the word on top of the stack change places.
    pub open spec fn xthl(self) -> Machine {
        self.with_word(self.sp, self.hl()).with_hl(self.top())
    }

    /// PCHL: control goes to the address in H:L.
    pub open spec fn pchl(self) -> Machine {
        self.jump(self.hl())
    }

    /// XCHG: D:E and H:L change places.
    pub open spec fn xchg(self) -> Machine {
        self.with_de(self.hl()).with_hl(self.de())
    }

    /// SPHL: the stack pointer receives H:L.
    pub open spec fn sphl(self) -> Machine {
        Machine { sp: self.hl(), ..self }
    }

    /// EI: interrupts are enabled.
    pub open spec fn ei(self) -> Machine {
        Machine { interrupts_enabled: true, ..self }
    }

    /// DI: interrupts are disabled.
    pub open spec fn di(self) -> Machine {
        Machine { interrupts_enabled: false, ..self }
    }

    /// OUT: the accumulator goes to the port named by the byte that
    /// follows the opcode. A timer port takes the write into the timer;
    /// any other port belongs to the bus, and the machine only moves on.
    pub open spec fn output(self) -> Machine {
        let port = self.next_byte();
        if is_timer_port(port) {
            Machine { timer: self.timer.port_write(port, self.a), ..self.skip(1) }
        } else {
            self.skip(1)
        }
    }

    /// IN: the accumulator receives a byte from the port named by the
    /// byte that follows the opcode. A timer port reads the timer; any
    /// other port belongs to the bus, which answered `from_bus`.
    pub open spec fn input(self, from_bus: u8) -> Machine {
        let port = self.next_byte();
        if is_timer_port(port) {
            Machine { a: self.timer.port_value(port), ..self.skip(1) }
        } else {
            Machine { a: from_bus, ..self.skip(1) }
        }
    }

    // Disassembly.

    /// The text and the length in bytes of the instruction at `addr`, as
    /// the diagnostic disassembler shows it. The disassembler knows a
    /// handful of opcodes and shows every other byte as data.
    pub open spec fn disassembly(self, addr: u16) -> (Seq<char>, u8) {
        let opcode = self.byte_at(addr);
        let byte = self.byte_at(addr.wrapping_add(1));
        let word = self.word_at(addr.wrapping_add(1));
        if opcode == 0x00 {
            ("NOP"@, 1)
        } else if opcode == 0x01 {
            ("LXI B,"@ + hex_word(word) + "h"@, 3)
        } else if opcode == 0x06 {
            ("MVI B,"@ + hex_byte(byte) + "h"@, 2)
        } else if opcode == 0x21 {
            ("LXI H,"@ + hex_word(word) + "h"@, 3)
        } else if opcode == 0x22 {
            ("SHLD "@ + hex_word(word) + "h"@, 3)
        } else if opcode == 0x2A {
            ("LHLD "@ + hex_word(word) + "h"@, 3)
        } else if opcode == 0x32 {
            ("STA "@ + hex_word(word) + "h"@, 3)
        } else if opcode == 0x3A {
            ("LDA "@ + hex_word(word) + "h"@, 3)
        } else if opcode == 0x3E {
            ("MVI A,"@ + hex_byte(byte) + "h"@, 2)
        } else if opcode == 0x76 {
            ("HLT"@, 1)
        } else if opcode == 0x77 {
            ("MOV M,A"@, 1)
        } else if opcode == 0x78 {
            ("MOV A,B"@, 1)
        } else if opcode == 0x7E {
            ("MOV A,M"@, 1)
        } else if opcode == 0x80 {
            ("ADD B"@, 1)
        } else if opcode == 0xC1 {
            ("POP B"@, 1)
        } else if opcode == 0xC3 {
            ("JMP "@ + hex_word(word) + "h"@, 3)
        } else if opcode == 0xC5 {
            ("PUSH B"@, 1)
        } else {
            ("DB "@ + hex_byte(opcode) + "h"@, 1)
        }
    }

    // Dispatch.

    /// The effect of the instruction with the given opcode and the cycles
    /// it takes, or `None` for a byte that encodes no instruction. The
    /// machine is taken as it stands after the opcode was fetched;
    /// `from_bus` is the byte that the I/O bus answers should the
    /// instruction read a bus port.
    pub open spec fn execute(self, opcode: u8, from_bus: u8) -> Option<(Machine, u8)> {
        let dest = dest_of(opcode);
        let src = src_of(opcode);
        if opcode < 0x40 {
            self.execute_low(opcode)
        } else if opcode == 0x76 {
            Some((self.hlt(), 7))
        } else if opcode < 0x80 {
            Some((self.mov(dest, src), operand_cycles(dest == Register::M || src == Register::M, 5, 7)))
        } else if opcode < 0xC0 {
            Some((self.alu(alu_op_of(opcode), src), operand_cycles(src == Register::M, 4, 7)))
        } else {
            self.execute_high(opcode, from_bus)
        }
    }

    /// The instructions of the first quarter of the opcode space, `0x00`
    /// to `0x3F`: the families that hold a register in bits 5 to 3 or a
    /// register pair in bits 5 and 4, the loads and stores, the rotations
    /// and the operations on accumulator and carry, and NOP with its seven
    /// undocumented duplicates.
    pub open spec fn execute_low(self, opcode: u8) -> Option<(Machine, u8)> {
        let dest = dest_of(opcode);
        let pair = pair_of(opcode);
        if opcode % 8 == 6 {
            Some((self.mvi(dest), operand_cycles(dest == Register::M, 7, 10)))
        } else if opcode % 8 == 4 {
            Some((self.inr(dest), operand_cycles(dest == Register::M, 5, 10)))
        } else if opcode % 8 == 5 {
            Some((self.dcr(dest), operand_cycles(dest == Register::M, 5, 10)))
        } else if opcode % 16 == 1 {
            Some((self.lxi(pair), 10))
        } else if opcode % 16 == 9 {
            Some((self.dad(pair), 10))
        } else if opcode % 16 == 3 {
            Some((self.inx(pair), 5))
        } else if opcode % 16 == 11 {
            Some((self.dcx(pair), 5))
        } else if opcode == 0x02 {
            Some((self.stax(RegisterPair::BC), 7))
        } else if opcode == 0x12 {
            Some((self.stax(RegisterPair::DE), 7))
        } else if opcode == 0x0A {
            Some((self.ldax(RegisterPair::BC), 7))
        } else if opcode == 0x1A {
            Some((self.ldax(RegisterPair::DE), 7))
        } else if opcode == 0x32 {
            Some((self.sta(), 13))
        } else if opcode == 0x3A {
            Some((self.lda(), 13))
        } else if opcode == 0x22 {
            Some((self.shld(), 16))
        } else if opcode == 0x2A {
            Some((self.lhld(), 16))
        } else if opcode == 0x07 {
            Some((self.rlc(), 4))
        } else if opcode == 0x0F {
            Some((self.rrc(), 4))
        } else if opcode == 0x17 {
            Some((self.ral(), 4))
        } else if opcode == 0x1F {
            Some((self.rar(), 4))
        } else if opcode == 0x27 {
            Some((self.daa(), 4))
        } else if opcode == 0x2F {
            Some((self.cma(), 4))
        } else if opcode == 0x37 {
            Some((self.stc(), 4))
        } else if opcode == 0x3F {
            Some((self.cmc(), 4))
        } else if opcode == 0x00 || is_undocumented_nop(opcode) {
            Some((self, 4))
        } else {
            None
        }
    }

    /// The instructions of the last quarter of the opcode space, `0xC0`
    /// to `0xFF`: the stack and branch families, the immediate forms of
    /// the accumulator group, I/O, the exchanges and the interrupt
    /// switches.
    pub open spec fn execute_high(self, opcode: u8, from_bus: u8) -> Option<(Machine, u8)> {
        let cond = condition_of(opcode);
        if opcode % 16 == 5 {
            Some((self.push(push_pop_of(opcode)), 11))
        } else if opcode % 16 == 1 {
            Some((self.pop(push_pop_of(opcode)), 10))
        } else if opcode % 8 == 2 {
            Some((self.jcc(cond), 10))
        } else if opcode % 8 == 4 {
            Some((self.ccc(cond), operand_cycles(self.condition(cond), 11, 17)))
        } else if opcode % 8 == 0 {
            Some((self.rcc(cond), operand_cycles(self.condition(cond), 5, 11)))
        } else if opcode % 8 == 7 {
            Some((self.rst(vector_of(opcode)), 11))
        } else if opcode == 0xC3 {
            Some((self.jmp(), 10))
        } else if opcode == 0xCD {
            Some((self.call(), 17))
        } else if opcode == 0xC9 {
            Some((self.ret(), 10))
        } else if opcode == 0xC6 {
            Some((self.alu_immediate(AluOp::Add), 7))
        } else if opcode == 0xCE {
            Some((self.alu_immediate(AluOp::Adc), 7))
        } else if opcode == 0xD6 {
            Some((self.alu_immediate(AluOp::Sub), 7))
        } else if opcode == 0xDE {
            Some((self.alu_immediate(AluOp::Sbb), 7))
        } else if opcode == 0xE6 {
            Some((self.alu_immediate(AluOp::Ana), 7))
        } else if opcode == 0xEE {
            Some((self.alu_immediate(AluOp::Xra), 7))
        } else if opcode == 0xF6 {
            Some((self.alu_immediate(AluOp::Ora), 7))
        } else if opcode == 0xFE {
            Some((self.alu_immediate(AluOp::Compare), 7))
        } else if opcode == 0xD3 {
            Some((self.output(), 10))
        } else if opcode == 0xDB {
            Some((self.input(from_bus), 10))
        } else if opcode == 0xE3 {
            Some((self.xthl(), 18))
        } else if opcode == 0xE9 {
            Some((self.pchl(), 5))
        } else if opcode == 0xEB {
            Some((self.xchg(), 4))
        } else if opcode == 0xF3 {
            Some((self.di(), 4))
        } else if opcode == 0xF9 {
            Some((self.sphl(), 5))
        } else if opcode == 0xFB {
            Some((self.ei(), 4))
        } else {
            None
        }
    }

    // Stepping.

    /// Whether the next step delivers an interrupt: interrupts are
    /// enabled and the timer's request is pending.
    pub open spec fn interrupt_due(self) -> bool {
        self.interrupts_enabled && self.timer.interrupt_pending
    }

    /// The machine after interrupt delivery: interrupts are disabled, the
    /// program counter goes onto the stack, control goes to the interrupt
    /// vector, and the timer's request is cleared.
    pub open spec fn interrupted(self) -> Machine {
        Machine { interrupts_enabled: false, timer: self.timer.acknowledged(), ..self }.pushed(self.pc).jump(
            INTERRUPT_VECTOR,
        )
    }

    /// The machine after an instruction of `cycles` cycles was accounted
    /// for: the timer has advanced by them and the running total has
    /// grown by them, modulo 2^64.
    pub open spec fn settled(self, cycles: u8) -> Machine {
        Machine {
            timer: self.timer.tick(cycles as u64),
            cycles: self.cycles.wrapping_add(cycles as u64),
            ..self
        }
    }

    /// Whether a step can be taken: an interrupt is due, or the byte at
    /// the program counter encodes an instruction.
    pub open spec fn steppable(self) -> bool {
        self.interrupt_due() || opcode_defined(self.next_byte())
    }

    /// The effect of the instruction at the program counter and its
    /// cycles, before the cycles are accounted for.
    pub open spec fn fetched(self, from_bus: u8) -> Option<(Machine, u8)> {
        self.skip(1).execute(self.next_byte(), from_bus)
    }

    /// The machine after one step. A due interrupt is delivered in place
    /// of an instruction and costs no cycles. Otherwise the instruction
    /// at the program counter is executed and its cycles accounted for;
    /// `from_bus` is the byte that the I/O bus answers should the
    /// instruction read a bus port. Where no step can be taken the
    /// machine stays as it is.
    pub open spec fn step(self, from_bus: u8) -> Machine {
        if self.interrupt_due() {
            self.interrupted()
        } else {
            match self.fetched(from_bus) {
                Some((next, cycles)) => next.settled(cycles),
                None => self,
            }
        }
    }

    /// The cycles that one step takes: none for interrupt delivery, else
    /// those of the instruction at the program counter.
    pub open spec fn step_cycles(self) -> u8 {
        if self.interrupt_due() {
            0
        } else {
            match self.fetched(0) {
                Some((next, cycles)) => cycles,
                None => 0,
            }
        }
    }

    /// What IN (`reading`) or OUT asks of the I/O bus, the machine taken
    /// as it stands after the opcode was fetched: an access to the port
    /// named by the next byte, unless that port belongs to the timer.
    pub open spec fn port_access(self, reading: bool) -> BusAccess {
        let port = self.next_byte();
        if is_timer_port(port) {
            BusAccess::Idle
        } else if reading {
            BusAccess::Read { port }
        } else {
            BusAccess::Write { port, value: self.a }
        }
    }

    /// What one step asks of the I/O bus: IN reads and OUT writes the
    /// port named by their second byte, unless that port belongs to the
    /// timer; nothing else touches the bus.
    pub open spec fn bus_access(self) -> BusAccess {
        if self.interrupt_due() {
            BusAccess::Idle
        } else if self.next_byte() == 0xDB {
            self.skip(1).port_access(true)
        } else if self.next_byte() == 0xD3 {
            self.skip(1).port_access(false)
        } else {
            BusAccess::Idle
        }
    }
}

/// The register in bits 5 to 3 of an opcode.
pub open spec fn dest_of(opcode: u8) -> Register {
    Register::decode(opcode / 8)
}

/// The register in bits 2 to 0 of an opcode.
pub open spec fn src_of(opcode: u8) -> Register {
    Register::decode(opcode)
}

/// The register pair in bits 5 and 4 of an opcode.
pub open spec fn pair_of(opcode: u8) -> RegisterPair {
    RegisterPair::decode(opcode / 16)
}

/// The push/pop pair in bits 5 and 4 of an opcode.
pub open spec fn push_pop_of(opcode: u8) -> PushPopPair {
    PushPopPair::decode(opcode / 16)
}

/// The branch condition in bits 5 to 3 of an opcode.
pub open spec fn condition_of(opcode: u8) -> Condition {
    Condition::decode(opcode / 8)
}

/// The accumulator operation in bits 5 to 3 of an opcode.
pub open spec fn alu_op_of(opcode: u8) -> AluOp {
    AluOp::decode(opcode / 8)
}

/// The restart vector number in bits 5 to 3 of an opcode.
pub open spec fn vector_of(opcode: u8) -> u8 {
    (opcode / 8) % 8
}

/// The cycles of an instruction that takes `slow` cycles when `slower`
/// holds and `fast` cycles when it does not.
pub open spec fn operand_cycles(slower: bool, fast: u8, slow: u8) -> u8 {
    if slower {
        slow
    } else {
        fast
    }
}

/// The seven undocumented opcodes that behave as NOP.
pub open spec fn is_undocumented_nop(opcode: u8) -> bool {
    opcode == 0x08 || opcode == 0x10 || opcode == 0x18 || opcode == 0x20 || opcode == 0x28 || opcode
        == 0x30 || opcode == 0x38
}

/// Whether a byte encodes an instruction. Every byte does but five:
/// `0xCB`, `0xD9`, `0xDD`, `0xED` and `0xFD`.
pub open spec fn opcode_defined(opcode: u8) -> bool {
    !(opcode == 0xCB || opcode == 0xD9 || opcode == 0xDD || opcode == 0xED || opcode == 0xFD)
}

} // verus!
