//! Laws of the instruction set, proved of the machine model that the
//! engine's contracts are stated over.

use vstd::prelude::*;
use crate::alu::AluOp;
use crate::bits::lemma_opcode_cover;
use crate::flags::{
    arithmetic_flags, canonical_flags, flag_set, flags_valid, lemma_arithmetic_flags,
    lemma_canonical_flags, lemma_step_flags, lemma_with_carry, step_flags, with_carry,
};
use crate::machine::{condition_of, opcode_defined, word, Machine};
use crate::registers::{
    Condition, PushPopPair, Register, RegisterPair, FLAG_AUX_CARRY, FLAG_CARRY, FLAG_PARITY,
    FLAG_SIGN, FLAG_ZERO,
};

verus! {

/// Every flag update of the instruction set yields a flags byte with its
/// fixed bits right, given such a byte where it keeps part of the old
/// one.
proof fn lemma_flag_updates()
    ensures
        forall|result: u8, carry: bool, aux_carry: bool|
            flags_valid(#[trigger] arithmetic_flags(result, carry, aux_carry)),
        forall|flags: u8, result: u8, aux_carry: bool|
            flags_valid(#[trigger] step_flags(flags, result, aux_carry)),
        forall|flags: u8, carry: bool|
            flags_valid(flags) ==> flags_valid(#[trigger] with_carry(flags, carry)),
        forall|flags: u8| flags_valid(#[trigger] canonical_flags(flags)),
{
    assert forall|result: u8, carry: bool, aux_carry: bool|
        flags_valid(#[trigger] arithmetic_flags(result, carry, aux_carry)) by {
        lemma_arithmetic_flags(result, carry, aux_carry);
    }
    assert forall|flags: u8, result: u8, aux_carry: bool|
        flags_valid(#[trigger] step_flags(flags, result, aux_carry)) by {
        lemma_step_flags(flags, result, aux_carry);
    }
    assert forall|flags: u8, carry: bool| flags_valid(flags) implies flags_valid(
        #[trigger] with_carry(flags, carry),
    ) by {
        lemma_with_carry(flags, carry);
    }
    assert forall|flags: u8| flags_valid(#[trigger] canonical_flags(flags)) by {
        lemma_canonical_flags(flags);
    }
}

/// A byte encodes an instruction exactly when it is none of `0xCB`,
/// `0xD9`, `0xDD`, `0xED` and `0xFD`.
pub proof fn lemma_defined_opcodes(s: Machine, opcode: u8, from_bus: u8)
    ensures
        s.execute(opcode, from_bus).is_some() == opcode_defined(opcode),
{
    lemma_opcode_cover(opcode);
}

/// The fixed bits of the flags are an invariant of the machine: if bit 1
/// is set and bits 3 and 5 are clear before a step, they are so after
/// it, whatever instruction the step executes.
pub proof fn lemma_step_keeps_flags_valid(s: Machine, from_bus: u8)
    requires
        flags_valid(s.flags),
    ensures
        flags_valid(s.step(from_bus).flags),
{
    lemma_flag_updates();
    if !s.interrupt_due() {
        let opcode = s.next_byte();
        let t = s.skip(1);
        if opcode < 0x40 {
            assert(t.execute_low(opcode) matches Some((next, cycles)) ==> flags_valid(next.flags));
        } else if opcode >= 0xC0 {
            assert(t.execute_high(opcode, from_bus) matches Some((next, cycles)) ==> flags_valid(
                next.flags,
            ));
        }
    }
}

/// An instruction that computes the flags from a result leaves the
/// fixed bits right whatever the flags held before: the accumulator
/// group, INR, DCR and DAA, and POP PSW, which forces them.
pub proof fn lemma_flag_producing_instructions(s: Machine, op: AluOp, operand: u8, reg: Register)
    ensures
        flags_valid(s.accumulate(op, operand).flags),
        flags_valid(s.inr(reg).flags),
        flags_valid(s.dcr(reg).flags),
        flags_valid(s.daa().flags),
        flags_valid(s.pop(PushPopPair::PSW).flags),
{
    lemma_flag_updates();
}

/// PUSH PSW followed by POP PSW brings back the accumulator, the stack
/// pointer and the five flags, and brings back the flags byte itself
/// where its fixed bits were right. The flags byte that lies in memory
/// between the two has bit 1 set and bits 3 and 5 clear, whatever the
/// flags register held before the push.
pub proof fn lemma_push_pop_psw(s: Machine)
    requires
        s.wf(),
    ensures
        flags_valid(s.push(PushPopPair::PSW).top_byte()),
        s.push(PushPopPair::PSW).top_byte() == canonical_flags(s.flags),
        s.push(PushPopPair::PSW).pop(PushPopPair::PSW).flags == canonical_flags(s.flags),
        flags_valid(s.flags) ==> s.push(PushPopPair::PSW).pop(PushPopPair::PSW).flags == s.flags,
        s.push(PushPopPair::PSW).pop(PushPopPair::PSW).a == s.a,
        s.push(PushPopPair::PSW).pop(PushPopPair::PSW).sp == s.sp,
{
    lemma_canonical_flags(s.flags);
    lemma_canonical_flags(canonical_flags(s.flags));
    lemma_stack_round_trip(s, s.psw());
}

/// A word pushed is the word on top of the stack, low byte first, and
/// dropping it brings the stack pointer back.
pub proof fn lemma_stack_round_trip(s: Machine, value: u16)
    requires
        s.wf(),
    ensures
        s.pushed(value).top() == value,
        s.pushed(value).top_byte() == value % 256,
        s.pushed(value).popped().sp == s.sp,
{
}

/// DAD changes no flag but Carry: Zero, Sign, Parity and Auxiliary Carry
/// stay as they were.
pub proof fn lemma_dad_keeps_flags(s: Machine, pair: RegisterPair)
    ensures
        flag_set(s.dad(pair).flags, FLAG_ZERO) == flag_set(s.flags, FLAG_ZERO),
        flag_set(s.dad(pair).flags, FLAG_SIGN) == flag_set(s.flags, FLAG_SIGN),
        flag_set(s.dad(pair).flags, FLAG_PARITY) == flag_set(s.flags, FLAG_PARITY),
        flag_set(s.dad(pair).flags, FLAG_AUX_CARRY) == flag_set(s.flags, FLAG_AUX_CARRY),
        s.dad(pair).flags & !FLAG_CARRY == s.flags & !FLAG_CARRY,
{
    let carry = s.hl() + s.pair(pair) > 0xFFFF;
    lemma_carry_only(s.flags, carry);
}

/// INR and DCR never change Carry.
pub proof fn lemma_inr_dcr_keep_carry(s: Machine, reg: Register)
    ensures
        flag_set(s.inr(reg).flags, FLAG_CARRY) == flag_set(s.flags, FLAG_CARRY),
        flag_set(s.dcr(reg).flags, FLAG_CARRY) == flag_set(s.flags, FLAG_CARRY),
{
    let value = s.reg(reg);
    lemma_step_flags(s.flags, value.wrapping_add(1), value % 16 == 15);
    lemma_step_flags(s.flags, value.wrapping_sub(1), value % 16 == 0);
}

/// Replacing Carry keeps each of the other four flags.
proof fn lemma_carry_only(flags: u8, carry: bool)
    by (bit_vector)
    ensures
        ({
            let updated = if carry { flags | 0x01u8 } else { flags & !0x01u8 };
            &&& (updated & 0x40 != 0) == (flags & 0x40 != 0)
            &&& (updated & 0x80 != 0) == (flags & 0x80 != 0)
            &&& (updated & 0x04 != 0) == (flags & 0x04 != 0)
            &&& (updated & 0x10 != 0) == (flags & 0x10 != 0)
            &&& updated & !0x01u8 == flags & !0x01u8
        }),
{
}

/// CALL followed by RET at the target brings control to the instruction
/// behind the CALL and the stack pointer to its value before the CALL.
/// The machine is taken as it stands after the opcode of the CALL was
/// fetched.
pub proof fn lemma_call_returns(s: Machine)
    requires
        s.wf(),
    ensures
        s.call().pc == s.next_word(),
        s.call().ret().pc == s.pc.wrapping_add(2),
        s.call().ret().sp == s.sp,
{
    lemma_stack_round_trip(s.skip(2), s.pc.wrapping_add(2));
}

/// Fetching wraps at the end of the address space: the operand of a
/// three-byte instruction lies at the two addresses that follow the
/// opcode's, modulo 2^16, and execution continues at the third. An
/// instruction at `0xFFFF` has its operand at `0x0000` and `0x0001`.
pub proof fn lemma_fetch_wraps(s: Machine)
    ensures
        s.skip(1).next_word() == word(
            s.byte_at(((s.pc + 2) % 0x1_0000) as u16),
            s.byte_at(((s.pc + 1) % 0x1_0000) as u16),
        ),
        s.skip(1).skip(2).pc == (s.pc + 3) % 0x1_0000,
        s.pc == 0xFFFF ==> s.skip(1).next_word() == word(s.byte_at(0x0001), s.byte_at(0x0000)),
        s.pc == 0xFFFF ==> s.skip(1).skip(2).pc == 0x0002,
{
}

/// The opcode of the conditional jump on `cond`.
pub open spec fn jump_opcode(cond: Condition) -> u8 {
    (0xC2 + 8 * cond.code()) as u8
}

/// The opcode of the conditional call on `cond`.
pub open spec fn call_opcode(cond: Condition) -> u8 {
    (0xC4 + 8 * cond.code()) as u8
}

/// The opcode of the conditional return on `cond`.
pub open spec fn return_opcode(cond: Condition) -> u8 {
    (0xC0 + 8 * cond.code()) as u8
}

/// Each condition tests one flag bit for one polarity: NZ and Z test
/// Zero, NC and C test Carry, PO and PE test Parity, P and M test Sign,
/// the second of each pair for the bit set.
pub proof fn lemma_condition_polarity(s: Machine, cond: Condition)
    ensures
        s.condition(cond) == (flag_set(s.flags, cond.mask()) == cond.polarity()),
        s.condition(Condition::Z) == flag_set(s.flags, FLAG_ZERO),
        s.condition(Condition::NZ) == !flag_set(s.flags, FLAG_ZERO),
        s.condition(Condition::C) == flag_set(s.flags, FLAG_CARRY),
        s.condition(Condition::NC) == !flag_set(s.flags, FLAG_CARRY),
        s.condition(Condition::PE) == flag_set(s.flags, FLAG_PARITY),
        s.condition(Condition::PO) == !flag_set(s.flags, FLAG_PARITY),
        s.condition(Condition::M) == flag_set(s.flags, FLAG_SIGN),
        s.condition(Condition::P) == !flag_set(s.flags, FLAG_SIGN),
{
}

/// The opcodes of the conditional branches lie in the last quarter of
/// the opcode space, in the families of their kind, and hold their
/// condition in bits 5 to 3.
proof fn lemma_branch_opcodes(cond: Condition)
    ensures
        jump_opcode(cond) >= 0xC0 && jump_opcode(cond) % 8 == 2 && jump_opcode(cond) % 16 != 5
            && jump_opcode(cond) % 16 != 1,
        call_opcode(cond) >= 0xC0 && call_opcode(cond) % 8 == 4 && call_opcode(cond) % 16 != 5
            && call_opcode(cond) % 16 != 1,
        return_opcode(cond) >= 0xC0 && return_opcode(cond) % 8 == 0 && return_opcode(cond) % 16 != 5
            && return_opcode(cond) % 16 != 1,
        condition_of(jump_opcode(cond)) == cond,
        condition_of(call_opcode(cond)) == cond,
        condition_of(return_opcode(cond)) == cond,
{
    match cond {
        Condition::NZ => {},
        Condition::Z => {},
        Condition::NC => {},
        Condition::C => {},
        Condition::PO => {},
        Condition::PE => {},
        Condition::P => {},
        Condition::M => {},
    }
}

/// For every condition, the conditional jump, call and return on it are
/// taken exactly when the condition holds. A jump takes 10 cycles either
/// way, a call 17 if taken and 11 if not, a return 11 if taken and 5 if
/// not. The machine is taken as it stands after the opcode was fetched.
pub proof fn lemma_conditional_branches(s: Machine, cond: Condition, from_bus: u8)
    ensures
        s.execute(jump_opcode(cond), from_bus) == Some(
            (if s.condition(cond) { s.jmp() } else { s.skip(2) }, 10u8),
        ),
        s.execute(call_opcode(cond), from_bus) == Some(
            if s.condition(cond) { (s.call(), 17u8) } else { (s.skip(2), 11u8) },
        ),
        s.execute(return_opcode(cond), from_bus) == Some(
            if s.condition(cond) { (s.ret(), 11u8) } else { (s, 5u8) },
        ),
{
    lemma_branch_opcodes(cond);
    assert(s.execute(jump_opcode(cond), from_bus) == s.execute_high(jump_opcode(cond), from_bus));
    assert(s.execute(call_opcode(cond), from_bus) == s.execute_high(call_opcode(cond), from_bus));
    assert(s.execute(return_opcode(cond), from_bus) == s.execute_high(return_opcode(cond), from_bus));
}

/// Storing bytes changes nothing but memory, and keeps memory as large
/// as it was.
pub proof fn lemma_with_bytes_frame(s: Machine, start: u16, bytes: Seq<u8>)
    requires
        s.wf(),
    ensures
        s.with_bytes(start, bytes).wf(),
        s.with_bytes(start, bytes) == (Machine { memory: s.with_bytes(start, bytes).memory, ..s }),
    decreases bytes.len(),
{
    if bytes.len() > 0 {
        lemma_with_bytes_frame(s, start, bytes.drop_last());
    }
}

/// A program that fits between its start address and the end of memory
/// lies in memory byte for byte once it is loaded, and every address
/// outside it holds what it held before.
pub proof fn lemma_loaded_program(s: Machine, program: Seq<u8>, start: u16, addr: u16)
    requires
        s.wf(),
        start + program.len() <= 0x1_0000,
    ensures
        s.loaded(program, start).pc == start,
        start <= addr < start + program.len() ==> s.loaded(program, start).byte_at(addr) == program[addr
            - start],
        !(start <= addr < start + program.len()) ==> s.loaded(program, start).byte_at(addr) == s.byte_at(
            addr,
        ),
    decreases program.len(),
{
    if program.len() > 0 {
        let shorter = program.drop_last();
        lemma_loaded_program(s, shorter, start, addr);
        lemma_with_bytes_frame(s, start, shorter);
    }
}

} // verus!
