use intel8080_emu::cpu::{Intel8080, RunSummary, Stop, UnknownOpcode};
use intel8080_emu::io::device::IoDevice;
use intel8080_emu::registers::{
    Condition, PushPopPair, Register, RegisterPair, FLAG_AUX_CARRY, FLAG_BIT_1, FLAG_CARRY,
    FLAG_PARITY, FLAG_SIGN, FLAG_ZERO,
};

fn engine_with(program: &[u8]) -> Intel8080 {
    let mut cpu = Intel8080::new();
    cpu.load_program(program, 0);
    cpu
}

fn run_to_halt(cpu: &mut Intel8080) {
    let summary = cpu.run_for(1000);
    assert_eq!(summary.stop, Stop::Halted);
}

#[test]
fn test_new_engine_is_at_power_on() {
    let mut cpu = Intel8080::new();
    assert_eq!(cpu.a, 0);
    assert_eq!(cpu.get_bc(), 0);
    assert_eq!(cpu.get_de(), 0);
    assert_eq!(cpu.get_hl(), 0);
    assert_eq!(cpu.flags, FLAG_BIT_1);
    assert_eq!(cpu.sp, 0x0000);
    assert_eq!(cpu.pc, 0);
    assert_eq!((cpu.b, cpu.c, cpu.d, cpu.e, cpu.h, cpu.l), (0, 0, 0, 0, 0, 0));
    assert_eq!(cpu.timer.read(0x30), 0);
    assert_eq!(cpu.timer.read(0x31), 0);
    assert_eq!(cpu.timer.read(0x32), 0);
    assert!(!cpu.timer.interrupt_pending);
    assert_eq!(cpu.io_bus().device_count(), 0);
    for port in 0u16..=255 {
        assert_eq!(cpu.io_bus().port_device(port as u8), None);
        assert_eq!(cpu.io_bus_mut().read(port as u8), 0xFF);
    }
    for addr in [0x0001u16, 0x0038, 0x8000, 0xEFFE, 0xF000, 0xFFFE] {
        assert_eq!(cpu.read_byte(addr), 0);
    }
    assert_eq!(cpu.cycles, 0);
    assert!(!cpu.halted);
    assert!(!cpu.interrupts_enabled);
    assert_eq!(cpu.read_byte(0x0000), 0);
    assert_eq!(cpu.read_byte(0xFFFF), 0);
}

#[test]
fn test_daa_after_nine_plus_eight() {
    let mut cpu = engine_with(&[0x3E, 0x09, 0x06, 0x08, 0x80, 0x27, 0x76]);
    run_to_halt(&mut cpu);
    assert_eq!(cpu.a, 0x17);
    assert_eq!(cpu.flags & FLAG_CARRY, 0);
}

#[test]
fn test_daa_after_ninety_nine_plus_one() {
    let mut cpu = engine_with(&[0x3E, 0x99, 0x06, 0x01, 0x80, 0x27, 0x76]);
    run_to_halt(&mut cpu);
    assert_eq!(cpu.a, 0x00);
    assert_eq!(cpu.flags & FLAG_CARRY, FLAG_CARRY);
    assert_eq!(cpu.flags & FLAG_ZERO, FLAG_ZERO);
}

#[test]
fn test_daa_clears_aux_carry() {
    let mut cpu = engine_with(&[0x3E, 0x09, 0x06, 0x08, 0x80, 0x27, 0x76]);
    run_to_halt(&mut cpu);
    assert_eq!(cpu.flags & FLAG_AUX_CARRY, 0);
}

#[test]
fn test_call_then_ret_restores_pc_and_sp() {
    let mut cpu = engine_with(&[0xCD, 0x10, 0x00, 0x76]);
    cpu.write_byte(0x0010, 0xC9);
    cpu.sp = 0xF000;
    assert_eq!(cpu.execute_one(), 17);
    assert_eq!(cpu.pc, 0x0010);
    assert_eq!(cpu.sp, 0xEFFE);
    assert_eq!(cpu.read_word(0xEFFE), 0x0003);
    assert_eq!(cpu.execute_one(), 10);
    assert_eq!(cpu.pc, 0x0003);
    assert_eq!(cpu.sp, 0xF000);
}

#[test]
fn test_three_byte_instruction_at_top_of_memory() {
    let mut cpu = Intel8080::new();
    cpu.write_byte(0xFFFF, 0x21);
    cpu.write_byte(0x0000, 0xCD);
    cpu.write_byte(0x0001, 0xAB);
    cpu.pc = 0xFFFF;
    assert_eq!(cpu.execute_one(), 10);
    assert_eq!(cpu.get_hl(), 0xABCD);
    assert_eq!(cpu.pc, 0x0002);
}

#[test]
fn test_push_psw_masks_fixed_bits_in_memory() {
    let mut cpu = engine_with(&[0xF5, 0xF1, 0x76]);
    cpu.sp = 0xF000;
    cpu.a = 0x5A;
    cpu.flags = 0xFF;
    cpu.execute_one();
    assert_eq!(cpu.read_byte(cpu.sp), 0xD7);
    assert_eq!(cpu.read_byte(cpu.sp.wrapping_add(1)), 0x5A);
    cpu.a = 0;
    cpu.execute_one();
    assert_eq!(cpu.flags, 0xD7);
    assert_eq!(cpu.a, 0x5A);
    assert_eq!(cpu.sp, 0xF000);
}

#[test]
fn test_push_pop_psw_restores_valid_flags() {
    for flags in [0x02u8, 0x03, 0x46, 0x87, 0xD7, 0x12] {
        let mut cpu = engine_with(&[0xF5, 0xF1, 0x76]);
        cpu.flags = flags;
        cpu.execute_one();
        cpu.flags = FLAG_BIT_1;
        cpu.execute_one();
        assert_eq!(cpu.flags, flags);
    }
}

#[test]
fn test_pop_psw_forces_fixed_bits() {
    let mut cpu = engine_with(&[0xF1, 0x76]);
    cpu.sp = 0x2000;
    cpu.write_byte(0x2000, 0xFF);
    cpu.write_byte(0x2001, 0x12);
    cpu.execute_one();
    assert_eq!(cpu.flags, 0xD7);
    assert_eq!(cpu.a, 0x12);
    let mut cpu = engine_with(&[0xF1, 0x76]);
    cpu.sp = 0x2000;
    cpu.write_byte(0x2000, 0x00);
    cpu.execute_one();
    assert_eq!(cpu.flags, 0x02);
}

#[test]
fn test_set_psw_and_get_psw() {
    let mut cpu = Intel8080::new();
    cpu.set_psw(0x12FF);
    assert_eq!(cpu.a, 0x12);
    assert_eq!(cpu.flags, 0xD7);
    assert_eq!(cpu.get_psw(), 0x12D7);
    cpu.flags = 0x28;
    assert_eq!(cpu.get_psw(), 0x1202);
    assert_eq!(cpu.get_push_pop_pair(PushPopPair::PSW), 0x1202);
}

#[test]
fn test_dad_changes_carry_only() {
    let mut cpu = engine_with(&[0x09, 0x76]);
    cpu.set_hl(0xFFFF);
    cpu.set_bc(0x0001);
    cpu.flags = FLAG_BIT_1 | FLAG_ZERO | FLAG_SIGN | FLAG_PARITY | FLAG_AUX_CARRY;
    assert_eq!(cpu.execute_one(), 10);
    assert_eq!(cpu.get_hl(), 0x0000);
    assert_eq!(cpu.flags, FLAG_BIT_1 | FLAG_ZERO | FLAG_SIGN | FLAG_PARITY | FLAG_AUX_CARRY | FLAG_CARRY);
    let mut cpu = engine_with(&[0x09, 0x76]);
    cpu.set_hl(0x1000);
    cpu.set_bc(0x0234);
    cpu.flags = FLAG_BIT_1 | FLAG_CARRY;
    cpu.execute_one();
    assert_eq!(cpu.get_hl(), 0x1234);
    assert_eq!(cpu.flags, FLAG_BIT_1);
}

#[test]
fn test_inr_and_dcr_keep_carry() {
    for carry in [0u8, FLAG_CARRY] {
        let mut cpu = engine_with(&[0x3C, 0x3D, 0x76]);
        cpu.a = 0xFF;
        cpu.flags = FLAG_BIT_1 | carry;
        assert_eq!(cpu.execute_one(), 5);
        assert_eq!(cpu.a, 0x00);
        assert_eq!(cpu.flags, FLAG_BIT_1 | FLAG_ZERO | FLAG_PARITY | FLAG_AUX_CARRY | carry);
        assert_eq!(cpu.execute_one(), 5);
        assert_eq!(cpu.a, 0xFF);
        assert_eq!(cpu.flags, FLAG_BIT_1 | FLAG_SIGN | FLAG_PARITY | FLAG_AUX_CARRY | carry);
    }
}

#[test]
fn test_inr_memory_takes_ten_cycles() {
    let mut cpu = engine_with(&[0x34, 0x35, 0x76]);
    cpu.set_hl(0x3000);
    cpu.write_byte(0x3000, 0x0F);
    assert_eq!(cpu.execute_one(), 10);
    assert_eq!(cpu.read_byte(0x3000), 0x10);
    assert_eq!(cpu.flags & FLAG_AUX_CARRY, FLAG_AUX_CARRY);
    assert_eq!(cpu.execute_one(), 10);
    assert_eq!(cpu.read_byte(0x3000), 0x0F);
}

fn branch_flags(cond: Condition, holds: bool) -> u8 {
    let set = cond.flag_value() == holds;
    if set {
        FLAG_BIT_1 | cond.flag_mask()
    } else {
        FLAG_BIT_1
    }
}

const CONDITIONS: [Condition; 8] = [
    Condition::NZ,
    Condition::Z,
    Condition::NC,
    Condition::C,
    Condition::PO,
    Condition::PE,
    Condition::P,
    Condition::M,
];

#[test]
fn test_conditional_jumps_follow_their_flag() {
    for cond in CONDITIONS {
        for holds in [false, true] {
            let opcode = 0xC2 | (cond.to_code() << 3);
            let mut cpu = engine_with(&[opcode, 0x34, 0x12]);
            cpu.flags = branch_flags(cond, holds);
            assert_eq!(cpu.test_condition(cond), holds);
            assert_eq!(cpu.execute_one(), 10);
            assert_eq!(cpu.pc, if holds { 0x1234 } else { 0x0003 });
        }
    }
}

#[test]
fn test_conditional_calls_follow_their_flag() {
    for cond in CONDITIONS {
        for holds in [false, true] {
            let opcode = 0xC4 | (cond.to_code() << 3);
            let mut cpu = engine_with(&[opcode, 0x34, 0x12]);
            cpu.sp = 0xF000;
            cpu.flags = branch_flags(cond, holds);
            assert_eq!(cpu.execute_one(), if holds { 17 } else { 11 });
            assert_eq!(cpu.pc, if holds { 0x1234 } else { 0x0003 });
            assert_eq!(cpu.sp, if holds { 0xEFFE } else { 0xF000 });
            if holds {
                assert_eq!(cpu.read_word(0xEFFE), 0x0003);
            }
        }
    }
}

#[test]
fn test_conditional_returns_follow_their_flag() {
    for cond in CONDITIONS {
        for holds in [false, true] {
            let opcode = 0xC0 | (cond.to_code() << 3);
            let mut cpu = engine_with(&[opcode]);
            cpu.sp = 0x2000;
            cpu.write_word(0x2000, 0x4321);
            cpu.flags = branch_flags(cond, holds);
            assert_eq!(cpu.execute_one(), if holds { 11 } else { 5 });
            assert_eq!(cpu.pc, if holds { 0x4321 } else { 0x0001 });
            assert_eq!(cpu.sp, if holds { 0x2002 } else { 0x2000 });
        }
    }
}

#[test]
fn test_flags_fixed_bits_after_every_defined_opcode() {
    for opcode in 0u16..=255 {
        let opcode = opcode as u8;
        if [0xCB, 0xD9, 0xDD, 0xED, 0xFD].contains(&opcode) {
            continue;
        }
        for flags in [0x02u8, 0xD7, 0x03, 0x46] {
            let mut cpu = engine_with(&[opcode, 0x55, 0x20]);
            cpu.a = 0x9B;
            cpu.set_bc(0x1234);
            cpu.set_hl(0x4000);
            cpu.sp = 0x3000;
            cpu.write_word(0x3000, 0xFFFF);
            cpu.flags = flags;
            cpu.execute_one();
            assert_eq!(cpu.flags & 0x2A, 0x02, "opcode {:02X}", opcode);
        }
    }
}

#[test]
fn test_cycle_counts_of_single_instructions() {
    let cases: [(u8, u8); 30] = [
        (0x00, 4), (0x76, 7), (0x41, 5), (0x46, 7), (0x70, 7), (0x80, 4), (0x86, 7), (0x06, 7),
        (0x36, 10), (0x04, 5), (0x05, 5), (0x01, 10), (0x09, 10), (0x03, 5), (0x0B, 5), (0xC5, 11),
        (0xC1, 10), (0xC7, 11), (0xC3, 10), (0xCD, 17), (0xC9, 10), (0x02, 7), (0x0A, 7), (0x32, 13),
        (0x3A, 13), (0x22, 16), (0x2A, 16), (0xC6, 7), (0xE3, 18), (0xE9, 5),
    ];
    for (opcode, cycles) in cases {
        let mut cpu = engine_with(&[opcode, 0x00, 0x20]);
        assert_eq!(cpu.execute_one(), cycles, "opcode {:02X}", opcode);
        assert_eq!(cpu.cycles, cycles as u64);
    }
    let more: [(u8, u8); 12] = [
        (0x07, 4), (0x0F, 4), (0x17, 4), (0x1F, 4), (0x27, 4), (0x2F, 4), (0x37, 4), (0x3F, 4),
        (0xEB, 4), (0xF3, 4), (0xF9, 5), (0xFB, 4),
    ];
    for (opcode, cycles) in more {
        let mut cpu = engine_with(&[opcode]);
        assert_eq!(cpu.execute_one(), cycles, "opcode {:02X}", opcode);
    }
}

#[test]
fn test_undocumented_nops_take_four_cycles() {
    for opcode in [0x08u8, 0x10, 0x18, 0x20, 0x28, 0x30, 0x38] {
        let mut cpu = engine_with(&[opcode]);
        cpu.a = 0x11;
        cpu.flags = 0xD7;
        assert!(cpu.can_step());
        assert_eq!(cpu.execute_one(), 4);
        assert_eq!(cpu.pc, 1);
        assert_eq!(cpu.a, 0x11);
        assert_eq!(cpu.flags, 0xD7);
    }
}

#[test]
fn test_step_refuses_unknown_opcodes() {
    for opcode in [0xCBu8, 0xD9, 0xDD, 0xED, 0xFD] {
        let mut cpu = Intel8080::new();
        cpu.load_program(&[opcode], 0x0120);
        assert!(!cpu.can_step());
        let error = cpu.step().unwrap_err();
        assert_eq!(error, UnknownOpcode { opcode, pc: 0x0120 });
        assert_eq!(cpu.pc, 0x0120);
        assert_eq!(cpu.cycles, 0);
    }
}

#[test]
fn test_unknown_opcode_message() {
    let error = UnknownOpcode { opcode: 0xCB, pc: 0x01AF };
    assert_eq!(error.message(), "Unknown opcode: 0xCB at PC: 0x01AF");
    let error = UnknownOpcode { opcode: 0x0D, pc: 0x0000 };
    assert_eq!(error.message(), "Unknown opcode: 0x0D at PC: 0x0000");
}

#[test]
fn test_step_executes_known_opcodes() {
    let mut cpu = engine_with(&[0x3E, 0x42, 0x76]);
    assert_eq!(cpu.step(), Ok(7));
    assert_eq!(cpu.a, 0x42);
    assert_eq!(cpu.step(), Ok(7));
    assert!(cpu.halted);
}

#[test]
fn test_run_stops_on_halt() {
    let mut cpu = engine_with(&[0x3E, 0x01, 0x3C, 0x3C, 0x76, 0x3C]);
    let summary = cpu.run();
    assert_eq!(summary, RunSummary { stop: Stop::Halted, steps: 4 });
    assert_eq!(cpu.a, 3);
    assert_eq!(cpu.pc, 5);
    assert_eq!(cpu.cycles, 7 + 5 + 5 + 7);
}

#[test]
fn test_run_takes_no_step_when_halted() {
    let mut cpu = engine_with(&[0x3C]);
    cpu.halted = true;
    let summary = cpu.run();
    assert_eq!(summary, RunSummary { stop: Stop::Halted, steps: 0 });
    assert_eq!(cpu.a, 0);
}

#[test]
fn test_run_stops_on_unknown_opcode() {
    let mut cpu = engine_with(&[0x3C, 0xED, 0x76]);
    let summary = cpu.run();
    assert_eq!(summary.stop, Stop::UnknownOpcode(UnknownOpcode { opcode: 0xED, pc: 1 }));
    assert_eq!(summary.steps, 1);
    assert_eq!(cpu.a, 1);
}

#[test]
fn test_run_for_stops_at_step_limit() {
    let mut cpu = engine_with(&[0xC3, 0x00, 0x00]);
    let summary = cpu.run_for(25);
    assert_eq!(summary, RunSummary { stop: Stop::StepLimit, steps: 25 });
    assert_eq!(cpu.cycles, 250);
    let summary = cpu.run_for(0);
    assert_eq!(summary, RunSummary { stop: Stop::StepLimit, steps: 0 });
}

#[test]
fn test_load_program_sets_pc_and_memory() {
    let mut cpu = Intel8080::new();
    cpu.load_program(&[1, 2, 3], 0x4000);
    assert_eq!(cpu.pc, 0x4000);
    assert_eq!(cpu.read_byte(0x3FFF), 0);
    assert_eq!(cpu.read_byte(0x4000), 1);
    assert_eq!(cpu.read_byte(0x4001), 2);
    assert_eq!(cpu.read_byte(0x4002), 3);
    assert_eq!(cpu.read_byte(0x4003), 0);
    cpu.load_program(&[], 0x1234);
    assert_eq!(cpu.pc, 0x1234);
}

#[test]
fn test_load_program_wraps_at_top_of_memory() {
    let mut cpu = Intel8080::new();
    cpu.load_program(&[0xAA, 0xBB, 0xCC], 0xFFFE);
    assert_eq!(cpu.pc, 0xFFFE);
    assert_eq!(cpu.read_byte(0xFFFE), 0xAA);
    assert_eq!(cpu.read_byte(0xFFFF), 0xBB);
    assert_eq!(cpu.read_byte(0x0000), 0xCC);
}

#[test]
fn test_word_access_wraps() {
    let mut cpu = Intel8080::new();
    cpu.write_word(0xFFFF, 0xBEEF);
    assert_eq!(cpu.read_byte(0xFFFF), 0xEF);
    assert_eq!(cpu.read_byte(0x0000), 0xBE);
    assert_eq!(cpu.read_word(0xFFFF), 0xBEEF);
    cpu.pc = 0xFFFF;
    assert_eq!(cpu.fetch_word(), 0xBEEF);
    assert_eq!(cpu.pc, 0x0001);
}

#[test]
fn test_register_access_by_name() {
    let mut cpu = Intel8080::new();
    let registers = [
        Register::B, Register::C, Register::D, Register::E, Register::H, Register::L, Register::A,
    ];
    for (index, reg) in registers.iter().enumerate() {
        cpu.set_reg(*reg, 0x10 + index as u8);
    }
    assert_eq!((cpu.b, cpu.c, cpu.d, cpu.e, cpu.h, cpu.l, cpu.a), (0x10, 0x11, 0x12, 0x13, 0x14, 0x15, 0x16));
    cpu.set_reg(Register::M, 0x99);
    assert_eq!(cpu.read_byte(0x1415), 0x99);
    assert_eq!(cpu.get_reg(Register::M), 0x99);
    assert_eq!(cpu.get_reg(Register::D), 0x12);
    cpu.set_pair(RegisterPair::SP, 0xABCD);
    assert_eq!(cpu.sp, 0xABCD);
    assert_eq!(cpu.get_pair(RegisterPair::SP), 0xABCD);
    cpu.set_pair(RegisterPair::DE, 0x0102);
    assert_eq!((cpu.d, cpu.e), (0x01, 0x02));
    assert_eq!(cpu.get_pair(RegisterPair::BC), 0x1011);
    cpu.set_push_pop_pair(PushPopPair::HL, 0x7788);
    assert_eq!(cpu.get_push_pop_pair(PushPopPair::HL), 0x7788);
}

#[test]
fn test_arithmetic_flag_formula() {
    let mut cpu = Intel8080::new();
    cpu.update_flags_arithmetic(0x00, false, false);
    assert_eq!(cpu.flags, 0x46);
    cpu.update_flags_arithmetic(0x80, true, true);
    assert_eq!(cpu.flags, 0x93);
    cpu.update_flags_arithmetic(0x03, false, true);
    assert_eq!(cpu.flags, 0x16);
    cpu.update_flags_arithmetic(0x01, true, false);
    assert_eq!(cpu.flags, 0x03);
    cpu.update_flags_logical(0xFF);
    assert_eq!(cpu.flags, 0x86);
    cpu.update_flags(0x00, true);
    assert_eq!(cpu.flags, 0x47);
}

#[test]
fn test_subtraction_borrows() {
    let mut cpu = engine_with(&[0x3E, 0x10, 0xD6, 0x01, 0x76]);
    run_to_halt(&mut cpu);
    assert_eq!(cpu.a, 0x0F);
    assert_eq!(cpu.flags, FLAG_BIT_1 | FLAG_PARITY | FLAG_AUX_CARRY);
    let mut cpu = engine_with(&[0x3E, 0x00, 0x37, 0xDE, 0xFF, 0x76]);
    run_to_halt(&mut cpu);
    assert_eq!(cpu.a, 0x00);
    assert_eq!(cpu.flags, FLAG_BIT_1 | FLAG_ZERO | FLAG_PARITY | FLAG_CARRY | FLAG_AUX_CARRY);
}

#[test]
fn test_compare_leaves_accumulator() {
    let mut cpu = engine_with(&[0x3E, 0x05, 0xFE, 0x06, 0x76]);
    run_to_halt(&mut cpu);
    assert_eq!(cpu.a, 0x05);
    assert_eq!(cpu.flags, FLAG_BIT_1 | FLAG_SIGN | FLAG_PARITY | FLAG_CARRY | FLAG_AUX_CARRY);
}

#[test]
fn test_rotations_exact() {
    let mut cpu = engine_with(&[0x07, 0x0F, 0x17, 0x1F]);
    cpu.a = 0x81;
    cpu.execute_one();
    assert_eq!((cpu.a, cpu.flags), (0x03, 0x03));
    cpu.execute_one();
    assert_eq!((cpu.a, cpu.flags), (0x81, 0x03));
    cpu.execute_one();
    assert_eq!((cpu.a, cpu.flags), (0x03, 0x03));
    cpu.execute_one();
    assert_eq!((cpu.a, cpu.flags), (0x81, 0x03));
}

#[test]
fn test_rst_vectors() {
    for n in 0u8..8 {
        let mut cpu = Intel8080::new();
        cpu.load_program(&[0xC7 | (n << 3)], 0x0200);
        cpu.sp = 0xF000;
        assert_eq!(cpu.execute_one(), 11);
        assert_eq!(cpu.pc, 8 * n as u16);
        assert_eq!(cpu.read_word(cpu.sp), 0x0201);
        assert_eq!(cpu.sp, 0xEFFE);
    }
}

#[test]
fn test_operands_by_code() {
    let mut cpu = Intel8080::new();
    for code in 0u8..8 {
        if code != 6 {
            cpu.set_reg_by_code(code, 0x20 + code);
        }
    }
    assert_eq!((cpu.b, cpu.c, cpu.d, cpu.e, cpu.h, cpu.l, cpu.a), (0x20, 0x21, 0x22, 0x23, 0x24, 0x25, 0x27));
    cpu.set_reg_by_code(6, 0x5A);
    assert_eq!(cpu.read_byte(0x2425), 0x5A);
    assert_eq!(cpu.get_reg_by_code(6), 0x5A);
    assert_eq!(cpu.get_reg_by_code(0x0F), 0x27);
    assert_eq!(cpu.get_pair_by_code(0), 0x2021);
    assert_eq!(cpu.get_pair_by_code(1), 0x2223);
    assert_eq!(cpu.get_pair_by_code(2), 0x2425);
    assert_eq!(cpu.get_pair_by_code(3), 0x0000);
    cpu.sp = 0xF000;
    assert_eq!(cpu.get_pair_by_code(7), 0xF000);
    cpu.set_pair_by_code(3, 0x1000);
    assert_eq!(cpu.sp, 0x1000);
    cpu.set_pair_by_code(5, 0xBEEF);
    assert_eq!(cpu.get_de(), 0xBEEF);
    assert_eq!(cpu.get_push_pop_pair_by_code(3), 0x2702);
    cpu.set_push_pop_pair_by_code(3, 0x11FF);
    assert_eq!((cpu.a, cpu.flags), (0x11, 0xD7));
    cpu.set_push_pop_pair_by_code(0, 0x0102);
    assert_eq!(cpu.get_push_pop_pair_by_code(4), 0x0102);
    cpu.flags = 0x02 | FLAG_ZERO;
    assert!(cpu.test_condition_by_code(1));
    assert!(!cpu.test_condition_by_code(0));
    assert!(cpu.test_condition_by_code(2));
    assert!(cpu.test_condition_by_code(4));
    assert!(cpu.test_condition_by_code(6));
    assert!(!cpu.test_condition_by_code(7));
    assert!(cpu.test_condition_by_code(9));
}

#[test]
fn test_instructions_by_operand_name() {
    let mut cpu = engine_with(&[0x34, 0x12, 0x00, 0x20]);
    cpu.sp = 0xF000;
    assert_eq!(cpu.lxi(RegisterPair::HL), 10);
    assert_eq!(cpu.get_hl(), 0x1234);
    assert_eq!(cpu.pc, 2);
    cpu.a = 0x77;
    assert_eq!(cpu.mov(Register::M, Register::A), 7);
    assert_eq!(cpu.read_byte(0x1234), 0x77);
    assert_eq!(cpu.mov(Register::B, Register::A), 5);
    assert_eq!(cpu.b, 0x77);
    assert_eq!(cpu.dad(RegisterPair::HL), 10);
    assert_eq!(cpu.get_hl(), 0x2468);
    assert_eq!(cpu.push(PushPopPair::HL), 11);
    assert_eq!(cpu.pop(PushPopPair::DE), 10);
    assert_eq!(cpu.get_de(), 0x2468);
    assert_eq!(cpu.sp, 0xF000);
    cpu.flags = 0x02;
    assert_eq!(cpu.jcc(Condition::Z), 10);
    assert_eq!(cpu.pc, 4);
    cpu.pc = 2;
    assert_eq!(cpu.jcc(Condition::NZ), 10);
    assert_eq!(cpu.pc, 0x2000);
}
