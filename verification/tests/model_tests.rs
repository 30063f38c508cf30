use intel8080_emu::alu::{
    add_bytes, decimal_adjust, rotate_left, rotate_left_through_carry, rotate_right,
    rotate_right_through_carry, sub_bytes, AluOp, AluResult, Rotation,
};
use intel8080_emu::cpu::{is_defined_opcode, Intel8080};
use intel8080_emu::flags::{compute_arithmetic_flags, parity_even, set_carry};
use intel8080_emu::hex::{push_hex_byte, push_hex_word};
use intel8080_emu::registers::{Condition, PushPopPair, Register, RegisterPair};

#[test]
fn test_parity_matches_count_of_ones() {
    for value in 0u16..=255 {
        let value = value as u8;
        assert_eq!(parity_even(value), value.count_ones() % 2 == 0, "value {:02X}", value);
    }
}

#[test]
fn test_arithmetic_flags_all_results() {
    for value in 0u16..=255 {
        let value = value as u8;
        for (carry, aux) in [(false, false), (true, false), (false, true), (true, true)] {
            let mut expected = 0x02u8;
            if value == 0 {
                expected |= 0x40;
            }
            if value & 0x80 != 0 {
                expected |= 0x80;
            }
            if value.count_ones() % 2 == 0 {
                expected |= 0x04;
            }
            if carry {
                expected |= 0x01;
            }
            if aux {
                expected |= 0x10;
            }
            assert_eq!(compute_arithmetic_flags(value, carry, aux), expected);
        }
    }
}

#[test]
fn test_set_carry() {
    assert_eq!(set_carry(0x02, true), 0x03);
    assert_eq!(set_carry(0xD7, false), 0xD6);
    assert_eq!(set_carry(0xD6, false), 0xD6);
    assert_eq!(set_carry(0x47, true), 0x47);
}

#[test]
fn test_add_bytes() {
    assert_eq!(add_bytes(0x09, 0x08, false), AluResult { value: 0x11, carry: false, aux_carry: true });
    assert_eq!(add_bytes(0xFF, 0x01, false), AluResult { value: 0x00, carry: true, aux_carry: true });
    assert_eq!(add_bytes(0xFF, 0xFF, true), AluResult { value: 0xFF, carry: true, aux_carry: true });
    assert_eq!(add_bytes(0x0F, 0x00, true), AluResult { value: 0x10, carry: false, aux_carry: true });
    assert_eq!(add_bytes(0x10, 0x20, false), AluResult { value: 0x30, carry: false, aux_carry: false });
}

#[test]
fn test_add_bytes_against_wide_arithmetic() {
    for a in 0u16..=255 {
        for b in [0u16, 1, 0x0F, 0x10, 0x7F, 0x80, 0xF0, 0xFF] {
            for c in 0u16..=1 {
                let result = add_bytes(a as u8, b as u8, c == 1);
                assert_eq!(result.value, ((a + b + c) & 0xFF) as u8);
                assert_eq!(result.carry, a + b + c > 0xFF);
                assert_eq!(result.aux_carry, (a & 0x0F) + (b & 0x0F) + c > 0x0F);
            }
        }
    }
}

#[test]
fn test_sub_bytes() {
    assert_eq!(sub_bytes(0x10, 0x01, false), AluResult { value: 0x0F, carry: false, aux_carry: true });
    assert_eq!(sub_bytes(0x00, 0x01, false), AluResult { value: 0xFF, carry: true, aux_carry: true });
    assert_eq!(sub_bytes(0x05, 0x05, false), AluResult { value: 0x00, carry: false, aux_carry: false });
    assert_eq!(sub_bytes(0x05, 0x04, true), AluResult { value: 0x00, carry: false, aux_carry: false });
    assert_eq!(sub_bytes(0x00, 0xFF, true), AluResult { value: 0x00, carry: true, aux_carry: true });
}

#[test]
fn test_sub_bytes_against_wide_arithmetic() {
    for a in 0i16..=255 {
        for b in [0i16, 1, 0x0F, 0x10, 0x7F, 0x80, 0xF0, 0xFF] {
            for c in 0i16..=1 {
                let result = sub_bytes(a as u8, b as u8, c == 1);
                assert_eq!(result.value, (a - b - c) as u8);
                assert_eq!(result.carry, a - b - c < 0);
                assert_eq!(result.aux_carry, (a & 0x0F) - (b & 0x0F) - c < 0);
            }
        }
    }
}

#[test]
fn test_decimal_adjust() {
    assert_eq!(decimal_adjust(0x11, false, true), AluResult { value: 0x17, carry: false, aux_carry: false });
    assert_eq!(decimal_adjust(0x9A, false, false), AluResult { value: 0x00, carry: true, aux_carry: false });
    assert_eq!(decimal_adjust(0x3A, true, false), AluResult { value: 0xA0, carry: true, aux_carry: false });
    assert_eq!(decimal_adjust(0x45, false, false), AluResult { value: 0x45, carry: false, aux_carry: false });
    assert_eq!(decimal_adjust(0xA0, false, false), AluResult { value: 0x00, carry: true, aux_carry: false });
    assert_eq!(decimal_adjust(0x32, true, true), AluResult { value: 0x98, carry: true, aux_carry: false });
    assert_eq!(decimal_adjust(0x8A, false, false), AluResult { value: 0x90, carry: false, aux_carry: false });
}

#[test]
fn test_rotation_functions() {
    assert_eq!(rotate_left(0x80), Rotation { value: 0x01, carry: true });
    assert_eq!(rotate_left(0x41), Rotation { value: 0x82, carry: false });
    assert_eq!(rotate_right(0x01), Rotation { value: 0x80, carry: true });
    assert_eq!(rotate_right(0x82), Rotation { value: 0x41, carry: false });
    assert_eq!(rotate_left_through_carry(0x80, false), Rotation { value: 0x00, carry: true });
    assert_eq!(rotate_left_through_carry(0x01, true), Rotation { value: 0x03, carry: false });
    assert_eq!(rotate_right_through_carry(0x01, false), Rotation { value: 0x00, carry: true });
    assert_eq!(rotate_right_through_carry(0x02, true), Rotation { value: 0x81, carry: false });
}

#[test]
fn test_alu_op_codes() {
    let ops = [
        AluOp::Add, AluOp::Adc, AluOp::Sub, AluOp::Sbb, AluOp::Ana, AluOp::Xra, AluOp::Ora,
        AluOp::Compare,
    ];
    for (code, op) in ops.iter().enumerate() {
        assert_eq!(AluOp::from_code(code as u8), *op);
        assert_eq!(AluOp::from_code(code as u8 | 0xF8), *op);
    }
}

#[test]
fn test_accumulate() {
    let mut cpu = Intel8080::new();
    cpu.a = 0xF0;
    cpu.accumulate(AluOp::Ana, 0x3C);
    assert_eq!((cpu.a, cpu.flags), (0x30, 0x06));
    cpu.accumulate(AluOp::Ora, 0x81);
    assert_eq!((cpu.a, cpu.flags), (0xB1, 0x86));
    cpu.accumulate(AluOp::Xra, 0xB1);
    assert_eq!((cpu.a, cpu.flags), (0x00, 0x46));
    cpu.accumulate(AluOp::Sub, 0x01);
    assert_eq!((cpu.a, cpu.flags), (0xFF, 0x97));
    cpu.accumulate(AluOp::Adc, 0x00);
    assert_eq!((cpu.a, cpu.flags), (0x00, 0x57));
    cpu.accumulate(AluOp::Sbb, 0x00);
    assert_eq!((cpu.a, cpu.flags), (0xFF, 0x97));
    cpu.accumulate(AluOp::Add, 0x02);
    assert_eq!((cpu.a, cpu.flags), (0x01, 0x13));
    cpu.accumulate(AluOp::Compare, 0x01);
    assert_eq!((cpu.a, cpu.flags), (0x01, 0x46));
}

#[test]
fn test_register_codes_round_trip() {
    let registers = [
        Register::B, Register::C, Register::D, Register::E, Register::H, Register::L, Register::M,
        Register::A,
    ];
    for (code, reg) in registers.iter().enumerate() {
        assert_eq!(Register::from_code(code as u8), *reg);
        assert_eq!(Register::from_code(code as u8 + 8), *reg);
        assert_eq!(reg.to_code(), code as u8);
        assert_eq!(reg.is_memory(), code == 6);
        assert_eq!(reg.cycle_modifier(), if code == 6 { 3 } else { 0 });
    }
    assert_eq!(Register::M.name(), "M");
    assert_eq!(Register::A.name(), "A");
    assert_eq!(Register::H.description(), "H register (high)");
    assert_eq!(Register::M.description(), "Memory [HL]");
    assert_eq!(Register::A.description(), "Accumulator");
}

#[test]
fn test_pair_codes_round_trip() {
    let pairs = [RegisterPair::BC, RegisterPair::DE, RegisterPair::HL, RegisterPair::SP];
    let push_pops = [PushPopPair::BC, PushPopPair::DE, PushPopPair::HL, PushPopPair::PSW];
    for code in 0u8..4 {
        let pair = pairs[code as usize];
        let pp = push_pops[code as usize];
        assert_eq!(RegisterPair::from_code(code), pair);
        assert_eq!(RegisterPair::from_code(code | 0xFC), pair);
        assert_eq!(pair.to_code(), code);
        assert_eq!(PushPopPair::from_code(code), pp);
        assert_eq!(RegisterPair::from_push_pop_code(code + 4), pp);
        assert_eq!(pp.to_code(), code);
        assert_eq!(pair.to_push_pop(), pp);
        assert_eq!(pair.matches_push_pop(pp), code != 3);
        assert_eq!(pp.is_psw(), code == 3);
        assert_eq!(pp.to_register_pair(), if code == 3 { None } else { Some(pair) });
        assert_eq!(pair.supports_indirect(), code < 2);
    }
    assert!(!RegisterPair::BC.matches_push_pop(PushPopPair::DE));
    assert_eq!(RegisterPair::BC.low_register(), Some(Register::C));
    assert_eq!(RegisterPair::BC.high_register(), Some(Register::B));
    assert_eq!(RegisterPair::DE.low_register(), Some(Register::E));
    assert_eq!(RegisterPair::HL.high_register(), Some(Register::H));
    assert_eq!(RegisterPair::SP.low_register(), None);
    assert_eq!(RegisterPair::SP.high_register(), None);
    assert_eq!(RegisterPair::SP.name(), "SP");
    assert_eq!(RegisterPair::SP.description(), "Stack Pointer");
    assert_eq!(RegisterPair::DE.description(), "DE register pair");
    assert_eq!(PushPopPair::PSW.name(), "PSW");
    assert_eq!(PushPopPair::PSW.description(), "Program Status Word (A + Flags)");
    assert_eq!(PushPopPair::HL.description(), "HL register pair");
}

#[test]
fn test_condition_codes() {
    let conditions = [
        (Condition::NZ, "NZ", "not zero", 0x40u8, false),
        (Condition::Z, "Z", "zero", 0x40, true),
        (Condition::NC, "NC", "no carry", 0x01, false),
        (Condition::C, "C", "carry", 0x01, true),
        (Condition::PO, "PO", "parity odd", 0x04, false),
        (Condition::PE, "PE", "parity even", 0x04, true),
        (Condition::P, "P", "plus", 0x80, false),
        (Condition::M, "M", "minus", 0x80, true),
    ];
    for (code, (cond, name, description, mask, value)) in conditions.iter().enumerate() {
        assert_eq!(Condition::from_code(code as u8), *cond);
        assert_eq!(Condition::from_code(code as u8 | 0x38), *cond);
        assert_eq!(cond.to_code(), code as u8);
        assert_eq!(cond.name(), *name);
        assert_eq!(cond.description(), *description);
        assert_eq!(cond.flag_mask(), *mask);
        assert_eq!(cond.flag_value(), *value);
    }
}

#[test]
fn test_defined_opcodes() {
    let mut undefined = 0;
    for opcode in 0u16..=255 {
        if !is_defined_opcode(opcode as u8) {
            undefined += 1;
            assert!([0xCB, 0xD9, 0xDD, 0xED, 0xFD].contains(&(opcode as u8)));
        }
    }
    assert_eq!(undefined, 5);
}

#[test]
fn test_hex_text() {
    let mut text = String::new();
    push_hex_byte(&mut text, 0x0A);
    push_hex_byte(&mut text, 0xF9);
    assert_eq!(text, "0AF9");
    push_hex_word(&mut text, 0x01EF);
    assert_eq!(text, "0AF901EF");
    for value in 0u16..=255 {
        let mut text = String::new();
        push_hex_byte(&mut text, value as u8);
        assert_eq!(text, format!("{:02X}", value));
    }
    for value in [0u16, 0x000F, 0x1234, 0xABCD, 0xFFFF, 0x8000] {
        let mut text = String::new();
        push_hex_word(&mut text, value);
        assert_eq!(text, format!("{:04X}", value));
    }
}

#[test]
fn test_disassemble_known_opcodes() {
    let mut cpu = Intel8080::new();
    cpu.load_program(&[0x01, 0x34, 0x12, 0x06, 0x0A, 0x76, 0xC3, 0x00, 0xF0, 0x08], 0x0100);
    assert_eq!(cpu.disassemble_at(0x0100), ("LXI B,1234h".to_string(), 3));
    assert_eq!(cpu.disassemble_at(0x0103), ("MVI B,0Ah".to_string(), 2));
    assert_eq!(cpu.disassemble_at(0x0105), ("HLT".to_string(), 1));
    assert_eq!(cpu.disassemble_at(0x0106), ("JMP F000h".to_string(), 3));
    assert_eq!(cpu.disassemble_at(0x0109), ("DB 08h".to_string(), 1));
    assert_eq!(cpu.disassemble_at(0x0000), ("NOP".to_string(), 1));
    assert_eq!(cpu.pc, 0x0100);
}

#[test]
fn test_disassemble_every_listed_opcode() {
    let cases: [(u8, &str, u8); 18] = [
        (0x00, "NOP", 1),
        (0x01, "LXI B,BEEFh", 3),
        (0x06, "MVI B,EFh", 2),
        (0x21, "LXI H,BEEFh", 3),
        (0x22, "SHLD BEEFh", 3),
        (0x2A, "LHLD BEEFh", 3),
        (0x32, "STA BEEFh", 3),
        (0x3A, "LDA BEEFh", 3),
        (0x3E, "MVI A,EFh", 2),
        (0x76, "HLT", 1),
        (0x77, "MOV M,A", 1),
        (0x78, "MOV A,B", 1),
        (0x7E, "MOV A,M", 1),
        (0x80, "ADD B", 1),
        (0xC1, "POP B", 1),
        (0xC3, "JMP BEEFh", 3),
        (0xC5, "PUSH B", 1),
        (0xFF, "DB FFh", 1),
    ];
    for (opcode, text, length) in cases {
        let mut cpu = Intel8080::new();
        cpu.load_program(&[opcode, 0xEF, 0xBE], 0);
        assert_eq!(cpu.disassemble_at(0), (text.to_string(), length));
    }
}

#[test]
fn test_disassemble_wraps() {
    let mut cpu = Intel8080::new();
    cpu.write_byte(0xFFFF, 0xC3);
    cpu.write_byte(0x0000, 0x78);
    cpu.write_byte(0x0001, 0x56);
    assert_eq!(cpu.disassemble_at(0xFFFF), ("JMP 5678h".to_string(), 3));
}
