use sm83_core::cpu::{Cpu, Error as TickError};
use sm83_core::decoder::{Decoder, Error, OpCodeDecoder};
use sm83_core::instructions::{Error as InstructionError, Instructions};
use sm83_core::opcode::{Adc, Add16, Add8, AddSP16, Cp8, Instruction, Sbc8, Sub8};
use sm83_core::operand::{Memory, Operand, Register16, Register8};
use sm83_core::operations::{add_u16, add_u8, cp_u8, sbc_u8, sub_u8};
use sm83_core::registers::{Flags, Registers};
use sm83_core::rom::{Error as RomError, ROMVec};
use sm83_core::sm83::Sm83;

fn cpu_with(rom_data: Vec<u8>, registers: Registers) -> Sm83<ROMVec, OpCodeDecoder> {
    Sm83::new(ROMVec::new(rom_data), OpCodeDecoder::new()).set_registers(registers)
}

fn group_operand(index: u8) -> (Operand, u8) {
    match index {
        0 => (Operand::Register8(Register8::B), 4),
        1 => (Operand::Register8(Register8::C), 4),
        2 => (Operand::Register8(Register8::D), 4),
        3 => (Operand::Register8(Register8::E), 4),
        4 => (Operand::Register8(Register8::H), 4),
        5 => (Operand::Register8(Register8::L), 4),
        6 => (Operand::Memory(Memory::HL), 8),
        _ => (Operand::Register8(Register8::A), 4),
    }
}

/// The opcode table as the instruction set documents it.
fn documented(opcode: u8) -> Option<Instruction> {
    let group = |base: u8, immediate: u8| -> Option<(Operand, u8)> {
        if opcode >= base && opcode < base + 8 {
            Some(group_operand(opcode - base))
        } else if opcode == immediate {
            Some((Operand::Imm8, 8))
        } else {
            None
        }
    };
    if let Some((operand, cycles)) = group(0x80, 0xC6) {
        return Some(Instruction::Add8(Add8 { operand, cycles }));
    }
    if let Some((operand, cycles)) = group(0x88, 0xCE) {
        return Some(Instruction::Adc(Adc { operand, cycles }));
    }
    if let Some((operand, cycles)) = group(0x90, 0xD6) {
        return Some(Instruction::Sub8(Sub8 { operand, cycles }));
    }
    if let Some((operand, cycles)) = group(0x98, 0xDE) {
        return Some(Instruction::Sbc8(Sbc8 { operand, cycles }));
    }
    if let Some((operand, cycles)) = group(0xB8, 0xFE) {
        return Some(Instruction::Cp8(Cp8 { operand, cycles }));
    }
    let pair = match opcode {
        0x09 => Some(Register16::BC),
        0x19 => Some(Register16::DE),
        0x29 => Some(Register16::HL),
        0x39 => Some(Register16::SP),
        _ => None,
    };
    if let Some(pair) = pair {
        return Some(Instruction::Add16(Add16 { operand: Operand::Register16(pair), cycles: 8 }));
    }
    if opcode == 0xE8 {
        return Some(Instruction::AddSP16(AddSP16 { operand: Operand::ImmSigned8, cycles: 16 }));
    }
    None
}

#[test]
fn add_u8_flags_for_all_bytes() {
    for a in 0..=255u8 {
        for b in 0..=255u8 {
            let (sum, flags) = add_u8(a, b);
            assert_eq!(sum, a.wrapping_add(b));
            assert_eq!(flags.z, sum == 0);
            assert_eq!(flags.c, a as u16 + b as u16 > 255);
            assert_eq!(flags.h, (a & 0xF) + (b & 0xF) > 0xF);
            assert!(!flags.n);
        }
    }
}

#[test]
fn sub_u8_flags_for_all_bytes() {
    for a in 0..=255u8 {
        for b in 0..=255u8 {
            let (diff, flags) = sub_u8(a, b);
            assert_eq!(diff, a.wrapping_sub(b));
            assert!(flags.n);
            assert_eq!(flags.c, a < b);
            assert_eq!(flags.h, (a & 0xF) < (b & 0xF));
            assert_eq!(flags.z, diff == 0);
        }
    }
}

#[test]
fn cp_u8_flags_are_sub_u8_flags_for_all_bytes() {
    for a in 0..=255u8 {
        for b in 0..=255u8 {
            assert_eq!(cp_u8(a, b), sub_u8(a, b).1);
        }
    }
}

#[test]
fn every_opcode_decodes_as_documented() {
    let decoder = OpCodeDecoder::new();
    let mut assigned = 0;
    for opcode in 0..=255u8 {
        match documented(opcode) {
            Some(instruction) => {
                assigned += 1;
                let decoded = decoder.decode(opcode).unwrap();
                assert_eq!(decoded, instruction);
                assert_eq!(decoded.operand(), instruction.operand());
                assert_eq!(decoded.cycles(), instruction.cycles());
            },
            None => assert_eq!(decoder.decode(opcode), Err(Error::InvalidOpcode(opcode))),
        }
    }
    assert_eq!(assigned, 5 * 9 + 4 + 1);
}

#[test]
fn add8_round_trip_matches_add_u8() {
    let registers = Registers { a: 0x3C, b: 0x01, c: 0xC4, d: 0x0F, e: 0x80, h: 0xFF, l: 0x12, ..Default::default() };
    for opcode in [0x80u8, 0x81, 0x82, 0x83, 0x84, 0x85, 0x87] {
        let mut cpu = cpu_with(vec![opcode], registers);
        let value = match opcode {
            0x80 => registers.b,
            0x81 => registers.c,
            0x82 => registers.d,
            0x83 => registers.e,
            0x84 => registers.h,
            0x85 => registers.l,
            _ => registers.a,
        };
        assert_eq!(cpu.tick(), Ok(4));
        let (sum, flags) = add_u8(registers.a, value);
        assert_eq!(cpu.registers().a, sum);
        assert_eq!(cpu.registers().f, flags);
        assert_eq!(cpu.registers().pc, 1);
    }
    let mut cpu = cpu_with(vec![0xC6, 0xD5], registers);
    assert_eq!(cpu.tick(), Ok(8));
    let (sum, flags) = add_u8(registers.a, 0xD5);
    assert_eq!(cpu.registers().a, sum);
    assert_eq!(cpu.registers().f, flags);
    assert_eq!(cpu.registers().pc, 2);
}

#[test]
fn add16_round_trip_matches_add_u16() {
    let mut registers = Registers::default();
    registers.set_bc(0x8A23);
    registers.set_de(0x0FFF);
    registers.set_hl(0x7001);
    registers.sp = 0x9000;
    for (opcode, value) in [(0x09u8, 0x8A23u16), (0x19, 0x0FFF), (0x29, 0x7001), (0x39, 0x9000)] {
        let mut cpu = cpu_with(vec![opcode], registers);
        assert_eq!(cpu.tick(), Ok(8));
        let (sum, flags) = add_u16(0x7001, value);
        assert_eq!(cpu.registers().hl(), sum);
        assert_eq!(cpu.registers().f, flags);
    }
}

#[test]
fn unassigned_opcode_fails_with_invalid_opcode() {
    assert_eq!(OpCodeDecoder::new().decode(0xFF), Err(Error::InvalidOpcode(0xFF)));
    let mut cpu = cpu_with(vec![0xFF], Registers::default());
    assert_eq!(cpu.tick(), Err(TickError::Decode(Error::InvalidOpcode(0xFF))));
    assert_eq!(cpu.registers().pc, 1);
}

#[test]
fn memory_operand_fails_with_operand_error() {
    let mut cpu = cpu_with(vec![0x86], Registers::default());
    assert_eq!(
        cpu.tick(),
        Err(TickError::Instruction(InstructionError::InvalidOperand("Memory(HL) not implemented yet.".to_string())))
    );
    assert_eq!(cpu.registers().a, 0);
}

#[test]
fn wrong_operand_names_operand_and_instruction() {
    let mut cpu = cpu_with(vec![0], Registers::default());
    assert_eq!(
        cpu.add8(&Add8 { operand: Operand::Imm16, cycles: 4 }),
        Err(InstructionError::InvalidOperand("Imm16 for instruction Add8".to_string()))
    );
    assert_eq!(
        cpu.add16(&Add16 { operand: Operand::Imm8, cycles: 8 }),
        Err(InstructionError::InvalidOperand("Imm8 for instruction Add16".to_string()))
    );
    assert_eq!(
        cpu.add_sp16(&AddSP16 { operand: Operand::Register16(Register16::BC), cycles: 16 }),
        Err(InstructionError::InvalidOperand("Register16(BC) for instruction AddSP16".to_string()))
    );
    assert_eq!(
        cpu.cp8(&Cp8 { operand: Operand::Memory(Memory::HLI), cycles: 8 }),
        Err(InstructionError::InvalidOperand("Memory(HLI) for instruction Cp8".to_string()))
    );
    assert_eq!(cpu.registers().pc, 0);
}

#[test]
fn fetch_beyond_memory_fails_with_memory_error() {
    let mut cpu = cpu_with(vec![], Registers::default());
    assert_eq!(cpu.tick(), Err(TickError::Memory(RomError::OutOfRange(0))));
    assert_eq!(cpu.registers().pc, 0);
}

#[test]
fn missing_immediate_byte_fails_the_instruction() {
    let mut cpu = cpu_with(vec![0xC6], Registers { a: 7, ..Default::default() });
    assert_eq!(
        cpu.tick(),
        Err(TickError::Instruction(InstructionError::Failed(
            "Failed to read ROM: Address 0x0001 is out of range".to_string()
        )))
    );
    assert_eq!(cpu.registers().a, 7);
    assert_eq!(cpu.registers().pc, 1);
}

#[test]
fn error_texts() {
    assert_eq!(Error::InvalidOpcode(0).to_string(), "Opcode 0 is not supported.");
    assert_eq!(Error::InvalidOpcode(7).to_string(), "Opcode 7 is not supported.");
    assert_eq!(Error::InvalidOpcode(42).to_string(), "Opcode 42 is not supported.");
    assert_eq!(Error::InvalidOpcode(186).to_string(), "Opcode 186 is not supported.");
    assert_eq!(Error::InvalidOpcode(255).to_string(), "Opcode 255 is not supported.");
    assert_eq!(RomError::OutOfRange(0xBEEF).to_string(), "Address 0xBEEF is out of range");
    assert_eq!(RomError::OutOfRange(0x0A09).to_string(), "Address 0x0A09 is out of range");
    assert_eq!(
        InstructionError::InvalidOperand("x".to_string()).to_string(),
        "Invalid operand: x"
    );
    assert_eq!(InstructionError::Failed("y".to_string()).to_string(), "Instruction failed: y");
    assert_eq!(Operand::Register8(Register8::H).name(), "Register8(H)");
    assert_eq!(Operand::ImmSigned8.name(), "ImmSigned8");
}

#[test]
fn add_sp_sign_extends_the_immediate() {
    let mut cpu = cpu_with(vec![0xE8, 0xFE], Registers { sp: 0x0010, ..Default::default() });
    assert_eq!(cpu.tick(), Ok(16));
    assert_eq!(cpu.registers().sp, 0x000E);
    assert_eq!(cpu.registers().f, Flags::half_carry() | Flags::carry());
    assert_eq!(cpu.registers().pc, 2);
}

#[test]
fn adc_adds_the_carry() {
    let registers = Registers { a: 0x0E, b: 0x01, f: Flags::carry(), ..Default::default() };
    let mut cpu = cpu_with(vec![0x88], registers);
    assert_eq!(cpu.tick(), Ok(4));
    assert_eq!(cpu.registers().a, 0x10);
    assert_eq!(cpu.registers().f, Flags::half_carry());
}

#[test]
fn adc_carry_from_either_step() {
    // 0xFF + carry wraps to zero in the first step; the second step adds 0x05.
    let registers = Registers { a: 0xFF, c: 0x05, f: Flags::carry(), ..Default::default() };
    let mut cpu = cpu_with(vec![0x89], registers);
    assert_eq!(cpu.tick(), Ok(4));
    assert_eq!(cpu.registers().a, 0x05);
    assert_eq!(cpu.registers().f, Flags::half_carry() | Flags::carry());
}

#[test]
fn adc_zero_flag_comes_from_the_final_sum() {
    let registers = Registers { a: 0x00, b: 0x05, ..Default::default() };
    let mut cpu = cpu_with(vec![0x88], registers);
    assert_eq!(cpu.tick(), Ok(4));
    assert_eq!(cpu.registers().a, 0x05);
    assert_eq!(cpu.registers().f, Flags::empty());
}

#[test]
fn adc_a_reads_the_accumulator_before_the_carry() {
    let registers = Registers { a: 0x05, f: Flags::carry(), ..Default::default() };
    let mut cpu = cpu_with(vec![0x8F], registers);
    assert_eq!(cpu.tick(), Ok(4));
    assert_eq!(cpu.registers().a, 0x0B);
}

#[test]
fn sub_sbc_cp_through_tick() {
    let registers = Registers { a: 0x10, b: 0x01, f: Flags::carry(), ..Default::default() };

    let mut cpu = cpu_with(vec![0x90], registers);
    assert_eq!(cpu.tick(), Ok(4));
    assert_eq!(cpu.registers().a, 0x0F);
    assert_eq!(cpu.registers().f, Flags::subtract() | Flags::half_carry());

    let mut cpu = cpu_with(vec![0x98], registers);
    assert_eq!(cpu.tick(), Ok(4));
    assert_eq!(cpu.registers().a, 0x0E);
    assert_eq!(cpu.registers().f, Flags::subtract() | Flags::half_carry());

    let mut cpu = cpu_with(vec![0xB8], registers);
    assert_eq!(cpu.tick(), Ok(4));
    assert_eq!(cpu.registers().a, 0x10);
    assert_eq!(cpu.registers().f, Flags::subtract() | Flags::half_carry());

    let mut cpu = cpu_with(vec![0xFE, 0x10], registers);
    assert_eq!(cpu.tick(), Ok(8));
    assert_eq!(cpu.registers().a, 0x10);
    assert_eq!(cpu.registers().f, Flags::zero() | Flags::subtract());

    let mut cpu = cpu_with(vec![0xD6, 0x11], registers);
    assert_eq!(cpu.tick(), Ok(8));
    assert_eq!(cpu.registers().a, 0xFF);
    assert_eq!(cpu.registers().f, Flags::subtract() | Flags::half_carry() | Flags::carry());

    let mut cpu = cpu_with(vec![0xDE, 0x0F], registers);
    assert_eq!(cpu.tick(), Ok(8));
    assert_eq!(cpu.registers().a, 0x00);
    assert_eq!(cpu.registers().f, Flags::zero() | Flags::subtract() | Flags::half_carry());
}

#[test]
fn sbc_u8_largest_values() {
    assert_eq!(sbc_u8(0, 255, 1), (0, Flags::zero() | Flags::subtract() | Flags::half_carry() | Flags::carry()));
    assert_eq!(sbc_u8(255, 255, 0), (0, Flags::zero() | Flags::subtract()));
}

#[test]
fn flag_set_and_contains() {
    let mut flags = Flags::empty();
    assert!(flags.contains(Flags::empty()));
    assert!(!flags.contains(Flags::carry()));
    flags.set(Flags::carry() | Flags::zero(), true);
    assert_eq!(flags, Flags::zero() | Flags::carry());
    assert!(flags.contains(Flags::carry()));
    assert!(!flags.contains(Flags::carry() | Flags::half_carry()));
    flags.set(Flags::zero(), false);
    assert_eq!(flags, Flags::carry());
    assert_eq!(Flags::default(), Flags::empty());
    assert_eq!(Flags::from_add(0, true, false), Flags::zero() | Flags::carry());
    assert_eq!(Flags::from_sub(3, false, true), Flags::subtract() | Flags::half_carry());
}

#[test]
fn register_pairs_leave_other_registers() {
    let mut registers = Registers { a: 1, b: 2, c: 3, d: 4, e: 5, h: 6, l: 7, sp: 8, pc: 9, ..Default::default() };
    registers.set_de(0x1234);
    assert_eq!((registers.a, registers.b, registers.c, registers.d, registers.e), (1, 2, 3, 0x12, 0x34));
    assert_eq!((registers.h, registers.l, registers.sp, registers.pc), (6, 7, 8, 9));
    assert_eq!(registers.bc(), 0x0203);
    assert_eq!(registers.hl(), 0x0607);
}

#[test]
fn program_counter_wraps() {
    let mut data = vec![0u8; 0x10000];
    data[0xFFFF] = 0x80;
    let mut cpu = cpu_with(data, Registers { pc: 0xFFFF, b: 2, ..Default::default() });
    assert_eq!(cpu.tick(), Ok(4));
    assert_eq!(cpu.registers().pc, 0);
    assert_eq!(cpu.registers().a, 2);
}

#[test]
fn registry_decodes_through_each_family() {
    let decoder = OpCodeDecoder::new();
    assert_eq!(
        decoder.decode(0xCE),
        Ok(Instruction::Adc(Adc { operand: Operand::Imm8, cycles: 8 }))
    );
    assert_eq!(
        decoder.decode(0x9E),
        Ok(Instruction::Sbc8(Sbc8 { operand: Operand::Memory(Memory::HL), cycles: 8 }))
    );
    assert_eq!(decoder.decode(0x8F).unwrap().operand(), Operand::Register8(Register8::A));
    assert_eq!(decoder.decode(0xE8).unwrap().cycles(), 16);
}
