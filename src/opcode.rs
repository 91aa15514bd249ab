use vstd::prelude::*;

use crate::decoder::Error;

use crate::instructions::{Error as InstructionError, Instructions};
use crate::operand::{Memory, Operand, Register16, Register8};

verus! {

/// The operand that the low three bits of an 8-bit arithmetic opcode select, with its cycle
/// cost: B, C, D, E, H, L, the byte at HL, A.
pub open spec fn register_group_operand(index: int) -> (Operand, u8) {
    if index == 0 {
        (Operand::Register8(Register8::B), 4)
    } else if index == 1 {
        (Operand::Register8(Register8::C), 4)
    } else if index == 2 {
        (Operand::Register8(Register8::D), 4)
    } else if index == 3 {
        (Operand::Register8(Register8::E), 4)
    } else if index == 4 {
        (Operand::Register8(Register8::H), 4)
    } else if index == 5 {
        (Operand::Register8(Register8::L), 4)
    } else if index == 6 {
        (Operand::Memory(Memory::HL), 8)
    } else {
        (Operand::Register8(Register8::A), 4)
    }
}

/// The opcode table of an 8-bit arithmetic family: the eight bytes from `base` take the register
/// group in order, and the byte `immediate` takes the byte after the opcode.
pub open spec fn register_group_rule(opcode: u8, base: u8, immediate: u8) -> Option<(Operand, u8)> {
    if base <= opcode < base + 8 {
        Some(register_group_operand(opcode - base))
    } else if opcode == immediate {
        Some((Operand::Imm8, 8))
    } else {
        None
    }
}

/// The opcode table of the 16-bit add family: `0x09`, `0x19`, `0x29` and `0x39` add BC, DE, HL
/// and SP to HL.
pub open spec fn add16_rule(opcode: u8) -> Option<(Operand, u8)> {
    if opcode % 16 == 9 && opcode / 16 < 4 {
        let pair = if opcode / 16 == 0 {
            Register16::BC
        } else if opcode / 16 == 1 {
            Register16::DE
        } else if opcode / 16 == 2 {
            Register16::HL
        } else {
            Register16::SP
        };
        Some((Operand::Register16(pair), 8))
    } else {
        None
    }
}

/// The opcode table of the stack-pointer add: `0xE8` adds the signed byte after the opcode.
pub open spec fn add_sp16_rule(opcode: u8) -> Option<(Operand, u8)> {
    if opcode == 0xE8 {
        Some((Operand::ImmSigned8, 16))
    } else {
        None
    }
}

/// The opcode table of 8-bit add: `0x80`-`0x87` and `0xC6`.
pub open spec fn add8_rule(opcode: u8) -> Option<(Operand, u8)> {
    register_group_rule(opcode, 0x80, 0xC6)
}

/// The opcode table of add with carry: `0x88`-`0x8F` and `0xCE`.
pub open spec fn adc_rule(opcode: u8) -> Option<(Operand, u8)> {
    register_group_rule(opcode, 0x88, 0xCE)
}

/// The opcode table of subtract: `0x90`-`0x97` and `0xD6`.
pub open spec fn sub8_rule(opcode: u8) -> Option<(Operand, u8)> {
    register_group_rule(opcode, 0x90, 0xD6)
}

/// The opcode table of subtract with carry: `0x98`-`0x9F` and `0xDE`.
pub open spec fn sbc8_rule(opcode: u8) -> Option<(Operand, u8)> {
    register_group_rule(opcode, 0x98, 0xDE)
}

/// The opcode table of compare: `0xB8`-`0xBF` and `0xFE`.
pub open spec fn cp8_rule(opcode: u8) -> Option<(Operand, u8)> {
    register_group_rule(opcode, 0xB8, 0xFE)
}

/// Adds the value of the operand to the accumulator register (A).
#[derive(Debug, Clone, Copy, PartialEq, Eq, Structural)]
pub struct Add8 {
    pub operand: Operand,
    pub cycles: u8,
}

/// Adds the value of the operand to the 16-bit HL register.
#[derive(Debug, Clone, Copy, PartialEq, Eq, Structural)]
pub struct Add16 {
    pub operand: Operand,
    pub cycles: u8,
}

/// Adds the value of the operand to the stack pointer (SP).
#[derive(Debug, Clone, Copy, PartialEq, Eq, Structural)]
pub struct AddSP16 {
    pub operand: Operand,
    pub cycles: u8,
}

/// Adds the value of the operand and the carry flag to the accumulator register (A).
#[derive(Debug, Clone, Copy, PartialEq, Eq, Structural)]
pub struct Adc {
    pub operand: Operand,
    pub cycles: u8,
}

/// Subtracts the value of the operand from the accumulator register (A).
#[derive(Debug, Clone, Copy, PartialEq, Eq, Structural)]
pub struct Sub8 {
    pub operand: Operand,
    pub cycles: u8,
}

/// Subtracts the value of the operand and the carry flag from the accumulator register (A).
#[derive(Debug, Clone, Copy, PartialEq, Eq, Structural)]
pub struct Sbc8 {
    pub operand: Operand,
    pub cycles: u8,
}

/// Compares the accumulator register (A) with the operand by performing A - operand.
/// The result is discarded but flags are set as if the subtraction occurred.
#[derive(Debug, Clone, Copy, PartialEq, Eq, Structural)]
pub struct Cp8 {
    pub operand: Operand,
    pub cycles: u8,
}

impl Add8 {
    /// Decodes an opcode of the 8-bit add family.
    pub fn decode(opcode: u8) -> (r: Result<Add8, Error>)
        ensures
            r == (match add8_rule(opcode) {
                Some((operand, cycles)) => Ok(Add8 { operand, cycles }),
                None => Err(Error::InvalidOpcode(opcode)),
            }),
    {
        match opcode {
            0x80 => Ok(Add8 { operand: Operand::Register8(Register8::B), cycles: 4 }),
            0x81 => Ok(Add8 { operand: Operand::Register8(Register8::C), cycles: 4 }),
            0x82 => Ok(Add8 { operand: Operand::Register8(Register8::D), cycles: 4 }),
            0x83 => Ok(Add8 { operand: Operand::Register8(Register8::E), cycles: 4 }),
            0x84 => Ok(Add8 { operand: Operand::Register8(Register8::H), cycles: 4 }),
            0x85 => Ok(Add8 { operand: Operand::Register8(Register8::L), cycles: 4 }),
            0x86 => Ok(Add8 { operand: Operand::Memory(Memory::HL), cycles: 8 }),
            0x87 => Ok(Add8 { operand: Operand::Register8(Register8::A), cycles: 4 }),
            0xC6 => Ok(Add8 { operand: Operand::Imm8, cycles: 8 }),
            _ => Err(Error::InvalidOpcode(opcode)),
        }
    }
}

impl Adc {
    /// Decodes an opcode of the add-with-carry family.
    pub fn decode(opcode: u8) -> (r: Result<Adc, Error>)
        ensures
            r == (match adc_rule(opcode) {
                Some((operand, cycles)) => Ok(Adc { operand, cycles }),
                None => Err(Error::InvalidOpcode(opcode)),
            }),
    {
        match opcode {
            0x88 => Ok(Adc { operand: Operand::Register8(Register8::B), cycles: 4 }),
            0x89 => Ok(Adc { operand: Operand::Register8(Register8::C), cycles: 4 }),
            0x8A => Ok(Adc { operand: Operand::Register8(Register8::D), cycles: 4 }),
            0x8B => Ok(Adc { operand: Operand::Register8(Register8::E), cycles: 4 }),
            0x8C => Ok(Adc { operand: Operand::Register8(Register8::H), cycles: 4 }),
            0x8D => Ok(Adc { operand: Operand::Register8(Register8::L), cycles: 4 }),
            0x8E => Ok(Adc { operand: Operand::Memory(Memory::HL), cycles: 8 }),
            0x8F => Ok(Adc { operand: Operand::Register8(Register8::A), cycles: 4 }),
            0xCE => Ok(Adc { operand: Operand::Imm8, cycles: 8 }),
            _ => Err(Error::InvalidOpcode(opcode)),
        }
    }
}

impl Sub8 {
    /// Decodes an opcode of the subtract family.
    pub fn decode(opcode: u8) -> (r: Result<Sub8, Error>)
        ensures
            r == (match sub8_rule(opcode) {
                Some((operand, cycles)) => Ok(Sub8 { operand, cycles }),
                None => Err(Error::InvalidOpcode(opcode)),
            }),
    {
        match opcode {
            0x90 => Ok(Sub8 { operand: Operand::Register8(Register8::B), cycles: 4 }),
            0x91 => Ok(Sub8 { operand: Operand::Register8(Register8::C), cycles: 4 }),
            0x92 => Ok(Sub8 { operand: Operand::Register8(Register8::D), cycles: 4 }),
            0x93 => Ok(Sub8 { operand: Operand::Register8(Register8::E), cycles: 4 }),
            0x94 => Ok(Sub8 { operand: Operand::Register8(Register8::H), cycles: 4 }),
            0x95 => Ok(Sub8 { operand: Operand::Register8(Register8::L), cycles: 4 }),
            0x96 => Ok(Sub8 { operand: Operand::Memory(Memory::HL), cycles: 8 }),
            0x97 => Ok(Sub8 { operand: Operand::Register8(Register8::A), cycles: 4 }),
            0xD6 => Ok(Sub8 { operand: Operand::Imm8, cycles: 8 }),
            _ => Err(Error::InvalidOpcode(opcode)),
        }
    }
}

impl Sbc8 {
    /// Decodes an opcode of the subtract-with-carry family.
    pub fn decode(opcode: u8) -> (r: Result<Sbc8, Error>)
        ensures
            r == (match sbc8_rule(opcode) {
                Some((operand, cycles)) => Ok(Sbc8 { operand, cycles }),
                None => Err(Error::InvalidOpcode(opcode)),
            }),
    {
        match opcode {
            0x98 => Ok(Sbc8 { operand: Operand::Register8(Register8::B), cycles: 4 }),
            0x99 => Ok(Sbc8 { operand: Operand::Register8(Register8::C), cycles: 4 }),
            0x9A => Ok(Sbc8 { operand: Operand::Register8(Register8::D), cycles: 4 }),
            0x9B => Ok(Sbc8 { operand: Operand::Register8(Register8::E), cycles: 4 }),
            0x9C => Ok(Sbc8 { operand: Operand::Register8(Register8::H), cycles: 4 }),
            0x9D => Ok(Sbc8 { operand: Operand::Register8(Register8::L), cycles: 4 }),
            0x9E => Ok(Sbc8 { operand: Operand::Memory(Memory::HL), cycles: 8 }),
            0x9F => Ok(Sbc8 { operand: Operand::Register8(Register8::A), cycles: 4 }),
            0xDE => Ok(Sbc8 { operand: Operand::Imm8, cycles: 8 }),
            _ => Err(Error::InvalidOpcode(opcode)),
        }
    }
}

impl Cp8 {
    /// Decodes an opcode of the compare family.
    pub fn decode(opcode: u8) -> (r: Result<Cp8, Error>)
        ensures
            r == (match cp8_rule(opcode) {
                Some((operand, cycles)) => Ok(Cp8 { operand, cycles }),
                None => Err(Error::InvalidOpcode(opcode)),
            }),
    {
        match opcode {
            0xB8 => Ok(Cp8 { operand: Operand::Register8(Register8::B), cycles: 4 }),
            0xB9 => Ok(Cp8 { operand: Operand::Register8(Register8::C), cycles: 4 }),
            0xBA => Ok(Cp8 { operand: Operand::Register8(Register8::D), cycles: 4 }),
            0xBB => Ok(Cp8 { operand: Operand::Register8(Register8::E), cycles: 4 }),
            0xBC => Ok(Cp8 { operand: Operand::Register8(Register8::H), cycles: 4 }),
            0xBD => Ok(Cp8 { operand: Operand::Register8(Register8::L), cycles: 4 }),
            0xBE => Ok(Cp8 { operand: Operand::Memory(Memory::HL), cycles: 8 }),
            0xBF => Ok(Cp8 { operand: Operand::Register8(Register8::A), cycles: 4 }),
            0xFE => Ok(Cp8 { operand: Operand::Imm8, cycles: 8 }),
            _ => Err(Error::InvalidOpcode(opcode)),
        }
    }
}

impl Add16 {
    /// Decodes an opcode of the 16-bit add family.
    pub fn decode(opcode: u8) -> (r: Result<Add16, Error>)
        ensures
            r == (match add16_rule(opcode) {
                Some((operand, cycles)) => Ok(Add16 { operand, cycles }),
                None => Err(Error::InvalidOpcode(opcode)),
            }),
    {
        match opcode {
            0x09 => Ok(Add16 { operand: Operand::Register16(Register16::BC), cycles: 8 }),
            0x19 => Ok(Add16 { operand: Operand::Register16(Register16::DE), cycles: 8 }),
            0x29 => Ok(Add16 { operand: Operand::Register16(Register16::HL), cycles: 8 }),
            0x39 => Ok(Add16 { operand: Operand::Register16(Register16::SP), cycles: 8 }),
            _ => Err(Error::InvalidOpcode(opcode)),
        }
    }
}

impl AddSP16 {
    /// Decodes the opcode of the stack-pointer add.
    pub fn decode(opcode: u8) -> (r: Result<AddSP16, Error>)
        ensures
            r == (match add_sp16_rule(opcode) {
                Some((operand, cycles)) => Ok(AddSP16 { operand, cycles }),
                None => Err(Error::InvalidOpcode(opcode)),
            }),
    {
        match opcode {
            0xE8 => Ok(AddSP16 { operand: Operand::ImmSigned8, cycles: 16 }),
            _ => Err(Error::InvalidOpcode(opcode)),
        }
    }
}

/// An instruction value that runs by handing itself to the matching operation of a handler.
pub trait OpCode {
    /// Execute this opcode type with the provided CPU Instruction implementation.
    /// This uses double dispatch to translate the concrete OpCode type to
    /// the respective function of the Instructions trait.
    /// Returns the number of cycles to execute the OpCode.
    fn execute<I: Instructions>(&self, cpu: &mut I) -> (r: Result<u8, InstructionError>);
}

impl OpCode for Add8 {
    fn execute<I: Instructions>(&self, cpu: &mut I) -> (r: Result<u8, InstructionError>)
        ensures
            I::performs_add8(*old(cpu), *self, *final(cpu), r),
    {
        cpu.add8(self)
    }
}

impl OpCode for Add16 {
    fn execute<I: Instructions>(&self, cpu: &mut I) -> (r: Result<u8, InstructionError>)
        ensures
            I::performs_add16(*old(cpu), *self, *final(cpu), r),
    {
        cpu.add16(self)
    }
}

impl OpCode for AddSP16 {
    fn execute<I: Instructions>(&self, cpu: &mut I) -> (r: Result<u8, InstructionError>)
        ensures
            I::performs_add_sp16(*old(cpu), *self, *final(cpu), r),
    {
        cpu.add_sp16(self)
    }
}

impl OpCode for Adc {
    fn execute<I: Instructions>(&self, cpu: &mut I) -> (r: Result<u8, InstructionError>)
        ensures
            I::performs_adc(*old(cpu), *self, *final(cpu), r),
    {
        cpu.adc(self)
    }
}

impl OpCode for Sub8 {
    fn execute<I: Instructions>(&self, cpu: &mut I) -> (r: Result<u8, InstructionError>)
        ensures
            I::performs_sub8(*old(cpu), *self, *final(cpu), r),
    {
        cpu.sub8(self)
    }
}

impl OpCode for Sbc8 {
    fn execute<I: Instructions>(&self, cpu: &mut I) -> (r: Result<u8, InstructionError>)
        ensures
            I::performs_sbc8(*old(cpu), *self, *final(cpu), r),
    {
        cpu.sbc8(self)
    }
}

impl OpCode for Cp8 {
    fn execute<I: Instructions>(&self, cpu: &mut I) -> (r: Result<u8, InstructionError>)
        ensures
            I::performs_cp8(*old(cpu), *self, *final(cpu), r),
    {
        cpu.cp8(self)
    }
}

/// A decoded instruction: one variant per instruction family.
#[derive(Debug, Clone, Copy, PartialEq, Eq, Structural)]
pub enum Instruction {
    Add8(Add8),
    Add16(Add16),
    AddSP16(AddSP16),
    Adc(Adc),
    Sub8(Sub8),
    Sbc8(Sbc8),
    Cp8(Cp8),
}

impl Instruction {
    /// What the handler's operation for this instruction's family promises.
    pub open spec fn performed_by<I: Instructions>(
        self,
        before: I,
        after: I,
        r: Result<u8, InstructionError>,
    ) -> bool {
        match self {
            Instruction::Add8(op) => I::performs_add8(before, op, after, r),
            Instruction::Add16(op) => I::performs_add16(before, op, after, r),
            Instruction::AddSP16(op) => I::performs_add_sp16(before, op, after, r),
            Instruction::Adc(op) => I::performs_adc(before, op, after, r),
            Instruction::Sub8(op) => I::performs_sub8(before, op, after, r),
            Instruction::Sbc8(op) => I::performs_sbc8(before, op, after, r),
            Instruction::Cp8(op) => I::performs_cp8(before, op, after, r),
        }
    }

    pub open spec fn spec_operand(self) -> Operand {
        match self {
            Instruction::Add8(op) => op.operand,
            Instruction::Add16(op) => op.operand,
            Instruction::AddSP16(op) => op.operand,
            Instruction::Adc(op) => op.operand,
            Instruction::Sub8(op) => op.operand,
            Instruction::Sbc8(op) => op.operand,
            Instruction::Cp8(op) => op.operand,
        }
    }

    pub open spec fn spec_cycles(self) -> u8 {
        match self {
            Instruction::Add8(op) => op.cycles,
            Instruction::Add16(op) => op.cycles,
            Instruction::AddSP16(op) => op.cycles,
            Instruction::Adc(op) => op.cycles,
            Instruction::Sub8(op) => op.cycles,
            Instruction::Sbc8(op) => op.cycles,
            Instruction::Cp8(op) => op.cycles,
        }
    }

    /// Where the instruction takes its data from.
    pub fn operand(&self) -> (r: Operand)
        ensures
            r == self.spec_operand(),
    {
        match self {
            Instruction::Add8(op) => op.operand,
            Instruction::Add16(op) => op.operand,
            Instruction::AddSP16(op) => op.operand,
            Instruction::Adc(op) => op.operand,
            Instruction::Sub8(op) => op.operand,
            Instruction::Sbc8(op) => op.operand,
            Instruction::Cp8(op) => op.operand,
        }
    }

    /// The instruction's cycle count.
    pub fn cycles(&self) -> (r: u8)
        ensures
            r == self.spec_cycles(),
    {
        match self {
            Instruction::Add8(op) => op.cycles,
            Instruction::Add16(op) => op.cycles,
            Instruction::AddSP16(op) => op.cycles,
            Instruction::Adc(op) => op.cycles,
            Instruction::Sub8(op) => op.cycles,
            Instruction::Sbc8(op) => op.cycles,
            Instruction::Cp8(op) => op.cycles,
        }
    }
}

impl OpCode for Instruction {
    fn execute<I: Instructions>(&self, cpu: &mut I) -> (r: Result<u8, InstructionError>)
        ensures
            self.performed_by(*old(cpu), *final(cpu), r),
    {
        match self {
            Instruction::Add8(op) => op.execute(cpu),
            Instruction::Add16(op) => op.execute(cpu),
            Instruction::AddSP16(op) => op.execute(cpu),
            Instruction::Adc(op) => op.execute(cpu),
            Instruction::Sub8(op) => op.execute(cpu),
            Instruction::Sbc8(op) => op.execute(cpu),
            Instruction::Cp8(op) => op.execute(cpu),
        }
    }
}

} // verus!
