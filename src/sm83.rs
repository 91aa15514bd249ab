use vstd::prelude::*;
use vstd::string::*;

use crate::cpu::{Cpu, Error, ErrorView, tick_outcome};
use crate::decoder::{Decoder, Family, OpCodeDecoder, lemma_families_partition_opcodes};
use crate::instructions::{
    Error as InstructionError, ErrorView as InstructionErrorView, Instructions, outcome,
};
use crate::opcode::{Adc, Add16, Add8, AddSP16, Cp8, Instruction, OpCode, Sbc8, Sub8};
use crate::operand::{Memory, Operand, Register16, Register8};
use crate::operations::{
    add_u16, add_u8, cp_u8, sbc_u8, spec_add_u16, spec_add_u8, spec_cp_u8, spec_sbc_u8,
    spec_sub_u8, sub_u8,
};
use crate::registers::{Flags, Registers};
use crate::rom::{Error as RomError, ReadOnlyMemory};

verus! {

/// The value of an 8-bit register.
pub open spec fn register8_value(regs: Registers, reg: Register8) -> u8 {
    match reg {
        Register8::A => regs.a,
        Register8::B => regs.b,
        Register8::C => regs.c,
        Register8::D => regs.d,
        Register8::E => regs.e,
        Register8::H => regs.h,
        Register8::L => regs.l,
    }
}

/// The value of a 16-bit register.
pub open spec fn register16_value(regs: Registers, reg: Register16) -> u16 {
    match reg {
        Register16::BC => regs.spec_bc(),
        Register16::DE => regs.spec_de(),
        Register16::HL => regs.spec_hl(),
        Register16::SP => regs.sp,
    }
}

/// The registers after a byte is fetched: the program counter moves on by one, wrapping.
pub open spec fn advance_pc(regs: Registers) -> Registers {
    Registers { pc: ((regs.pc + 1) % 0x10000) as u16, ..regs }
}

/// The text of an execution failure caused by a failed memory read.
pub open spec fn read_failure_text(e: RomError) -> Seq<char> {
    "Failed to read ROM: "@ + e.spec_text()
}

/// The value of the carry flag as a number.
pub open spec fn carry_value(f: Flags) -> u8 {
    if f.c {
        1
    } else {
        0
    }
}

/// A byte read as a signed value and widened to 16 bits.
pub open spec fn sign_extend(b: u8) -> u16 {
    if b < 0x80 {
        b as u16
    } else {
        (b + 0xFF00) as u16
    }
}

/// Resolving the operand of an 8-bit accumulator instruction of the family named `family`:
/// the operand's value and the registers after, or why it cannot be resolved. A register is
/// read; the immediate byte is fetched at the program counter, which moves past it; any other
/// operand is refused, the byte at HL among them since memory operands are not supported yet.
pub open spec fn spec_operand8<M: ReadOnlyMemory>(
    rom: M,
    regs: Registers,
    operand: Operand,
    family: Seq<char>,
) -> Result<(u8, Registers), InstructionErrorView> {
    match operand {
        Operand::Register8(reg) => Ok((register8_value(regs, reg), regs)),
        Operand::Memory(Memory::HL) => Err(
            InstructionErrorView::InvalidOperand(operand.spec_name() + " not implemented yet."@),
        ),
        Operand::Imm8 => match rom.spec_read(regs.pc) {
            Ok(b) => Ok((b, advance_pc(regs))),
            Err(e) => Err(InstructionErrorView::Failed(read_failure_text(e))),
        },
        _ => Err(
            InstructionErrorView::InvalidOperand(
                operand.spec_name() + " for instruction "@ + family,
            ),
        ),
    }
}

/// The flags of add with carry: zero and subtract from the second step, half-carry and carry
/// from either step.
pub open spec fn adc_flags(first: Flags, second: Flags) -> Flags {
    Flags { z: second.z, n: second.n, h: first.h || second.h, c: first.c || second.c }
}

/// What running `instruction` does to the registers, reading from `rom`: the registers after
/// and the outcome. On an error the registers are left as they were.
pub open spec fn spec_execute<M: ReadOnlyMemory>(
    rom: M,
    regs: Registers,
    instruction: Instruction,
) -> (Registers, Result<u8, InstructionErrorView>) {
    match instruction {
        Instruction::Add8(op) => match spec_operand8(rom, regs, op.operand, "Add8"@) {
            Ok((v, after)) => {
                let (a, f) = spec_add_u8(after.a, v);
                (Registers { a, f, ..after }, Ok(op.cycles))
            },
            Err(e) => (regs, Err(e)),
        },
        Instruction::Adc(op) => match spec_operand8(rom, regs, op.operand, "Adc"@) {
            Ok((v, after)) => {
                let (a1, f1) = spec_add_u8(after.a, carry_value(after.f));
                let (a2, f2) = spec_add_u8(a1, v);
                (Registers { a: a2, f: adc_flags(f1, f2), ..after }, Ok(op.cycles))
            },
            Err(e) => (regs, Err(e)),
        },
        Instruction::Sub8(op) => match spec_operand8(rom, regs, op.operand, "Sub8"@) {
            Ok((v, after)) => {
                let (a, f) = spec_sub_u8(after.a, v);
                (Registers { a, f, ..after }, Ok(op.cycles))
            },
            Err(e) => (regs, Err(e)),
        },
        Instruction::Sbc8(op) => match spec_operand8(rom, regs, op.operand, "Sbc8"@) {
            Ok((v, after)) => {
                let (a, f) = spec_sbc_u8(after.a, v, carry_value(after.f));
                (Registers { a, f, ..after }, Ok(op.cycles))
            },
            Err(e) => (regs, Err(e)),
        },
        Instruction::Cp8(op) => match spec_operand8(rom, regs, op.operand, "Cp8"@) {
            Ok((v, after)) => (Registers { f: spec_cp_u8(after.a, v), ..after }, Ok(op.cycles)),
            Err(e) => (regs, Err(e)),
        },
        Instruction::Add16(op) => match op.operand {
            Operand::Register16(reg) => {
                let (hl, f) = spec_add_u16(regs.spec_hl(), register16_value(regs, reg));
                (
                    Registers { h: (hl / 0x100) as u8, l: (hl % 0x100) as u8, f, ..regs },
                    Ok(op.cycles),
                )
            },
            _ => (
                regs,
                Err(
                    InstructionErrorView::InvalidOperand(
                        op.operand.spec_name() + " for instruction Add16"@,
                    ),
                ),
            ),
        },
        Instruction::AddSP16(op) => if op.operand == Operand::ImmSigned8 {
            match rom.spec_read(regs.pc) {
                Ok(b) => {
                    let after = advance_pc(regs);
                    let (sp, f) = spec_add_u16(after.sp, sign_extend(b));
                    (Registers { sp, f, ..after }, Ok(op.cycles))
                },
                Err(e) => (regs, Err(InstructionErrorView::Failed(read_failure_text(e)))),
            }
        } else {
            (
                regs,
                Err(
                    InstructionErrorView::InvalidOperand(
                        op.operand.spec_name() + " for instruction AddSP16"@,
                    ),
                ),
            )
        },
    }
}

/// What one tick does: fetch the opcode byte at the program counter and move past it, decode
/// it, and run the instruction. Gives the registers after and the outcome.
pub open spec fn spec_tick<M: ReadOnlyMemory, D: Decoder>(
    rom: M,
    decoder: D,
    regs: Registers,
) -> (Registers, Result<u8, ErrorView>) {
    match rom.spec_read(regs.pc) {
        Err(e) => (regs, Err(ErrorView::Memory(e))),
        Ok(opcode) => {
            let fetched = advance_pc(regs);
            match decoder.spec_decode(opcode) {
                Err(e) => (fetched, Err(ErrorView::Decode(e))),
                Ok(instruction) => {
                    let (after, out) = spec_execute(rom, fetched, instruction);
                    match out {
                        Ok(cycles) => (after, Ok(cycles)),
                        Err(e) => (after, Err(ErrorView::Instruction(e))),
                    }
                },
            }
        },
    }
}

/// The SM83 processor: its registers, the memory it runs from and its opcode decoder.
pub struct Sm83<M: ReadOnlyMemory, D: Decoder> {
    rom: M,
    registers: Registers,
    opcodes: D,
}

impl<M: ReadOnlyMemory, D: Decoder> Sm83<M, D> {
    pub closed spec fn spec_registers(&self) -> Registers {
        self.registers
    }

    pub closed spec fn spec_rom(&self) -> M {
        self.rom
    }

    pub closed spec fn spec_decoder(&self) -> D {
        self.opcodes
    }

    /// Whether `after` is `before` with the registers replaced by `regs`.
    pub open spec fn same_but_registers(before: Self, after: Self, regs: Registers) -> bool {
        &&& after.spec_registers() == regs
        &&& after.spec_rom() == before.spec_rom()
        &&& after.spec_decoder() == before.spec_decoder()
    }

    /// Whether `after` and `r` are what running `instruction` on `before` gives.
    pub open spec fn runs(
        before: Self,
        instruction: Instruction,
        after: Self,
        r: Result<u8, InstructionError>,
    ) -> bool {
        let (regs, out) = spec_execute(before.spec_rom(), before.spec_registers(), instruction);
        &&& Self::same_but_registers(before, after, regs)
        &&& outcome(r) == out
    }

    /// A processor with zeroed registers that runs from `rom` and decodes with `opcode_decoder`.
    pub fn new(rom: M, opcode_decoder: D) -> (r: Self)
        ensures
            r.spec_registers() == Registers::spec_zeroed(),
            r.spec_rom() == rom,
            r.spec_decoder() == opcode_decoder,
    {
        Self { rom, registers: Registers::default(), opcodes: opcode_decoder }
    }

    /// The processor with its registers replaced by `registers`.
    pub fn set_registers(self, registers: Registers) -> (r: Self)
        ensures
            Self::same_but_registers(self, r, registers),
    {
        Sm83 { registers, ..self }
    }

    /// Retrieve a copy of the CPU registers.
    pub fn registers(&self) -> (r: Registers)
        ensures
            r == self.spec_registers(),
    {
        self.registers
    }

    /// Reads the byte at the program counter and moves the counter past it. On a failed read
    /// the registers are left as they were.
    fn read_next_pc(&mut self) -> (r: Result<u8, RomError>)
        ensures
            r == old(self).spec_rom().spec_read(old(self).spec_registers().pc),
            Self::same_but_registers(
                *old(self),
                *final(self),
                if r is Ok {
                    advance_pc(old(self).spec_registers())
                } else {
                    old(self).spec_registers()
                },
            ),
    {
        let byte = self.rom.read(self.registers.pc)?;
        self.registers.pc = self.registers.pc.wrapping_add(1);
        Ok(byte)
    }

    /// Resolves the operand of an 8-bit accumulator instruction of the family named `family`.
    fn get_8bit_operand(&mut self, operand: Operand, family: &str) -> (r: Result<u8, InstructionError>)
        ensures
            match spec_operand8(
                old(self).spec_rom(),
                old(self).spec_registers(),
                operand,
                family@,
            ) {
                Ok((v, regs)) => r == Ok::<u8, InstructionError>(v) && Self::same_but_registers(
                    *old(self),
                    *final(self),
                    regs,
                ),
                Err(e) => r is Err && r->Err_0@ == e && Self::same_but_registers(
                    *old(self),
                    *final(self),
                    old(self).spec_registers(),
                ),
            },
    {
        match operand {
            Operand::Register8(reg) => Ok(self.get_register8_operand(reg)),
            Operand::Memory(Memory::HL) => Err(
                InstructionError::InvalidOperand(operand.name().concat(" not implemented yet.")),
            ),
            Operand::Imm8 => match self.read_next_pc() {
                Ok(byte) => Ok(byte),
                Err(e) => Err(read_failure(e)),
            },
            _ => Err(
                InstructionError::InvalidOperand(
                    operand.name().concat(" for instruction ").concat(family),
                ),
            ),
        }
    }

    fn get_register8_operand(&self, operand: Register8) -> (r: u8)
        ensures
            r == register8_value(self.spec_registers(), operand),
    {
        match operand {
            Register8::A => self.registers.a,
            Register8::B => self.registers.b,
            Register8::C => self.registers.c,
            Register8::D => self.registers.d,
            Register8::E => self.registers.e,
            Register8::H => self.registers.h,
            Register8::L => self.registers.l,
        }
    }

    fn get_register16_operand(&self, operand: Register16) -> (r: u16)
        ensures
            r == register16_value(self.spec_registers(), operand),
    {
        match operand {
            Register16::BC => self.registers.bc(),
            Register16::DE => self.registers.de(),
            Register16::HL => self.registers.hl(),
            Register16::SP => self.registers.sp,
        }
    }
}

impl<M: ReadOnlyMemory, D: Decoder> Instructions for Sm83<M, D> {
    open spec fn performs_add8(before: Self, opcode: Add8, after: Self, r: Result<u8, InstructionError>) -> bool {
        Self::runs(before, Instruction::Add8(opcode), after, r)
    }

    open spec fn performs_add16(before: Self, opcode: Add16, after: Self, r: Result<u8, InstructionError>) -> bool {
        Self::runs(before, Instruction::Add16(opcode), after, r)
    }

    open spec fn performs_add_sp16(before: Self, opcode: AddSP16, after: Self, r: Result<u8, InstructionError>) -> bool {
        Self::runs(before, Instruction::AddSP16(opcode), after, r)
    }

    open spec fn performs_adc(before: Self, opcode: Adc, after: Self, r: Result<u8, InstructionError>) -> bool {
        Self::runs(before, Instruction::Adc(opcode), after, r)
    }

    open spec fn performs_sub8(before: Self, opcode: Sub8, after: Self, r: Result<u8, InstructionError>) -> bool {
        Self::runs(before, Instruction::Sub8(opcode), after, r)
    }

    open spec fn performs_sbc8(before: Self, opcode: Sbc8, after: Self, r: Result<u8, InstructionError>) -> bool {
        Self::runs(before, Instruction::Sbc8(opcode), after, r)
    }

    open spec fn performs_cp8(before: Self, opcode: Cp8, after: Self, r: Result<u8, InstructionError>) -> bool {
        Self::runs(before, Instruction::Cp8(opcode), after, r)
    }

    fn add8(&mut self, opcode: &Add8) -> (r: Result<u8, InstructionError>) {
        let operand = self.get_8bit_operand(opcode.operand, "Add8")?;
        let (sum, flags) = add_u8(self.registers.a, operand);
        self.registers.a = sum;
        self.registers.f = flags;
        Ok(opcode.cycles)
    }

    fn add16(&mut self, opcode: &Add16) -> (r: Result<u8, InstructionError>) {
        let operand: u16 = match opcode.operand {
            Operand::Register16(reg) => self.get_register16_operand(reg),
            _ => {
                return Err(
                    InstructionError::InvalidOperand(
                        opcode.operand.name().concat(" for instruction Add16"),
                    ),
                );
            },
        };

        let (hl, flags) = add_u16(self.registers.hl(), operand);
        self.registers.set_hl(hl);
        self.registers.f = flags;
        Ok(opcode.cycles)
    }

    fn add_sp16(&mut self, opcode: &AddSP16) -> (r: Result<u8, InstructionError>) {
        if opcode.operand != Operand::ImmSigned8 {
            return Err(
                InstructionError::InvalidOperand(
                    opcode.operand.name().concat(" for instruction AddSP16"),
                ),
            );
        }
        let byte = match self.read_next_pc() {
            Ok(byte) => byte,
            Err(e) => {
                return Err(read_failure(e));
            },
        };
        let operand: u16 = byte as i8 as i16 as u16;
        assert(operand == sign_extend(byte)) by (bit_vector)
            requires
                operand == byte as i8 as i16 as u16,
        ;
        let (sp, flags) = add_u16(self.registers.sp, operand);
        self.registers.sp = sp;
        self.registers.f = flags;
        Ok(opcode.cycles)
    }

    fn adc(&mut self, opcode: &Adc) -> (r: Result<u8, InstructionError>) {
        let operand = self.get_8bit_operand(opcode.operand, "Adc")?;
        let carry: u8 = if self.registers.f.contains(Flags::carry()) {
            1
        } else {
            0
        };

        let (with_carry, carry_flags) = add_u8(self.registers.a, carry);
        let (sum, sum_flags) = add_u8(with_carry, operand);
        let mut flags = sum_flags | carry_flags;
        flags.set(Flags::zero(), sum_flags.z);
        flags.set(Flags::subtract(), sum_flags.n);
        self.registers.a = sum;
        self.registers.f = flags;
        Ok(opcode.cycles)
    }

    fn sub8(&mut self, opcode: &Sub8) -> (r: Result<u8, InstructionError>) {
        let operand = self.get_8bit_operand(opcode.operand, "Sub8")?;
        let (difference, flags) = sub_u8(self.registers.a, operand);
        self.registers.a = difference;
        self.registers.f = flags;
        Ok(opcode.cycles)
    }

    fn sbc8(&mut self, opcode: &Sbc8) -> (r: Result<u8, InstructionError>) {
        let operand = self.get_8bit_operand(opcode.operand, "Sbc8")?;
        let carry: u8 = if self.registers.f.contains(Flags::carry()) {
            1
        } else {
            0
        };
        let (difference, flags) = sbc_u8(self.registers.a, operand, carry);
        self.registers.a = difference;
        self.registers.f = flags;
        Ok(opcode.cycles)
    }

    fn cp8(&mut self, opcode: &Cp8) -> (r: Result<u8, InstructionError>) {
        let operand = self.get_8bit_operand(opcode.operand, "Cp8")?;
        self.registers.f = cp_u8(self.registers.a, operand);
        Ok(opcode.cycles)
    }
}

impl<M: ReadOnlyMemory, D: Decoder> Cpu for Sm83<M, D> {
    fn tick(&mut self) -> (r: Result<u8, Error>)
        ensures
            ({
                let (regs, out) = spec_tick(
                    old(self).spec_rom(),
                    old(self).spec_decoder(),
                    old(self).spec_registers(),
                );
                &&& Self::same_but_registers(*old(self), *final(self), regs)
                &&& tick_outcome(r) == out
            }),
    {
        let opcode = match self.read_next_pc() {
            Ok(opcode) => opcode,
            Err(e) => {
                return Err(Error::Memory(e));
            },
        };
        let instruction = match self.opcodes.decode(opcode) {
            Ok(instruction) => instruction,
            Err(e) => {
                return Err(Error::Decode(e));
            },
        };
        match instruction.execute(self) {
            Ok(cycles) => Ok(cycles),
            Err(e) => Err(Error::Instruction(e)),
        }
    }
}

/// The execution error for a failed memory read.
pub fn read_failure(error: RomError) -> (r: InstructionError)
    ensures
        r@ == InstructionErrorView::Failed(read_failure_text(error)),
{
    InstructionError::Failed(String::from_str("Failed to read ROM: ").concat(error.to_string().as_str()))
}

/// Fetching, decoding and running an opcode of the 8-bit add family leaves the accumulator and
/// flags that adding the operand's value to the accumulator gives, and costs the instruction's
/// cycles; an operand that cannot be resolved fails the tick with the program counter past the
/// opcode and nothing else changed.
pub proof fn lemma_add8_round_trip<M: ReadOnlyMemory>(
    rom: M,
    decoder: OpCodeDecoder,
    regs: Registers,
    opcode: u8,
)
    requires
        rom.spec_read(regs.pc) == Ok::<u8, RomError>(opcode),
        Family::Add8.spec_claim(opcode) is Some,
    ensures
        ({
            let op = Family::Add8.spec_claim(opcode)->Some_0->Add8_0;
            let fetched = advance_pc(regs);
            let (after, out) = spec_tick(rom, decoder, regs);
            match spec_operand8(rom, fetched, op.operand, "Add8"@) {
                Ok((v, resolved)) => {
                    &&& out == Ok::<u8, ErrorView>(op.cycles)
                    &&& (after.a, after.f) == spec_add_u8(regs.a, v)
                    &&& after == (Registers { a: after.a, f: after.f, ..resolved })
                },
                Err(e) => out == Err::<u8, ErrorView>(ErrorView::Instruction(e)) && after == fetched,
            }
        }),
{
    lemma_families_partition_opcodes(opcode);
}

/// Fetching, decoding and running an opcode of the 16-bit add family leaves in HL and the flags
/// what adding the register pair's value to HL gives, and costs the instruction's cycles.
pub proof fn lemma_add16_round_trip<M: ReadOnlyMemory>(
    rom: M,
    decoder: OpCodeDecoder,
    regs: Registers,
    opcode: u8,
)
    requires
        rom.spec_read(regs.pc) == Ok::<u8, RomError>(opcode),
        Family::Add16.spec_claim(opcode) is Some,
    ensures
        ({
            let op = Family::Add16.spec_claim(opcode)->Some_0->Add16_0;
            let fetched = advance_pc(regs);
            let (after, out) = spec_tick(rom, decoder, regs);
            let reg = op.operand->Register16_0;
            let (hl, f) = spec_add_u16(regs.spec_hl(), register16_value(fetched, reg));
            &&& op.operand is Register16
            &&& out == Ok::<u8, ErrorView>(op.cycles)
            &&& after.spec_hl() == hl
            &&& after.f == f
            &&& after == (Registers { h: after.h, l: after.l, f: after.f, ..fetched })
        }),
{
    lemma_families_partition_opcodes(opcode);
    let fetched = advance_pc(regs);
    let hl = spec_add_u16(regs.spec_hl(), register16_value(fetched, Family::Add16.spec_claim(opcode)->Some_0->Add16_0.operand->Register16_0)).0;
    assert(crate::registers::pair_value((hl / 0x100) as u8, (hl % 0x100) as u8) == hl);
}

} // verus!
