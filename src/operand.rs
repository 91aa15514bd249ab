use vstd::prelude::*;
use vstd::string::*;

verus! {

/// An 8-bit register.
#[derive(Debug, PartialEq, Eq, Copy, Clone, Structural)]
pub enum Register8 {
    A,
    B,
    C,
    D,
    E,
    H,
    L,
}

/// A 16-bit register: a register pair or the stack pointer.
#[derive(Debug, PartialEq, Eq, Copy, Clone, Structural)]
pub enum Register16 {
    BC,
    DE,
    HL,
    SP,
}

/// A memory operand, addressed through a register pair.
#[derive(Debug, PartialEq, Eq, Copy, Clone, Structural)]
pub enum Memory {
    HL,
    BC,
    DE,
    /// Through HL, then HL is incremented.
    HLI,
    /// Through HL, then HL is decremented.
    HLD,
}

/// Where an instruction takes its data from.
#[derive(Debug, PartialEq, Eq, Copy, Clone, Structural)]
pub enum Operand {
    Register8(Register8),
    Register16(Register16),
    /// The byte that follows the opcode.
    Imm8,
    /// The two bytes that follow the opcode.
    Imm16,
    /// The byte that follows the opcode, read as a signed value.
    ImmSigned8,
    Memory(Memory),
}

impl Register8 {
    pub open spec fn spec_name(self) -> Seq<char> {
        match self {
            Register8::A => "A"@,
            Register8::B => "B"@,
            Register8::C => "C"@,
            Register8::D => "D"@,
            Register8::E => "E"@,
            Register8::H => "H"@,
            Register8::L => "L"@,
        }
    }

    /// The register's name.
    pub fn name(&self) -> (r: String)
        ensures
            r@ == self.spec_name(),
    {
        match self {
            Register8::A => String::from_str("A"),
            Register8::B => String::from_str("B"),
            Register8::C => String::from_str("C"),
            Register8::D => String::from_str("D"),
            Register8::E => String::from_str("E"),
            Register8::H => String::from_str("H"),
            Register8::L => String::from_str("L"),
        }
    }
}

impl Register16 {
    pub open spec fn spec_name(self) -> Seq<char> {
        match self {
            Register16::BC => "BC"@,
            Register16::DE => "DE"@,
            Register16::HL => "HL"@,
            Register16::SP => "SP"@,
        }
    }

    /// The register's name.
    pub fn name(&self) -> (r: String)
        ensures
            r@ == self.spec_name(),
    {
        match self {
            Register16::BC => String::from_str("BC"),
            Register16::DE => String::from_str("DE"),
            Register16::HL => String::from_str("HL"),
            Register16::SP => String::from_str("SP"),
        }
    }
}

impl Memory {
    pub open spec fn spec_name(self) -> Seq<char> {
        match self {
            Memory::HL => "HL"@,
            Memory::BC => "BC"@,
            Memory::DE => "DE"@,
            Memory::HLI => "HLI"@,
            Memory::HLD => "HLD"@,
        }
    }

    /// The addressing mode's name.
    pub fn name(&self) -> (r: String)
        ensures
            r@ == self.spec_name(),
    {
        match self {
            Memory::HL => String::from_str("HL"),
            Memory::BC => String::from_str("BC"),
            Memory::DE => String::from_str("DE"),
            Memory::HLI => String::from_str("HLI"),
            Memory::HLD => String::from_str("HLD"),
        }
    }
}

impl Operand {
    pub open spec fn spec_name(self) -> Seq<char> {
        match self {
            Operand::Register8(r) => "Register8("@ + r.spec_name() + ")"@,
            Operand::Register16(r) => "Register16("@ + r.spec_name() + ")"@,
            Operand::Imm8 => "Imm8"@,
            Operand::Imm16 => "Imm16"@,
            Operand::ImmSigned8 => "ImmSigned8"@,
            Operand::Memory(m) => "Memory("@ + m.spec_name() + ")"@,
        }
    }

    /// The operand's name, as in `Register8(B)` or `Imm8`.
    pub fn name(&self) -> (r: String)
        ensures
            r@ == self.spec_name(),
    {
        match self {
            Operand::Register8(r) => String::from_str("Register8(").concat(r.name().as_str()).concat(")"),
            Operand::Register16(r) => String::from_str("Register16(").concat(r.name().as_str()).concat(
                ")",
            ),
            Operand::Imm8 => String::from_str("Imm8"),
            Operand::Imm16 => String::from_str("Imm16"),
            Operand::ImmSigned8 => String::from_str("ImmSigned8"),
            Operand::Memory(m) => String::from_str("Memory(").concat(m.name().as_str()).concat(")"),
        }
    }
}

} // verus!
