use vstd::prelude::*;
use vstd::string::*;

use crate::opcode::{
    Adc, Add16, Add8, AddSP16, Cp8, Instruction, Sbc8, Sub8, adc_rule, add16_rule, add8_rule,
    add_sp16_rule, cp8_rule, sbc8_rule, sub8_rule,
};
use crate::text::{decimal_text, decimal_u8};

verus! {

/// Why an opcode byte could not be decoded.
#[derive(Debug, Clone, Copy, PartialEq, Eq, Structural)]
pub enum Error {
    /// Indicates that the binary opcode is invalid.
    /// The invalid opcode is the value of the enum.
    InvalidOpcode(u8),
}

impl Error {
    pub open spec fn spec_text(self) -> Seq<char> {
        match self {
            Error::InvalidOpcode(opcode) => "Opcode "@ + decimal_text(opcode as nat)
                + " is not supported."@,
        }
    }

    /// The error as a sentence, with the opcode in decimal.
    pub fn to_string(&self) -> (r: String)
        ensures
            r@ == self.spec_text(),
    {
        match self {
            Error::InvalidOpcode(opcode) => String::from_str("Opcode ").concat(
                decimal_u8(*opcode).as_str(),
            ).concat(" is not supported."),
        }
    }
}

/// The answer of a decode rule as a decode result: the instruction, or the opcode rejected.
pub open spec fn claim_result(claim: Option<Instruction>, opcode: u8) -> Result<Instruction, Error> {
    match claim {
        Some(instruction) => Ok(instruction),
        None => Err(Error::InvalidOpcode(opcode)),
    }
}

/// Turns an opcode byte into an instruction value.
pub trait Decoder {
    /// What `decode` returns for `opcode`.
    spec fn spec_decode(&self, opcode: u8) -> Result<Instruction, Error>;

    /// Serialize the given binary opcode into an OpCode type.
    /// Errors out if the given opcode cannot be decoded.
    fn decode(&self, opcode: u8) -> (r: Result<Instruction, Error>)
        ensures
            r == self.spec_decode(opcode),
    ;
}

/// An instruction family, as a decode rule of the registry.
#[derive(Debug, Clone, Copy, PartialEq, Eq, Structural)]
pub enum Family {
    Add8,
    Add16,
    AddSP16,
    Adc,
    Sub8,
    Sbc8,
    Cp8,
}

impl Family {
    /// The instruction that this family's table gives for `opcode`, if the family claims it.
    pub open spec fn spec_claim(self, opcode: u8) -> Option<Instruction> {
        match self {
            Family::Add8 => match add8_rule(opcode) {
                Some((operand, cycles)) => Some(Instruction::Add8(Add8 { operand, cycles })),
                None => None,
            },
            Family::Add16 => match add16_rule(opcode) {
                Some((operand, cycles)) => Some(Instruction::Add16(Add16 { operand, cycles })),
                None => None,
            },
            Family::AddSP16 => match add_sp16_rule(opcode) {
                Some((operand, cycles)) => Some(Instruction::AddSP16(AddSP16 { operand, cycles })),
                None => None,
            },
            Family::Adc => match adc_rule(opcode) {
                Some((operand, cycles)) => Some(Instruction::Adc(Adc { operand, cycles })),
                None => None,
            },
            Family::Sub8 => match sub8_rule(opcode) {
                Some((operand, cycles)) => Some(Instruction::Sub8(Sub8 { operand, cycles })),
                None => None,
            },
            Family::Sbc8 => match sbc8_rule(opcode) {
                Some((operand, cycles)) => Some(Instruction::Sbc8(Sbc8 { operand, cycles })),
                None => None,
            },
            Family::Cp8 => match cp8_rule(opcode) {
                Some((operand, cycles)) => Some(Instruction::Cp8(Cp8 { operand, cycles })),
                None => None,
            },
        }
    }

    /// Decodes `opcode` with this family's table.
    pub fn decode(&self, opcode: u8) -> (r: Result<Instruction, Error>)
        ensures
            r == claim_result(self.spec_claim(opcode), opcode),
    {
        match self {
            Family::Add8 => Add8Decoder.decode(opcode),
            Family::Add16 => Add16Decoder.decode(opcode),
            Family::AddSP16 => AddSP16Decoder.decode(opcode),
            Family::Adc => AdcDecoder.decode(opcode),
            Family::Sub8 => Sub8Decoder.decode(opcode),
            Family::Sbc8 => Sbc8Decoder.decode(opcode),
            Family::Cp8 => Cp8Decoder.decode(opcode),
        }
    }
}

/// The decode rule of the 8-bit add family.
pub struct Add8Decoder;

impl Decoder for Add8Decoder {
    open spec fn spec_decode(&self, opcode: u8) -> Result<Instruction, Error> {
        claim_result(Family::Add8.spec_claim(opcode), opcode)
    }

    fn decode(&self, opcode: u8) -> (r: Result<Instruction, Error>) {
        match Add8::decode(opcode) {
            Ok(op) => Ok(Instruction::Add8(op)),
            Err(e) => Err(e),
        }
    }
}

/// The decode rule of the 16-bit add family.
pub struct Add16Decoder;

impl Decoder for Add16Decoder {
    open spec fn spec_decode(&self, opcode: u8) -> Result<Instruction, Error> {
        claim_result(Family::Add16.spec_claim(opcode), opcode)
    }

    fn decode(&self, opcode: u8) -> (r: Result<Instruction, Error>) {
        match Add16::decode(opcode) {
            Ok(op) => Ok(Instruction::Add16(op)),
            Err(e) => Err(e),
        }
    }
}

/// The decode rule of the stack-pointer add.
pub struct AddSP16Decoder;

impl Decoder for AddSP16Decoder {
    open spec fn spec_decode(&self, opcode: u8) -> Result<Instruction, Error> {
        claim_result(Family::AddSP16.spec_claim(opcode), opcode)
    }

    fn decode(&self, opcode: u8) -> (r: Result<Instruction, Error>) {
        match AddSP16::decode(opcode) {
            Ok(op) => Ok(Instruction::AddSP16(op)),
            Err(e) => Err(e),
        }
    }
}

/// The decode rule of the add-with-carry family.
pub struct AdcDecoder;

impl Decoder for AdcDecoder {
    open spec fn spec_decode(&self, opcode: u8) -> Result<Instruction, Error> {
        claim_result(Family::Adc.spec_claim(opcode), opcode)
    }

    fn decode(&self, opcode: u8) -> (r: Result<Instruction, Error>) {
        match Adc::decode(opcode) {
            Ok(op) => Ok(Instruction::Adc(op)),
            Err(e) => Err(e),
        }
    }
}

/// The decode rule of the subtract family.
pub struct Sub8Decoder;

impl Decoder for Sub8Decoder {
    open spec fn spec_decode(&self, opcode: u8) -> Result<Instruction, Error> {
        claim_result(Family::Sub8.spec_claim(opcode), opcode)
    }

    fn decode(&self, opcode: u8) -> (r: Result<Instruction, Error>) {
        match Sub8::decode(opcode) {
            Ok(op) => Ok(Instruction::Sub8(op)),
            Err(e) => Err(e),
        }
    }
}

/// The decode rule of the subtract-with-carry family.
pub struct Sbc8Decoder;

impl Decoder for Sbc8Decoder {
    open spec fn spec_decode(&self, opcode: u8) -> Result<Instruction, Error> {
        claim_result(Family::Sbc8.spec_claim(opcode), opcode)
    }

    fn decode(&self, opcode: u8) -> (r: Result<Instruction, Error>) {
        match Sbc8::decode(opcode) {
            Ok(op) => Ok(Instruction::Sbc8(op)),
            Err(e) => Err(e),
        }
    }
}

/// The decode rule of the compare family.
pub struct Cp8Decoder;

impl Decoder for Cp8Decoder {
    open spec fn spec_decode(&self, opcode: u8) -> Result<Instruction, Error> {
        claim_result(Family::Cp8.spec_claim(opcode), opcode)
    }

    fn decode(&self, opcode: u8) -> (r: Result<Instruction, Error>) {
        match Cp8::decode(opcode) {
            Ok(op) => Ok(Instruction::Cp8(op)),
            Err(e) => Err(e),
        }
    }
}

/// The order in which the registry tries the families.
pub open spec fn registry_order() -> Seq<Family> {
    seq![
        Family::Add8,
        Family::Add16,
        Family::AddSP16,
        Family::Adc,
        Family::Sub8,
        Family::Sbc8,
        Family::Cp8,
    ]
}

/// What the first of `families` that claims `opcode` gives for it.
pub open spec fn first_claim(families: Seq<Family>, opcode: u8) -> Option<Instruction>
    decreases families.len(),
{
    if families.len() == 0 {
        None
    } else {
        match families[0].spec_claim(opcode) {
            Some(instruction) => Some(instruction),
            None => first_claim(families.drop_first(), opcode),
        }
    }
}

/// The instruction that the registry decodes `opcode` to, if any family claims it.
pub open spec fn decode_table(opcode: u8) -> Option<Instruction> {
    first_claim(registry_order(), opcode)
}

/// The decoder registry: every instruction family's rule, tried in a fixed order; the first
/// family that claims a byte decodes it.
pub struct OpCodeDecoder {
    opcodes: Vec<Family>,
}

impl OpCodeDecoder {
    #[verifier::type_invariant]
    spec fn registered(self) -> bool {
        self.opcodes@ == registry_order()
    }

    /// The registry with every family, in order: 8-bit add, 16-bit add, stack-pointer add,
    /// add with carry, subtract, subtract with carry, compare.
    pub fn new() -> (r: OpCodeDecoder) {
        let mut opcodes: Vec<Family> = Vec::new();
        opcodes.push(Family::Add8);
        opcodes.push(Family::Add16);
        opcodes.push(Family::AddSP16);
        opcodes.push(Family::Adc);
        opcodes.push(Family::Sub8);
        opcodes.push(Family::Sbc8);
        opcodes.push(Family::Cp8);
        assert(opcodes@ =~= registry_order());
        OpCodeDecoder { opcodes }
    }
}

impl Decoder for OpCodeDecoder {
    open spec fn spec_decode(&self, opcode: u8) -> Result<Instruction, Error> {
        claim_result(decode_table(opcode), opcode)
    }

    fn decode(&self, opcode: u8) -> (r: Result<Instruction, Error>) {
        proof {
            use_type_invariant(self);
        }
        let mut i: usize = 0;
        assert(self.opcodes@.skip(0) =~= self.opcodes@);
        while i < self.opcodes.len()
            invariant
                self.opcodes@ == registry_order(),
                i <= self.opcodes@.len(),
                first_claim(self.opcodes@, opcode) == first_claim(self.opcodes@.skip(i as int), opcode),
            decreases self.opcodes@.len() - i,
        {
            let family = self.opcodes[i];
            proof {
                assert(self.opcodes@.skip(i as int + 1) =~= self.opcodes@.skip(i as int).drop_first());
            }
            match family.decode(opcode) {
                Ok(instruction) => {
                    return Ok(instruction);
                },
                Err(_) => {},
            }
            i = i + 1;
        }
        assert(self.opcodes@.skip(i as int) =~= Seq::<Family>::empty());
        Err(Error::InvalidOpcode(opcode))
    }
}

/// No two instruction families claim the same opcode byte. So the order of the registry does
/// not matter: a byte that a family claims decodes to that family's instruction, and a byte
/// that no family claims fails to decode.
pub proof fn lemma_families_partition_opcodes(opcode: u8)
    ensures
        forall|f: Family, g: Family|
            f.spec_claim(opcode) is Some && g.spec_claim(opcode) is Some ==> f == g,
        forall|f: Family| #[trigger]
            f.spec_claim(opcode) is Some ==> decode_table(opcode) == f.spec_claim(opcode),
        (forall|f: Family| #[trigger] f.spec_claim(opcode) is None) ==> decode_table(opcode) is None,
{
    reveal_with_fuel(first_claim, 8);
    let order = registry_order();
    assert(order.drop_first() =~= seq![
        Family::Add16, Family::AddSP16, Family::Adc, Family::Sub8, Family::Sbc8, Family::Cp8,
    ]);
    assert(order.drop_first().drop_first() =~= seq![
        Family::AddSP16, Family::Adc, Family::Sub8, Family::Sbc8, Family::Cp8,
    ]);
    assert(order.drop_first().drop_first().drop_first() =~= seq![
        Family::Adc, Family::Sub8, Family::Sbc8, Family::Cp8,
    ]);
    assert(order.drop_first().drop_first().drop_first().drop_first() =~= seq![
        Family::Sub8, Family::Sbc8, Family::Cp8,
    ]);
    assert(order.drop_first().drop_first().drop_first().drop_first().drop_first() =~= seq![
        Family::Sbc8, Family::Cp8,
    ]);
    assert(order.drop_first().drop_first().drop_first().drop_first().drop_first().drop_first()
        =~= seq![Family::Cp8]);
    assert(order.drop_first().drop_first().drop_first().drop_first().drop_first().drop_first().drop_first()
        =~= Seq::<Family>::empty());
}

} // verus!
