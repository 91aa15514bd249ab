use vstd::prelude::*;
use vstd::string::*;

use crate::opcode::{Adc, Add16, Add8, AddSP16, Cp8, Sbc8, Sub8};

verus! {

/// Why an instruction could not be executed.
#[derive(Debug, PartialEq, Eq)]
pub enum Error {
    /// Indicates that the operand is invalid for the given opcode.
    InvalidOperand(String),
    /// The instruction failed to execute.
    Failed(String),
}

/// What an execution error says, as text.
pub enum ErrorView {
    InvalidOperand(Seq<char>),
    Failed(Seq<char>),
}

impl View for Error {
    type V = ErrorView;

    open spec fn view(&self) -> ErrorView {
        match self {
            Error::InvalidOperand(s) => ErrorView::InvalidOperand(s@),
            Error::Failed(s) => ErrorView::Failed(s@),
        }
    }
}

/// The outcome of an instruction as the contracts speak of it: its cycle count, or its error.
pub open spec fn outcome(r: Result<u8, Error>) -> Result<u8, ErrorView> {
    match r {
        Ok(cycles) => Ok(cycles),
        Err(e) => Err(e@),
    }
}

impl Error {
    pub open spec fn spec_text(self) -> Seq<char> {
        match self@ {
            ErrorView::InvalidOperand(s) => "Invalid operand: "@ + s,
            ErrorView::Failed(s) => "Instruction failed: "@ + s,
        }
    }

    /// The error as a sentence.
    pub fn to_string(&self) -> (r: String)
        ensures
            r@ == self.spec_text(),
    {
        match self {
            Error::InvalidOperand(s) => String::from_str("Invalid operand: ").concat(s.as_str()),
            Error::Failed(s) => String::from_str("Instruction failed: ").concat(s.as_str()),
        }
    }
}

/// The operations of every instruction family: what executing an instruction does to the
/// machine that implements this trait.
///
/// Each operation returns the cycle count of the instruction, or why it could not run. The spec
/// functions say what an implementation promises of each operation; by default, nothing.
pub trait Instructions: Sized {
    open spec fn performs_add8(before: Self, opcode: Add8, after: Self, r: Result<u8, Error>) -> bool {
        true
    }

    open spec fn performs_add16(before: Self, opcode: Add16, after: Self, r: Result<u8, Error>) -> bool {
        true
    }

    open spec fn performs_add_sp16(
        before: Self,
        opcode: AddSP16,
        after: Self,
        r: Result<u8, Error>,
    ) -> bool {
        true
    }

    open spec fn performs_adc(before: Self, opcode: Adc, after: Self, r: Result<u8, Error>) -> bool {
        true
    }

    open spec fn performs_sub8(before: Self, opcode: Sub8, after: Self, r: Result<u8, Error>) -> bool {
        true
    }

    open spec fn performs_sbc8(before: Self, opcode: Sbc8, after: Self, r: Result<u8, Error>) -> bool {
        true
    }

    open spec fn performs_cp8(before: Self, opcode: Cp8, after: Self, r: Result<u8, Error>) -> bool {
        true
    }

    fn add8(&mut self, opcode: &Add8) -> (r: Result<u8, Error>)
        ensures
            Self::performs_add8(*old(self), *opcode, *final(self), r),
    ;

    fn add16(&mut self, opcode: &Add16) -> (r: Result<u8, Error>)
        ensures
            Self::performs_add16(*old(self), *opcode, *final(self), r),
    ;

    fn add_sp16(&mut self, opcode: &AddSP16) -> (r: Result<u8, Error>)
        ensures
            Self::performs_add_sp16(*old(self), *opcode, *final(self), r),
    ;

    fn adc(&mut self, opcode: &Adc) -> (r: Result<u8, Error>)
        ensures
            Self::performs_adc(*old(self), *opcode, *final(self), r),
    ;

    fn sub8(&mut self, opcode: &Sub8) -> (r: Result<u8, Error>)
        ensures
            Self::performs_sub8(*old(self), *opcode, *final(self), r),
    ;

    fn sbc8(&mut self, opcode: &Sbc8) -> (r: Result<u8, Error>)
        ensures
            Self::performs_sbc8(*old(self), *opcode, *final(self), r),
    ;

    fn cp8(&mut self, opcode: &Cp8) -> (r: Result<u8, Error>)
        ensures
            Self::performs_cp8(*old(self), *opcode, *final(self), r),
    ;
}

} // verus!
