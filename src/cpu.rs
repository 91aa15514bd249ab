use vstd::prelude::*;

use crate::decoder::Error as DecodeError;
use crate::instructions::{Error as InstructionError, ErrorView as InstructionErrorView};
use crate::rom::Error as RomError;

verus! {

/// Why a tick failed.
#[derive(Debug, PartialEq, Eq)]
pub enum Error {
    /// The opcode byte could not be read.
    Memory(RomError),
    /// The opcode byte is not an instruction.
    Decode(DecodeError),
    /// The instruction could not be executed.
    Instruction(InstructionError),
}

/// What a tick error says: the memory or decode error, or the text of the execution error.
pub enum ErrorView {
    Memory(RomError),
    Decode(DecodeError),
    Instruction(InstructionErrorView),
}

impl View for Error {
    type V = ErrorView;

    open spec fn view(&self) -> ErrorView {
        match self {
            Error::Memory(e) => ErrorView::Memory(*e),
            Error::Decode(e) => ErrorView::Decode(*e),
            Error::Instruction(e) => ErrorView::Instruction(e@),
        }
    }
}

/// The outcome of a tick as the contracts speak of it: its cycle count, or its error.
pub open spec fn tick_outcome(r: Result<u8, Error>) -> Result<u8, ErrorView> {
    match r {
        Ok(cycles) => Ok(cycles),
        Err(e) => Err(e@),
    }
}

/// A processor that runs one instruction at a time.
pub trait Cpu {
    /// Read the next instruction from the program and execute it.
    /// Returns the number of ticks from the instruction.
    fn tick(&mut self) -> Result<u8, Error>;
}

} // verus!
