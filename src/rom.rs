use vstd::prelude::*;
use vstd::string::*;

use crate::text::{hex4, hex4_text};

verus! {

/// Why a memory read failed.
#[derive(Debug, Clone, Copy, PartialEq, Eq, Structural)]
pub enum Error {
    /// The address lies beyond the memory.
    OutOfRange(u16),
}

impl Error {
    pub open spec fn spec_text(self) -> Seq<char> {
        match self {
            Error::OutOfRange(address) => "Address 0x"@ + hex4_text(address) + " is out of range"@,
        }
    }

    /// The error as a sentence, with the address in hexadecimal.
    pub fn to_string(&self) -> (r: String)
        ensures
            r@ == self.spec_text(),
    {
        match self {
            Error::OutOfRange(address) => String::from_str("Address 0x").concat(
                hex4(*address).as_str(),
            ).concat(" is out of range"),
        }
    }
}

/// Memory that can be read a byte at a time.
pub trait ReadOnlyMemory {
    /// What reading `address` gives.
    spec fn spec_read(&self, address: u16) -> Result<u8, Error>;

    /// Read a byte of the ROM at the specific address.
    /// Error out if the address is beyond the allocated memory.
    fn read(&self, address: u16) -> (r: Result<u8, Error>)
        ensures
            r == self.spec_read(address),
    ;
}

/// Read-only memory held in a vector: address `i` holds the vector's byte `i`.
pub struct ROMVec {
    memory: Vec<u8>,
}

impl ROMVec {
    /// The bytes of the memory, from address 0.
    pub closed spec fn spec_bytes(&self) -> Seq<u8> {
        self.memory@
    }

    /// Create a ROMVec, initialized with the data provided.
    pub fn new(data: Vec<u8>) -> (r: ROMVec)
        ensures
            r.spec_bytes() == data@,
    {
        Self { memory: data }
    }
}

impl ReadOnlyMemory for ROMVec {
    open spec fn spec_read(&self, address: u16) -> Result<u8, Error> {
        if (address as int) < self.spec_bytes().len() {
            Ok(self.spec_bytes()[address as int])
        } else {
            Err(Error::OutOfRange(address))
        }
    }

    fn read(&self, address: u16) -> (r: Result<u8, Error>) {
        let index: usize = address as usize;
        if self.memory.len() <= index {
            return Err(Error::OutOfRange(address));
        }
        Ok(self.memory[index])
    }
}

} // verus!
