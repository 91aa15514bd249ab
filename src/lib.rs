pub mod cpu;
pub mod decoder;
pub mod instructions;
pub mod opcode;
pub mod operand;
pub mod operations;
pub mod registers;
pub mod rom;
pub mod sm83;
pub mod text;
