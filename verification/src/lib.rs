//! A small virtual CPU: a fixed-width instruction decoder and an execute
//! loop over a flat byte-addressable memory and a bank of sixteen 32-bit
//! general-purpose registers with status flags.
//!
//! Raw 32-bit words are decoded into (opcode, addressing mode, operands)
//! triples; the executor runs a fetch-decode-execute cycle until a halt
//! instruction, a runtime fault, or an externally supplied step limit.

pub mod errors;
pub mod instructions;
pub mod memory;
pub mod registers;
pub mod decode;
pub mod vm;
