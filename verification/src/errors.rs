//! Typed errors for decoding and execution, and the overall run outcome.

use vstd::prelude::*;

use crate::instructions::Instructions;

verus! {

/// A fault found while decoding raw words; loading aborts entirely and no
/// partial program is run.
#[derive(Debug, Clone, Copy, PartialEq, Eq, Structural)]
pub enum DecodeError {
    /// The opcode byte of the word at `word_index` names no instruction.
    InvalidOpcode { word_index: usize, opcode: u8 },
    /// The mode field of the word at `word_index` is not usable for its
    /// opcode.
    InvalidMode { word_index: usize, mode: u32 },
    /// The word at `word_index` asks for an extension word, but the input
    /// ends before one.
    TruncatedExtension { word_index: usize },
}

/// A fault raised while executing one instruction; the run loop stops and
/// surfaces it together with the failing instruction index.
#[derive(Debug, Clone, Copy, PartialEq, Eq, Structural)]
pub enum RuntimeError {
    /// A memory access of `width` bytes starting at `address` does not lie
    /// within the memory's capacity.
    OutOfBoundsMemoryAccess { address: u64, width: u32 },
    /// A general-purpose register index outside `0..16`.
    InvalidRegisterIndex { index: usize },
    /// The program counter ran past the end of the decoded program without
    /// reaching a halt instruction.
    ProgramCounterOverrun,
    /// The opcode is part of the encoding but has no execute semantics.
    UnimplementedOpcode { opcode: Instructions },
}

/// How a run ended.
#[derive(Debug, Clone, Copy, PartialEq, Eq, Structural)]
pub enum RunResult {
    /// A halt instruction was executed.
    Halted,
    /// Execution faulted; `instruction_index` is the program counter at the
    /// failing instruction.
    Fault { error: RuntimeError, instruction_index: usize },
    /// The externally supplied maximum instruction count was reached before
    /// a halt.
    StepLimitExceeded,
}

} // verus!
