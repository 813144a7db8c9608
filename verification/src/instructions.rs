//! The instruction set: opcodes and addressing modes.

use vstd::prelude::*;

verus! {

/// The full opcode set. Only a subset has execute semantics today
/// (`HLT`, `SET`, `SUB`, `MUL`, `SD`, `CMP`, `IFN`, `JMP`); executing any
/// other opcode surfaces an `UnimplementedOpcode` fault rather than
/// silently doing nothing.
#[derive(Debug, Clone, Copy, PartialEq, Eq, Structural)]
pub enum Instructions {
    HLT,
    PSH,
    POP,
    SET,
    MOV,
    ADD,
    SUB,
    MUL,
    DIV,
    AND,
    OR,
    XOR,
    NOT,
    SL,
    SR,
    SD,
    LD,
    SD16,
    LD16,
    SD8,
    LD8,
    LD16S,
    LD8S,
    CMP,
    IF,
    IFN,
    IFG,
    IFL,
    IFE,
    IFNE,
    JMP,
    CALL,
    RET,
}

/// How the low 20 argument bits of a raw word are interpreted.
#[derive(Debug, Clone, Copy, PartialEq, Eq, Structural)]
pub enum InstructionMode {
    Register,
    Immediate,
    RegisterIndirect,
    BaseOffset,
}

impl Instructions {
    /// The opcode assigned to each byte value, in declaration order
    /// (`HLT` is byte 0, `RET` is byte 32); bytes past the set decode to
    /// `None`.
    pub open spec fn spec_from_u8(v: u8) -> Option<Instructions> {
        if v == 0 {
            Some(Instructions::HLT)
        } else if v == 1 {
            Some(Instructions::PSH)
        } else if v == 2 {
            Some(Instructions::POP)
        } else if v == 3 {
            Some(Instructions::SET)
        } else if v == 4 {
            Some(Instructions::MOV)
        } else if v == 5 {
            Some(Instructions::ADD)
        } else if v == 6 {
            Some(Instructions::SUB)
        } else if v == 7 {
            Some(Instructions::MUL)
        } else if v == 8 {
            Some(Instructions::DIV)
        } else if v == 9 {
            Some(Instructions::AND)
        } else if v == 10 {
            Some(Instructions::OR)
        } else if v == 11 {
            Some(Instructions::XOR)
        } else if v == 12 {
            Some(Instructions::NOT)
        } else if v == 13 {
            Some(Instructions::SL)
        } else if v == 14 {
            Some(Instructions::SR)
        } else if v == 15 {
            Some(Instructions::SD)
        } else if v == 16 {
            Some(Instructions::LD)
        } else if v == 17 {
            Some(Instructions::SD16)
        } else if v == 18 {
            Some(Instructions::LD16)
        } else if v == 19 {
            Some(Instructions::SD8)
        } else if v == 20 {
            Some(Instructions::LD8)
        } else if v == 21 {
            Some(Instructions::LD16S)
        } else if v == 22 {
            Some(Instructions::LD8S)
        } else if v == 23 {
            Some(Instructions::CMP)
        } else if v == 24 {
            Some(Instructions::IF)
        } else if v == 25 {
            Some(Instructions::IFN)
        } else if v == 26 {
            Some(Instructions::IFG)
        } else if v == 27 {
            Some(Instructions::IFL)
        } else if v == 28 {
            Some(Instructions::IFE)
        } else if v == 29 {
            Some(Instructions::IFNE)
        } else if v == 30 {
            Some(Instructions::JMP)
        } else if v == 31 {
            Some(Instructions::CALL)
        } else if v == 32 {
            Some(Instructions::RET)
        } else {
            None
        }
    }

    /// Decode one opcode byte.
    pub fn from_u8(v: u8) -> (r: Option<Instructions>)
        ensures
            r == Instructions::spec_from_u8(v),
    {
        match v {
            0 => Some(Instructions::HLT),
            1 => Some(Instructions::PSH),
            2 => Some(Instructions::POP),
            3 => Some(Instructions::SET),
            4 => Some(Instructions::MOV),
            5 => Some(Instructions::ADD),
            6 => Some(Instructions::SUB),
            7 => Some(Instructions::MUL),
            8 => Some(Instructions::DIV),
            9 => Some(Instructions::AND),
            10 => Some(Instructions::OR),
            11 => Some(Instructions::XOR),
            12 => Some(Instructions::NOT),
            13 => Some(Instructions::SL),
            14 => Some(Instructions::SR),
            15 => Some(Instructions::SD),
            16 => Some(Instructions::LD),
            17 => Some(Instructions::SD16),
            18 => Some(Instructions::LD16),
            19 => Some(Instructions::SD8),
            20 => Some(Instructions::LD8),
            21 => Some(Instructions::LD16S),
            22 => Some(Instructions::LD8S),
            23 => Some(Instructions::CMP),
            24 => Some(Instructions::IF),
            25 => Some(Instructions::IFN),
            26 => Some(Instructions::IFG),
            27 => Some(Instructions::IFL),
            28 => Some(Instructions::IFE),
            29 => Some(Instructions::IFNE),
            30 => Some(Instructions::JMP),
            31 => Some(Instructions::CALL),
            32 => Some(Instructions::RET),
            _ => None,
        }
    }
}

impl InstructionMode {
    /// The addressing mode assigned to each 2-bit field value.
    pub open spec fn spec_from_bits(v: u32) -> Option<InstructionMode> {
        if v == 0 {
            Some(InstructionMode::Register)
        } else if v == 1 {
            Some(InstructionMode::Immediate)
        } else if v == 2 {
            Some(InstructionMode::RegisterIndirect)
        } else if v == 3 {
            Some(InstructionMode::BaseOffset)
        } else {
            None
        }
    }

    /// Decode one mode field value.
    pub fn from_bits(v: u32) -> (r: Option<InstructionMode>)
        ensures
            r == InstructionMode::spec_from_bits(v),
    {
        match v {
            0 => Some(InstructionMode::Register),
            1 => Some(InstructionMode::Immediate),
            2 => Some(InstructionMode::RegisterIndirect),
            3 => Some(InstructionMode::BaseOffset),
            _ => None,
        }
    }
}

} // verus!
