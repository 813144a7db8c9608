use vcpu::decode::{decode_instructions, words_from_bytes, Parameter};
use vcpu::errors::DecodeError;
use vcpu::instructions::{InstructionMode, Instructions};
use vcpu::memory::Memory;
use vcpu::registers::Registers;

fn word(opcode: u8, mode: u32, args: u32) -> u32 {
    ((opcode as u32) << 24) | (mode << 22) | args
}

#[test]
fn register_mode_fields() {
    // SUB R2, R0, R1 in register mode.
    let words = [word(6, 0, (2 << 12) | (0 << 8) | (1 << 4))];
    let prog = decode_instructions(&words).unwrap();
    assert_eq!(prog.len(), 1);
    assert_eq!(prog[0].0, Instructions::SUB);
    assert_eq!(prog[0].1, InstructionMode::Register);
    let values: Vec<u32> = prog[0].2.iter().map(|p| p.value).collect();
    assert_eq!(values, vec![2, 0, 1]);
}

#[test]
fn immediate_mode_inline_literal() {
    // SET R0, 5 with the 4-bit inline literal.
    let words = [word(3, 1, (0 << 12) | (5 << 4))];
    let prog = decode_instructions(&words).unwrap();
    assert_eq!(prog[0].0, Instructions::SET);
    assert_eq!(prog[0].1, InstructionMode::Immediate);
    let values: Vec<u32> = prog[0].2.iter().map(|p| p.value).collect();
    assert_eq!(values, vec![0, 0, 5]);
}

#[test]
fn base_offset_mode_has_four_operands() {
    let words = [word(3, 3, (1 << 12) | (2 << 8) | (3 << 4) | 0xD)];
    let prog = decode_instructions(&words).unwrap();
    assert_eq!(prog[0].1, InstructionMode::BaseOffset);
    let values: Vec<u32> = prog[0].2.iter().map(|p| p.value).collect();
    assert_eq!(values, vec![1, 2, 3, 0xD]);
}

#[test]
fn decoding_is_idempotent() {
    let words = [
        word(3, 1, 1),
        0xDEADBEEF,
        word(6, 0, (2 << 12) | (0 << 8) | (1 << 4)),
        word(0, 0, 0),
    ];
    let first = decode_instructions(&words);
    let second = decode_instructions(&words);
    assert_eq!(first, second);
}

#[test]
fn extension_consumes_exactly_one_word() {
    // SET R1 with the extension flag, then the wide value, then HLT: the
    // word after the extension decodes as a fresh instruction.
    let words = [word(3, 1, (1 << 12) | 1), 0xDEADBEEF, word(0, 0, 0)];
    let prog = decode_instructions(&words).unwrap();
    assert_eq!(prog.len(), 2);
    assert_eq!(prog[0].0, Instructions::SET);
    let values: Vec<u32> = prog[0].2.iter().map(|p| p.value).collect();
    assert_eq!(values, vec![1, 0, 0xDEADBEEF]);
    assert_eq!(prog[1].0, Instructions::HLT);
}

#[test]
fn extension_value_is_taken_verbatim() {
    // Even a value that looks like an invalid instruction is consumed as
    // the operand, never decoded.
    let words = [word(3, 1, 1), 0xFF000000, word(0, 0, 0)];
    let prog = decode_instructions(&words).unwrap();
    assert_eq!(prog.len(), 2);
    assert_eq!(prog[0].2[2].value, 0xFF000000);
}

#[test]
fn truncated_extension_is_an_error() {
    let words = [word(3, 1, 1)];
    assert_eq!(
        decode_instructions(&words),
        Err(DecodeError::TruncatedExtension { word_index: 0 })
    );
}

#[test]
fn invalid_opcode_is_an_error() {
    let words = [word(0, 0, 0), word(33, 0, 0)];
    assert_eq!(
        decode_instructions(&words),
        Err(DecodeError::InvalidOpcode { word_index: 1, opcode: 33 })
    );
}

#[test]
fn store_in_register_mode_is_rejected() {
    let words = [word(15, 0, (1 << 12) | (2 << 8))];
    assert_eq!(
        decode_instructions(&words),
        Err(DecodeError::InvalidMode { word_index: 0, mode: 0 })
    );
}

#[test]
fn no_partial_program_on_error() {
    // The bad word comes after two good ones; the whole decode fails.
    let words = [word(0, 0, 0), word(3, 1, 0x50), word(33, 0, 0)];
    assert!(decode_instructions(&words).is_err());
}

#[test]
fn words_are_grouped_big_endian() {
    let bytes = [0x12, 0x34, 0x56, 0x78, 0xAA, 0xBB, 0xCC, 0xDD];
    assert_eq!(words_from_bytes(&bytes), vec![0x12345678, 0xAABBCCDD]);
}

#[test]
fn trailing_partial_word_is_dropped() {
    let bytes = [0x12, 0x34, 0x56, 0x78, 0xAA, 0xBB];
    assert_eq!(words_from_bytes(&bytes), vec![0x12345678]);
    let short = [0x01, 0x02, 0x03];
    assert_eq!(words_from_bytes(&short), Vec::<u32>::new());
}

#[test]
fn parameter_returns_its_raw_value() {
    let registers = Registers::new();
    let memory = Memory::new(4);
    let p = Parameter { value: 9 };
    assert_eq!(p.get_value(&registers, &memory), 9);
    assert_eq!(p.get_value_enc(&registers, &memory), 9);
}
