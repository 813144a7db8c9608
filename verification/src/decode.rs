//! Decoding raw 32-bit words into instructions.
//!
//! A raw word holds the opcode in bits 31..24, the addressing mode in bits
//! 23..22 (read through a 4-bit mask shifted by 22) and the arguments in
//! the low 20 bits. An immediate-mode word whose extension flag (bit 0) is
//! set takes its value from the single following raw word instead of the
//! inline 4-bit literal.

use vstd::prelude::*;

use crate::errors::DecodeError;
use crate::instructions::{InstructionMode, Instructions};
use crate::memory::Memory;
use crate::registers::Registers;

verus! {

/// One raw operand slot. Whether the value is a register index, a literal
/// or an address is decided jointly by the opcode and the addressing mode.
#[derive(Debug, Clone, Copy, PartialEq, Eq, Structural)]
pub struct Parameter {
    pub value: u32,
}

impl Parameter {
    /// The raw operand value. The register file and memory are taken for
    /// interface compatibility and are not consulted.
    pub fn get_value(&self, _registers: &Registers, _memory: &Memory) -> (r: u32)
        ensures
            r == self.value,
    {
        self.value
    }

    /// The raw operand value as encoded; identical to `get_value`.
    pub fn get_value_enc(&self, _registers: &Registers, _memory: &Memory) -> (r: u32)
        ensures
            r == self.value,
    {
        self.value
    }
}

/// The mathematical form of a decoded instruction.
#[verifier::ext_equal]
pub struct DecodedInstr {
    pub opcode: Instructions,
    pub mode: InstructionMode,
    pub params: Seq<u32>,
}

/// The opcode byte of a raw word: bits 31..24.
pub open spec fn opcode_bits(w: u32) -> u8 {
    ((w & 0xFF000000) >> 24) as u8
}

/// The addressing-mode field of a raw word: a 4-bit mask shifted by 22, so
/// effectively bits 23..22; the result is always below 4.
pub open spec fn mode_bits(w: u32) -> u32 {
    (w & 0x00F00000) >> 22
}

/// The 20 argument bits of a raw word.
pub open spec fn args_bits(w: u32) -> u32 {
    w & 0x000FFFFF
}

/// The destination-register field: argument bits 15..12.
pub open spec fn field_dest(args: u32) -> u32 {
    (args & 0xF000) >> 12
}

/// The first source field: argument bits 11..8.
pub open spec fn field_src1(args: u32) -> u32 {
    (args & 0x0F00) >> 8
}

/// The second source field, which doubles as the inline 4-bit immediate
/// literal: argument bits 7..4.
pub open spec fn field_src2(args: u32) -> u32 {
    (args & 0x00F0) >> 4
}

/// The base-offset literal: argument bits 3..0.
pub open spec fn field_offset(args: u32) -> u32 {
    args & 0x000F
}

/// The immediate extension flag: argument bit 0.
pub open spec fn ext_flag(args: u32) -> bool {
    args & 0x1 == 1
}

/// The operand list a non-extended word decodes to, by mode.
pub open spec fn inline_params(mode: InstructionMode, args: u32) -> Seq<u32> {
    match mode {
        InstructionMode::Register => seq![field_dest(args), field_src1(args), field_src2(args)],
        InstructionMode::Immediate => seq![field_dest(args), field_src1(args), field_src2(args)],
        InstructionMode::RegisterIndirect => seq![
            field_dest(args),
            field_src1(args),
            field_src2(args),
        ],
        InstructionMode::BaseOffset => seq![
            field_dest(args),
            field_src1(args),
            field_src2(args),
            field_offset(args),
        ],
    }
}

/// Decoding from word index `i` onward. An immediate-mode word with the
/// extension flag consumes exactly the one following word as its third
/// operand; decoding then resumes at the word after that. A store
/// instruction in plain register mode is an encoding-contract violation
/// and is rejected at decode time.
pub open spec fn spec_decode_from(words: Seq<u32>, i: int) -> Result<
    Seq<DecodedInstr>,
    DecodeError,
>
    decreases words.len() - i,
{
    if i < 0 || i >= words.len() {
        Ok(Seq::empty())
    } else {
        let w = words[i];
        match Instructions::spec_from_u8(opcode_bits(w)) {
            None => Err(
                DecodeError::InvalidOpcode { word_index: i as usize, opcode: opcode_bits(w) },
            ),
            Some(opcode) => match InstructionMode::spec_from_bits(mode_bits(w)) {
                None => Err(DecodeError::InvalidMode { word_index: i as usize, mode: mode_bits(w) }),
                Some(mode) => {
                    if opcode == Instructions::SD && mode == InstructionMode::Register {
                        Err(DecodeError::InvalidMode { word_index: i as usize, mode: mode_bits(w) })
                    } else {
                        let args = args_bits(w);
                        if mode == InstructionMode::Immediate && ext_flag(args) {
                            if i + 1 >= words.len() {
                                Err(DecodeError::TruncatedExtension { word_index: i as usize })
                            } else {
                                let instr = DecodedInstr {
                                    opcode,
                                    mode,
                                    params: seq![
                                        field_dest(args),
                                        field_src1(args),
                                        words[i + 1],
                                    ],
                                };
                                match spec_decode_from(words, i + 2) {
                                    Ok(rest) => Ok(seq![instr] + rest),
                                    Err(e) => Err(e),
                                }
                            }
                        } else {
                            let instr = DecodedInstr {
                                opcode,
                                mode,
                                params: inline_params(mode, args),
                            };
                            match spec_decode_from(words, i + 1) {
                                Ok(rest) => Ok(seq![instr] + rest),
                                Err(e) => Err(e),
                            }
                        }
                    }
                },
            },
        }
    }
}

/// The decoded form of the whole word sequence.
pub open spec fn spec_decode(words: Seq<u32>) -> Result<Seq<DecodedInstr>, DecodeError> {
    spec_decode_from(words, 0)
}

/// The operand values of an operand list.
pub open spec fn param_values(ps: Seq<Parameter>) -> Seq<u32> {
    Seq::new(ps.len(), |i: int| ps[i].value)
}

/// The mathematical form of one decoded triple.
pub open spec fn instr_view(t: (Instructions, InstructionMode, Vec<Parameter>)) -> DecodedInstr {
    DecodedInstr { opcode: t.0, mode: t.1, params: param_values(t.2@) }
}

/// The mathematical form of a decoded program.
pub open spec fn prog_view(p: Seq<(Instructions, InstructionMode, Vec<Parameter>)>) -> Seq<
    DecodedInstr,
> {
    Seq::new(p.len(), |i: int| instr_view(p[i]))
}

/// A decoded instruction carries three operands, or four in base-offset
/// mode.
pub open spec fn wf_instr(d: DecodedInstr) -> bool {
    d.params.len() == if d.mode == InstructionMode::BaseOffset {
        4int
    } else {
        3int
    }
}

/// Every instruction of a decoded program is well formed.
pub open spec fn wf_prog(p: Seq<DecodedInstr>) -> bool {
    forall|i: int| 0 <= i < p.len() ==> wf_instr(#[trigger] p[i])
}

/// Decode a raw word sequence into the instruction stream, or report the
/// first offending word. No partial program is returned on error.
pub fn decode_instructions(raw_instructions: &[u32]) -> (r: Result<
    Vec<(Instructions, InstructionMode, Vec<Parameter>)>,
    DecodeError,
>)
    ensures
        match r {
            Ok(prog) => spec_decode(raw_instructions@) == Ok::<Seq<DecodedInstr>, DecodeError>(
                prog_view(prog@),
            ),
            Err(e) => spec_decode(raw_instructions@) == Err::<Seq<DecodedInstr>, DecodeError>(e),
        },
{
    let mut result: Vec<(Instructions, InstructionMode, Vec<Parameter>)> = Vec::new();
    let mut idx: usize = 0;
    while idx < raw_instructions.len()
        invariant
            idx <= raw_instructions@.len(),
            spec_decode(raw_instructions@) == (match spec_decode_from(raw_instructions@, idx as int) {
                Ok(rest) => Ok::<Seq<DecodedInstr>, DecodeError>(prog_view(result@) + rest),
                Err(e) => Err::<Seq<DecodedInstr>, DecodeError>(e),
            }),
        decreases raw_instructions@.len() - idx,
    {
        let ghost prev_result = result@;
        let ghost prev_idx = idx as int;
        let w = raw_instructions[idx];
        let opcode_byte = ((w & 0xFF000000) >> 24) as u8;
        let instruction = match Instructions::from_u8(opcode_byte) {
            Some(x) => x,
            None => {
                return Err(DecodeError::InvalidOpcode { word_index: idx, opcode: opcode_byte });
            },
        };
        let mode_value = (w & 0x00F00000) >> 22;
        let mode = match InstructionMode::from_bits(mode_value) {
            Some(m) => m,
            None => {
                return Err(DecodeError::InvalidMode { word_index: idx, mode: mode_value });
            },
        };
        if instruction == Instructions::SD && mode == InstructionMode::Register {
            return Err(DecodeError::InvalidMode { word_index: idx, mode: mode_value });
        }
        let arguments = w & 0x000FFFFF;
        let dest = (arguments & 0xF000) >> 12;
        let src1 = (arguments & 0x0F00) >> 8;
        let extended = mode == InstructionMode::Immediate && arguments & 0x1 == 1;
        if extended {
            if idx + 1 >= raw_instructions.len() {
                return Err(DecodeError::TruncatedExtension { word_index: idx });
            }
            let value = raw_instructions[idx + 1];
            let params = vec![
                Parameter { value: dest },
                Parameter { value: src1 },
                Parameter { value },
            ];
            proof {
                assert(param_values(params@) =~= seq![dest, src1, value]);
            }
            result.push((instruction, mode, params));
            idx = idx + 2;
        } else {
            let params = if mode == InstructionMode::BaseOffset {
                let src2 = (arguments & 0x00F0) >> 4;
                let offset = arguments & 0x000F;
                vec![
                    Parameter { value: dest },
                    Parameter { value: src1 },
                    Parameter { value: src2 },
                    Parameter { value: offset },
                ]
            } else {
                let src2 = (arguments & 0x00F0) >> 4;
                vec![Parameter { value: dest }, Parameter { value: src1 }, Parameter {
                    value: src2,
                }]
            };
            proof {
                assert(param_values(params@) =~= inline_params(mode, args_bits(w)));
            }
            result.push((instruction, mode, params));
            idx = idx + 1;
        }
        proof {
            let ws = raw_instructions@;
            let rest_old = spec_decode_from(ws, prev_idx);
            let rest_new = spec_decode_from(ws, idx as int);
            assert(rest_old is Ok ==> rest_new is Ok && rest_old->Ok_0 == seq![
                instr_view(result@[result@.len() - 1]),
            ] + rest_new->Ok_0);
            if rest_new is Ok {
                assert(prog_view(prev_result) + (seq![instr_view(result@[result@.len() - 1])]
                    + rest_new->Ok_0) =~= prog_view(result@) + rest_new->Ok_0);
            }
        }
    }
    proof {
        assert(spec_decode_from(raw_instructions@, idx as int) == Ok::<Seq<DecodedInstr>, DecodeError>(
            Seq::empty(),
        ));
        assert(prog_view(result@) + Seq::empty() =~= prog_view(result@));
    }
    Ok(result)
}

/// Decoding is a pure function of the raw words: equal inputs decode to
/// equal outputs, so decoding the same sequence twice yields identical
/// results.
pub proof fn lemma_decode_deterministic(w1: Seq<u32>, w2: Seq<u32>)
    requires
        w1 == w2,
    ensures
        spec_decode(w1) == spec_decode(w2),
{
}

/// A successfully decoded program is well formed: every instruction holds
/// three operands, or four in base-offset mode.
pub proof fn lemma_decode_wf(words: Seq<u32>, i: int)
    ensures
        spec_decode_from(words, i) is Ok ==> wf_prog(spec_decode_from(words, i)->Ok_0),
    decreases words.len() - i,
{
    if 0 <= i < words.len() {
        lemma_decode_wf(words, i + 1);
        if i + 1 < words.len() {
            lemma_decode_wf(words, i + 2);
        }
    }
}

/// The immediate-extension law: a word whose extension flag is set consumes
/// exactly the one following word as its immediate operand, and decoding
/// resumes at the word after that, as a fresh instruction; when no word
/// follows, decoding fails with a truncated-extension error.
pub proof fn lemma_immediate_extension(words: Seq<u32>, i: int)
    requires
        0 <= i < words.len(),
        Instructions::spec_from_u8(opcode_bits(words[i])) is Some,
        InstructionMode::spec_from_bits(mode_bits(words[i])) == Some(InstructionMode::Immediate),
        ext_flag(args_bits(words[i])),
    ensures
        i + 1 < words.len() ==> spec_decode_from(words, i) == (match spec_decode_from(
            words,
            i + 2,
        ) {
            Ok(rest) => Ok::<Seq<DecodedInstr>, DecodeError>(
                seq![
                    DecodedInstr {
                        opcode: Instructions::spec_from_u8(opcode_bits(words[i]))->Some_0,
                        mode: InstructionMode::Immediate,
                        params: seq![
                            field_dest(args_bits(words[i])),
                            field_src1(args_bits(words[i])),
                            words[i + 1],
                        ],
                    },
                ] + rest,
            ),
            Err(e) => Err::<Seq<DecodedInstr>, DecodeError>(e),
        }),
        i + 1 == words.len() ==> spec_decode_from(words, i) == Err::<Seq<DecodedInstr>, DecodeError>(
            DecodeError::TruncatedExtension { word_index: i as usize },
        ),
{
}

/// The big-endian 32-bit word assembled from bytes `4*i .. 4*i+4`.
pub open spec fn be_word(b: Seq<u8>, i: int) -> u32 {
    ((b[4 * i] as u32) << 24) | ((b[4 * i + 1] as u32) << 16) | ((b[4 * i + 2] as u32) << 8) | (b[4
        * i + 3] as u32)
}

/// The raw word sequence of a flat program image: 4-byte big-endian groups,
/// a trailing partial group silently dropped.
pub open spec fn be_words(b: Seq<u8>) -> Seq<u32> {
    Seq::new((b.len() / 4) as nat, |i: int| be_word(b, i))
}

/// Group a program image into raw 32-bit words, big-endian within each
/// word; trailing bytes short of a full word are dropped.
pub fn words_from_bytes(bytes: &[u8]) -> (r: Vec<u32>)
    ensures
        r@ == be_words(bytes@),
{
    let mut out: Vec<u32> = Vec::new();
    let n = bytes.len() / 4;
    proof {
        assert((bytes@.len() / 4) * 4 <= bytes@.len()) by (nonlinear_arith);
    }
    let mut i: usize = 0;
    while i < n
        invariant
            i <= n,
            n == bytes@.len() / 4,
            n * 4 <= bytes@.len(),
            bytes@.len() <= usize::MAX,
            out@.len() == i,
            forall|j: int| 0 <= j < i ==> out@[j] == be_word(bytes@, j),
        decreases n - i,
    {
        let b0 = bytes[i * 4] as u32;
        let b1 = bytes[i * 4 + 1] as u32;
        let b2 = bytes[i * 4 + 2] as u32;
        let b3 = bytes[i * 4 + 3] as u32;
        out.push((b0 << 24) | (b1 << 16) | (b2 << 8) | b3);
        i = i + 1;
    }
    proof {
        assert(out@ =~= be_words(bytes@));
    }
    out
}

} // verus!
