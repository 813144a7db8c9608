//! The executor: a fetch-decode-execute loop over the decoded program.
//!
//! One instruction completes fully before the next is fetched. The program
//! counter advances by one after each instruction unless the instruction
//! itself set it (a jump), in which case the implicit advance is suppressed
//! exactly once. The loop ends with a halt instruction, a runtime fault, or
//! an externally supplied step limit.

use vstd::prelude::*;

use crate::decode::{
    decode_instructions, instr_view, lemma_decode_wf, param_values, prog_view, spec_decode,
    wf_instr, wf_prog, DecodedInstr, Parameter,
};
use crate::errors::{DecodeError, RunResult, RuntimeError};
use crate::instructions::{InstructionMode, Instructions};
use crate::memory::{le32, store32, Memory};
use crate::registers::Registers;

verus! {

/// The mathematical machine state: register values, counters, flags,
/// memory bytes, and the jump-suppression flag.
#[verifier::ext_equal]
pub struct VmState {
    pub regs: Seq<u32>,
    pub pc: usize,
    pub sp: usize,
    pub cmp_flag: u8,
    pub arith_flag: u8,
    pub interrupt_flag: u8,
    pub mem: Seq<u8>,
    pub has_jumped: bool,
}

/// Read general-purpose register `idx`, or fault on an index outside
/// `0..16`.
pub open spec fn reg_read(s: VmState, idx: u32) -> Result<u32, RuntimeError> {
    if idx < 16 {
        Ok(s.regs[idx as int])
    } else {
        Err(RuntimeError::InvalidRegisterIndex { index: idx as usize })
    }
}

/// Write general-purpose register `idx`, or fault on an index outside
/// `0..16`.
pub open spec fn reg_write(s: VmState, idx: u32, v: u32) -> Result<VmState, RuntimeError> {
    if idx < 16 {
        Ok(VmState { regs: s.regs.update(idx as int, v), ..s })
    } else {
        Err(RuntimeError::InvalidRegisterIndex { index: idx as usize })
    }
}

/// Read the 32-bit word at byte address `addr`, or fault when the access
/// leaves the memory's capacity.
pub open spec fn mem_read32(s: VmState, addr: int) -> Result<u32, RuntimeError> {
    if addr + 4 <= s.mem.len() {
        Ok(le32(s.mem, addr))
    } else {
        Err(RuntimeError::OutOfBoundsMemoryAccess { address: addr as u64, width: 4 })
    }
}

/// Write the 32-bit word at byte address `addr`, or fault when the access
/// leaves the memory's capacity.
pub open spec fn mem_write32(s: VmState, addr: int, v: u32) -> Result<VmState, RuntimeError> {
    if addr + 4 <= s.mem.len() {
        Ok(VmState { mem: store32(s.mem, addr, v), ..s })
    } else {
        Err(RuntimeError::OutOfBoundsMemoryAccess { address: addr as u64, width: 4 })
    }
}

/// The load instruction: write into the destination register the value a
/// mode resolves — another register's content, the immediate literal, or
/// the memory word at a register-held address (plus the inline offset in
/// base-offset mode, which for this opcode is taken from the third operand
/// slot).
pub open spec fn spec_set(s: VmState, d: DecodedInstr) -> Result<(VmState, bool), RuntimeError> {
    let dst = d.params[0];
    match d.mode {
        InstructionMode::Register => match reg_read(s, d.params[1]) {
            Ok(v) => match reg_write(s, dst, v) {
                Ok(s2) => Ok((s2, false)),
                Err(e) => Err(e),
            },
            Err(e) => Err(e),
        },
        InstructionMode::Immediate => match reg_write(s, dst, d.params[2]) {
            Ok(s2) => Ok((s2, false)),
            Err(e) => Err(e),
        },
        InstructionMode::RegisterIndirect => match reg_read(s, d.params[1]) {
            Ok(addr) => match mem_read32(s, addr as int) {
                Ok(v) => match reg_write(s, dst, v) {
                    Ok(s2) => Ok((s2, false)),
                    Err(e) => Err(e),
                },
                Err(e) => Err(e),
            },
            Err(e) => Err(e),
        },
        InstructionMode::BaseOffset => match reg_read(s, d.params[1]) {
            Ok(base) => match mem_read32(s, base as int + d.params[2] as int) {
                Ok(v) => match reg_write(s, dst, v) {
                    Ok(s2) => Ok((s2, false)),
                    Err(e) => Err(e),
                },
                Err(e) => Err(e),
            },
            Err(e) => Err(e),
        },
    }
}

/// The result of the two wrapping arithmetic opcodes: native 32-bit
/// unsigned arithmetic with no overflow trapping.
pub open spec fn arith_result(a: u32, b: u32, mul: bool) -> u32 {
    if mul {
        vstd::wrapping::u32_specs::wrapping_mul(a, b)
    } else {
        vstd::wrapping::u32_specs::wrapping_sub(a, b)
    }
}

/// The arithmetic instructions: the first operand is always a register
/// value; the second is resolved by mode (register value, literal, or
/// memory word at an address, plus the fourth operand slot as offset in
/// base-offset mode); the wrapped result lands in the destination register.
pub open spec fn spec_arith(s: VmState, d: DecodedInstr, mul: bool) -> Result<
    (VmState, bool),
    RuntimeError,
> {
    let dst = d.params[0];
    match reg_read(s, d.params[1]) {
        Ok(a) => match d.mode {
            InstructionMode::Register => match reg_read(s, d.params[2]) {
                Ok(b) => match reg_write(s, dst, arith_result(a, b, mul)) {
                    Ok(s2) => Ok((s2, false)),
                    Err(e) => Err(e),
                },
                Err(e) => Err(e),
            },
            InstructionMode::Immediate => match reg_write(
                s,
                dst,
                arith_result(a, d.params[2], mul),
            ) {
                Ok(s2) => Ok((s2, false)),
                Err(e) => Err(e),
            },
            InstructionMode::RegisterIndirect => match reg_read(s, d.params[2]) {
                Ok(baddr) => match mem_read32(s, baddr as int) {
                    Ok(b) => match reg_write(s, dst, arith_result(a, b, mul)) {
                        Ok(s2) => Ok((s2, false)),
                        Err(e) => Err(e),
                    },
                    Err(e) => Err(e),
                },
                Err(e) => Err(e),
            },
            InstructionMode::BaseOffset => match reg_read(s, d.params[2]) {
                Ok(baddr) => match mem_read32(s, baddr as int + d.params[3] as int) {
                    Ok(b) => match reg_write(s, dst, arith_result(a, b, mul)) {
                        Ok(s2) => Ok((s2, false)),
                        Err(e) => Err(e),
                    },
                    Err(e) => Err(e),
                },
                Err(e) => Err(e),
            },
        },
        Err(e) => Err(e),
    }
}

/// The store instruction: the first operand names the source register; the
/// destination byte address is the second operand's literal value in
/// immediate mode, the second operand register's content in plain register
/// mode, or — register-indirect and base-offset — the memory word read at
/// that register's content (plus the third operand slot as offset).
pub open spec fn spec_store(s: VmState, d: DecodedInstr) -> Result<(VmState, bool), RuntimeError> {
    match reg_read(s, d.params[0]) {
        Ok(value) => match d.mode {
            InstructionMode::Register => match reg_read(s, d.params[1]) {
                Ok(daddr) => match mem_write32(s, daddr as int, value) {
                    Ok(s2) => Ok((s2, false)),
                    Err(e) => Err(e),
                },
                Err(e) => Err(e),
            },
            InstructionMode::Immediate => match mem_write32(s, d.params[1] as int, value) {
                Ok(s2) => Ok((s2, false)),
                Err(e) => Err(e),
            },
            InstructionMode::RegisterIndirect => match reg_read(s, d.params[1]) {
                Ok(daddr) => match mem_read32(s, daddr as int) {
                    Ok(dval) => match mem_write32(s, dval as int, value) {
                        Ok(s2) => Ok((s2, false)),
                        Err(e) => Err(e),
                    },
                    Err(e) => Err(e),
                },
                Err(e) => Err(e),
            },
            InstructionMode::BaseOffset => match reg_read(s, d.params[1]) {
                Ok(daddr) => match mem_read32(s, daddr as int + d.params[2] as int) {
                    Ok(dval) => match mem_write32(s, dval as int, value) {
                        Ok(s2) => Ok((s2, false)),
                        Err(e) => Err(e),
                    },
                    Err(e) => Err(e),
                },
                Err(e) => Err(e),
            },
        },
        Err(e) => Err(e),
    }
}

/// The compare instruction records exactly one code: 0 when the two
/// register values are equal, 1 otherwise. The remaining codes are never
/// produced, because equality and inequality already cover every pair.
pub open spec fn spec_cmp(s: VmState, d: DecodedInstr) -> Result<(VmState, bool), RuntimeError> {
    match reg_read(s, d.params[0]) {
        Ok(a) => match reg_read(s, d.params[1]) {
            Ok(b) => Ok(
                (
                    VmState {
                        cmp_flag: if a == b {
                            0u8
                        } else {
                            1u8
                        },
                        ..s
                    },
                    false,
                ),
            ),
            Err(e) => Err(e),
        },
        Err(e) => Err(e),
    }
}

/// The unconditional jump: the third operand is a byte address into the
/// encoded file; dividing by 4 yields the instruction index. The implicit
/// program-counter advance is suppressed for this cycle.
pub open spec fn spec_jmp(s: VmState, d: DecodedInstr) -> Result<(VmState, bool), RuntimeError> {
    Ok(
        (
            VmState { pc: (d.params[2] / 4) as usize, has_jumped: true, ..s },
            false,
        ),
    )
}

/// The conditional jump: taken exactly when the compare flag holds the
/// equality code 0; otherwise execution falls through normally.
pub open spec fn spec_ifn(s: VmState, d: DecodedInstr) -> Result<(VmState, bool), RuntimeError> {
    if s.cmp_flag == 0 {
        spec_jmp(s, d)
    } else {
        Ok((s, false))
    }
}

/// Execute one decoded instruction on state `s`: the new state and whether
/// it halted, or the runtime fault. A fault leaves the state unchanged.
/// Opcodes without semantics fault with `UnimplementedOpcode` rather than
/// silently doing nothing.
pub open spec fn spec_execute(s: VmState, d: DecodedInstr) -> Result<
    (VmState, bool),
    RuntimeError,
> {
    match d.opcode {
        Instructions::HLT => Ok((s, true)),
        Instructions::SET => spec_set(s, d),
        Instructions::SUB => spec_arith(s, d, false),
        Instructions::MUL => spec_arith(s, d, true),
        Instructions::SD => spec_store(s, d),
        Instructions::CMP => spec_cmp(s, d),
        Instructions::IFN => spec_ifn(s, d),
        Instructions::JMP => spec_jmp(s, d),
        _ => Err(RuntimeError::UnimplementedOpcode { opcode: d.opcode }),
    }
}

/// Between instructions: clear the jump flag if a jump was taken (the new
/// program counter stands), otherwise advance the counter by one.
pub open spec fn advance(s: VmState) -> VmState {
    if s.has_jumped {
        VmState { has_jumped: false, ..s }
    } else {
        VmState { pc: (s.pc + 1) as usize, ..s }
    }
}

/// Run at most `fuel` instructions from state `s`: the final state and the
/// outcome. The loop ends only through a halt instruction, a fault (a
/// program counter past the end of the stream is the overrun fault), or
/// fuel running out.
pub open spec fn spec_run(s: VmState, prog: Seq<DecodedInstr>, fuel: nat) -> (VmState, RunResult)
    decreases fuel,
{
    if fuel == 0 {
        (s, RunResult::StepLimitExceeded)
    } else if s.pc >= prog.len() {
        (
            s,
            RunResult::Fault {
                error: RuntimeError::ProgramCounterOverrun,
                instruction_index: s.pc,
            },
        )
    } else {
        match spec_execute(s, prog[s.pc as int]) {
            Err(e) => (s, RunResult::Fault { error: e, instruction_index: s.pc }),
            Ok((s2, halted)) => if halted {
                (s2, RunResult::Halted)
            } else {
                spec_run(advance(s2), prog, (fuel - 1) as nat)
            },
        }
    }
}

/// A diagnostic snapshot: the register values, counters and compare flag,
/// and the memory word at a caller-chosen watch address when it is in
/// bounds.
pub struct VmSnapshot {
    pub registers: Vec<u32>,
    pub pc: usize,
    pub sp: usize,
    pub cmp_flag: u8,
    pub data: Option<u32>,
}

/// The virtual machine: a register file and a memory, the decoded program,
/// and the jump-suppression flag.
pub struct VirtualMachine {
    pub registers: Registers,
    pub memory: Memory,
    program: Vec<(Instructions, InstructionMode, Vec<Parameter>)>,
    has_jumped: bool,
}

impl VirtualMachine {
    /// The machine state as mathematics.
    pub closed spec fn state(&self) -> VmState {
        VmState {
            regs: self.registers.regs(),
            pc: self.registers.spec_pc(),
            sp: self.registers.spec_sp(),
            cmp_flag: self.registers.spec_cmp_flag(),
            arith_flag: self.registers.spec_arith_flag(),
            interrupt_flag: self.registers.spec_interrupt_flag(),
            mem: self.memory@,
            has_jumped: self.has_jumped,
        }
    }

    /// The decoded program as mathematics.
    pub closed spec fn prog(&self) -> Seq<DecodedInstr> {
        prog_view(self.program@)
    }

    /// The register file holds its sixteen registers and every decoded
    /// instruction carries the operand count its mode requires.
    pub closed spec fn wf(&self) -> bool {
        self.registers.wf() && wf_prog(self.prog()) && self.state().regs.len() == 16
    }

    /// A fresh machine over `memory_capacity` bytes: registers, counters
    /// and flags zeroed, memory filled with the quirk byte 1, no program.
    pub fn new(memory_capacity: usize) -> (vm: VirtualMachine)
        ensures
            vm.wf(),
            vm.prog() == Seq::<DecodedInstr>::empty(),
            vm.state().regs.len() == 16,
            forall|i: int| 0 <= i < 16 ==> vm.state().regs[i] == 0,
            vm.state().pc == 0,
            vm.state().sp == 0,
            vm.state().cmp_flag == 0,
            vm.state().arith_flag == 0,
            vm.state().interrupt_flag == 0,
            vm.state().mem.len() == memory_capacity,
            forall|i: int| 0 <= i < memory_capacity ==> vm.state().mem[i] == 1u8,
            vm.state().has_jumped == false,
    {
        let vm = VirtualMachine {
            registers: Registers::new(),
            memory: Memory::new(memory_capacity),
            program: Vec::new(),
            has_jumped: false,
        };
        proof {
            assert(vm.prog() =~= Seq::<DecodedInstr>::empty());
        }
        vm
    }

    /// Decode `raw_words` and install the instruction stream. A decode
    /// error aborts the load entirely: the previous program and the whole
    /// machine state stay as they were.
    pub fn load_program(&mut self, raw_words: &[u32]) -> (r: Result<(), DecodeError>)
        ensures
            final(self).state() == old(self).state(),
            old(self).wf() ==> final(self).wf(),
            match spec_decode(raw_words@) {
                Ok(p) => r == Ok::<(), DecodeError>(()) && final(self).prog() == p && wf_prog(
                    final(self).prog(),
                ),
                Err(e) => r == Err::<(), DecodeError>(e) && final(self).prog() == old(self).prog(),
            },
    {
        match decode_instructions(raw_words) {
            Ok(p) => {
                self.program = p;
                proof {
                    lemma_decode_wf(raw_words@, 0);
                }
                Ok(())
            },
            Err(e) => Err(e),
        }
    }

    /// The decoded instruction at the current program counter, copied out.
    fn fetch(&self) -> (r: (Instructions, InstructionMode, Vec<Parameter>))
        requires
            self.registers.spec_pc() < self.prog().len(),
        ensures
            instr_view(r) == self.prog()[self.registers.spec_pc() as int],
    {
        let pc = self.registers.get_pc();
        let t = &self.program[pc];
        let mut ps: Vec<Parameter> = Vec::new();
        let mut i: usize = 0;
        while i < t.2.len()
            invariant
                i <= t.2@.len(),
                ps@.len() == i,
                forall|j: int| 0 <= j < i ==> ps@[j] == t.2@[j],
            decreases t.2@.len() - i,
        {
            ps.push(Parameter { value: t.2[i].value });
            i = i + 1;
        }
        proof {
            assert(param_values(ps@) =~= param_values(self.program@[self.registers.spec_pc() as int].2@));
            assert(instr_view((t.0, t.1, ps)) =~= self.prog()[self.registers.spec_pc() as int]);
        }
        (t.0, t.1, ps)
    }

    /// Execute one decoded instruction, mutating registers and memory
    /// exactly as `spec_execute` says; `Ok(true)` means halt. A fault
    /// leaves the whole state unchanged.
    fn execute(&mut self, opcode: Instructions, mode: InstructionMode, args: Vec<Parameter>) -> (r:
        Result<bool, RuntimeError>)
        requires
            old(self).registers.wf(),
            wf_instr(DecodedInstr { opcode, mode, params: param_values(args@) }),
        ensures
            final(self).registers.wf(),
            final(self).prog() == old(self).prog(),
            ({
                let d = DecodedInstr { opcode, mode, params: param_values(args@) };
                match spec_execute(old(self).state(), d) {
                    Ok((s2, halted)) => r == Ok::<bool, RuntimeError>(halted) && final(self).state()
                        == s2,
                    Err(e) => r == Err::<bool, RuntimeError>(e) && final(self).state() == old(
                        self,
                    ).state(),
                }
            }),
    {
        let ghost d = DecodedInstr { opcode, mode, params: param_values(args@) };
        match opcode {
            Instructions::HLT => Ok(true),
            Instructions::SET => {
                let destination_register = args[0].get_value(&self.registers, &self.memory);
                let value = match mode {
                    InstructionMode::Register => {
                        let source_register = args[1].get_value(&self.registers, &self.memory);
                        match self.registers.get_register(source_register as usize) {
                            Ok(v) => v,
                            Err(e) => {
                                return Err(e);
                            },
                        }
                    },
                    InstructionMode::Immediate => args[2].get_value(&self.registers, &self.memory),
                    InstructionMode::RegisterIndirect => {
                        let source_register = args[1].get_value(&self.registers, &self.memory);
                        let address = match self.registers.get_register(source_register as usize) {
                            Ok(v) => v,
                            Err(e) => {
                                return Err(e);
                            },
                        };
                        match self.memory.get_memory(address as usize) {
                            Ok(v) => v,
                            Err(e) => {
                                return Err(e);
                            },
                        }
                    },
                    InstructionMode::BaseOffset => {
                        let source_register = args[1].get_value(&self.registers, &self.memory);
                        let base = match self.registers.get_register(source_register as usize) {
                            Ok(v) => v,
                            Err(e) => {
                                return Err(e);
                            },
                        };
                        let offset = args[2].get_value(&self.registers, &self.memory);
                        match self.read_word_at(base, offset) {
                            Ok(v) => v,
                            Err(e) => {
                                return Err(e);
                            },
                        }
                    },
                };
                match self.registers.set_register(destination_register as usize, value) {
                    Ok(()) => {},
                    Err(e) => {
                        return Err(e);
                    },
                }
                proof {
                    assert(final(self).state() =~= spec_set(old(self).state(), d)->Ok_0.0);
                }
                Ok(false)
            },
            Instructions::SUB | Instructions::MUL => {
                let mul = match opcode {
                    Instructions::MUL => true,
                    _ => false,
                };
                let destination_register = args[0].get_value(&self.registers, &self.memory);
                let a_register = args[1].get_value(&self.registers, &self.memory);
                let a_value = match self.registers.get_register(a_register as usize) {
                    Ok(v) => v,
                    Err(e) => {
                        return Err(e);
                    },
                };
                let b_value = match mode {
                    InstructionMode::Register => {
                        let b_register = args[2].get_value(&self.registers, &self.memory);
                        match self.registers.get_register(b_register as usize) {
                            Ok(v) => v,
                            Err(e) => {
                                return Err(e);
                            },
                        }
                    },
                    InstructionMode::Immediate => args[2].get_value(&self.registers, &self.memory),
                    InstructionMode::RegisterIndirect => {
                        let b_register = args[2].get_value(&self.registers, &self.memory);
                        let b_address = match self.registers.get_register(b_register as usize) {
                            Ok(v) => v,
                            Err(e) => {
                                return Err(e);
                            },
                        };
                        match self.memory.get_memory(b_address as usize) {
                            Ok(v) => v,
                            Err(e) => {
                                return Err(e);
                            },
                        }
                    },
                    InstructionMode::BaseOffset => {
                        let b_register = args[2].get_value(&self.registers, &self.memory);
                        let b_address = match self.registers.get_register(b_register as usize) {
                            Ok(v) => v,
                            Err(e) => {
                                return Err(e);
                            },
                        };
                        let offset = args[3].get_value(&self.registers, &self.memory);
                        match self.read_word_at(b_address, offset) {
                            Ok(v) => v,
                            Err(e) => {
                                return Err(e);
                            },
                        }
                    },
                };
                let result = if mul {
                    a_value.wrapping_mul(b_value)
                } else {
                    a_value.wrapping_sub(b_value)
                };
                match self.registers.set_register(destination_register as usize, result) {
                    Ok(()) => {},
                    Err(e) => {
                        return Err(e);
                    },
                }
                proof {
                    assert(final(self).state() =~= spec_arith(old(self).state(), d, mul)->Ok_0.0);
                }
                Ok(false)
            },
            Instructions::SD => {
                let source_register = args[0].get_value(&self.registers, &self.memory);
                let source_value = match self.registers.get_register(source_register as usize) {
                    Ok(v) => v,
                    Err(e) => {
                        return Err(e);
                    },
                };
                let destination_address = match mode {
                    InstructionMode::Register => {
                        let destination_register = args[1].get_value(
                            &self.registers,
                            &self.memory,
                        );
                        match self.registers.get_register(destination_register as usize) {
                            Ok(v) => v,
                            Err(e) => {
                                return Err(e);
                            },
                        }
                    },
                    InstructionMode::Immediate => args[1].get_value(&self.registers, &self.memory),
                    InstructionMode::RegisterIndirect => {
                        let destination_register = args[1].get_value(
                            &self.registers,
                            &self.memory,
                        );
                        let daddr = match self.registers.get_register(destination_register as usize)
                        {
                            Ok(v) => v,
                            Err(e) => {
                                return Err(e);
                            },
                        };
                        match self.memory.get_memory(daddr as usize) {
                            Ok(v) => v,
                            Err(e) => {
                                return Err(e);
                            },
                        }
                    },
                    InstructionMode::BaseOffset => {
                        let destination_register = args[1].get_value(
                            &self.registers,
                            &self.memory,
                        );
                        let daddr = match self.registers.get_register(destination_register as usize)
                        {
                            Ok(v) => v,
                            Err(e) => {
                                return Err(e);
                            },
                        };
                        let offset = args[2].get_value(&self.registers, &self.memory);
                        match self.read_word_at(daddr, offset) {
                            Ok(v) => v,
                            Err(e) => {
                                return Err(e);
                            },
                        }
                    },
                };
                match self.memory.set_memory(destination_address as usize, source_value) {
                    Ok(()) => {},
                    Err(e) => {
                        return Err(e);
                    },
                }
                proof {
                    assert(final(self).state() =~= spec_store(old(self).state(), d)->Ok_0.0);
                }
                Ok(false)
            },
            Instructions::CMP => {
                let register_a = args[0].get_value(&self.registers, &self.memory);
                let register_b = args[1].get_value(&self.registers, &self.memory);
                let a_value = match self.registers.get_register(register_a as usize) {
                    Ok(v) => v,
                    Err(e) => {
                        return Err(e);
                    },
                };
                let b_value = match self.registers.get_register(register_b as usize) {
                    Ok(v) => v,
                    Err(e) => {
                        return Err(e);
                    },
                };
                if a_value == b_value {
                    self.registers.set_cmp_flag(0x0000);
                } else {
                    self.registers.set_cmp_flag(0x0001);
                }
                proof {
                    assert(final(self).state() =~= spec_cmp(old(self).state(), d)->Ok_0.0);
                }
                Ok(false)
            },
            Instructions::IFN => {
                if self.registers.get_cmp_flag() == 0x0000 {
                    let address = args[2].get_value(&self.registers, &self.memory);
                    let target = address / 4;
                    self.registers.set_pc(target as usize);
                    self.has_jumped = true;
                    proof {
                        assert(final(self).state() =~= spec_jmp(old(self).state(), d)->Ok_0.0);
                    }
                }
                Ok(false)
            },
            Instructions::JMP => {
                let address = args[2].get_value(&self.registers, &self.memory);
                let target = address / 4;
                self.registers.set_pc(target as usize);
                self.has_jumped = true;
                proof {
                    assert(final(self).state() =~= spec_jmp(old(self).state(), d)->Ok_0.0);
                }
                Ok(false)
            },
            _ => Err(RuntimeError::UnimplementedOpcode { opcode }),
        }
    }

    /// Read the 32-bit word at `base + offset`, the sum taken exactly: an
    /// address past the machine's word range is out of bounds, never
    /// wrapped.
    fn read_word_at(&self, base: u32, offset: u32) -> (r: Result<u32, RuntimeError>)
        ensures
            r == mem_read32(self.state(), base as int + offset as int),
    {
        let address: u64 = base as u64 + offset as u64;
        if address > usize::MAX as u64 {
            proof {
                self.memory.lemma_len_bound();
            }
            return Err(RuntimeError::OutOfBoundsMemoryAccess { address, width: 4 });
        }
        self.memory.get_memory(address as usize)
    }

    /// Run the loaded program for at most `max_steps` instructions.
    pub fn run(&mut self, max_steps: usize) -> (r: RunResult)
        requires
            old(self).wf(),
        ensures
            final(self).wf(),
            final(self).prog() == old(self).prog(),
            ({
                let (s_end, outcome) = spec_run(
                    old(self).state(),
                    old(self).prog(),
                    max_steps as nat,
                );
                final(self).state() == s_end && r == outcome
            }),
    {
        let ghost s0 = self.state();
        let ghost prog0 = self.prog();
        let mut steps: usize = 0;
        loop
            invariant
                s0 == old(self).state(),
                prog0 == old(self).prog(),
                self.wf(),
                self.prog() == prog0,
                steps <= max_steps,
                spec_run(s0, prog0, max_steps as nat) == spec_run(
                    self.state(),
                    prog0,
                    (max_steps - steps) as nat,
                ),
            decreases max_steps - steps,
        {
            if steps >= max_steps {
                return RunResult::StepLimitExceeded;
            }
            let pc = self.registers.get_pc();
            if pc >= self.program.len() {
                return RunResult::Fault {
                    error: RuntimeError::ProgramCounterOverrun,
                    instruction_index: pc,
                };
            }
            let (opcode, mode, args) = self.fetch();
            let ghost s_before = self.state();
            let halted = match self.execute(opcode, mode, args) {
                Ok(h) => h,
                Err(e) => {
                    return RunResult::Fault { error: e, instruction_index: pc };
                },
            };
            if halted {
                return RunResult::Halted;
            }
            if !self.has_jumped {
                let cur = self.registers.get_pc();
                proof {
                    assert(self.state().pc == s_before.pc);
                }
                self.registers.set_pc(cur + 1);
            } else {
                self.has_jumped = false;
            }
            proof {
                assert(self.state() =~= advance(
                    spec_execute(s_before, prog0[s_before.pc as int])->Ok_0.0,
                ));
            }
            steps = steps + 1;
        }
    }

    /// A diagnostic snapshot of the registers, counters and compare flag,
    /// with the memory word at `watch_address` when that read is in
    /// bounds.
    pub fn dump(&self, watch_address: usize) -> (d: VmSnapshot)
        requires
            self.wf(),
        ensures
            d.registers@ == self.state().regs,
            d.pc == self.state().pc,
            d.sp == self.state().sp,
            d.cmp_flag == self.state().cmp_flag,
            d.data == (if watch_address + 4 <= self.state().mem.len() {
                Some(le32(self.state().mem, watch_address as int))
            } else {
                None::<u32>
            }),
    {
        let mut registers: Vec<u32> = Vec::new();
        let mut i: usize = 0;
        while i < 16
            invariant
                self.wf(),
                i <= 16,
                registers@.len() == i,
                forall|j: int| 0 <= j < i ==> registers@[j] == self.state().regs[j],
            decreases 16 - i,
        {
            let v = match self.registers.get_register(i) {
                Ok(v) => v,
                Err(_) => 0,
            };
            registers.push(v);
            i = i + 1;
        }
        proof {
            assert(registers@ =~= self.state().regs);
        }
        let data = match self.memory.get_memory(watch_address) {
            Ok(v) => Some(v),
            Err(_) => None,
        };
        VmSnapshot {
            registers,
            pc: self.registers.get_pc(),
            sp: self.registers.get_sp(),
            cmp_flag: self.registers.get_cmp_flag(),
            data,
        }
    }
}

} // verus!
