use vcpu::errors::{RunResult, RuntimeError};
use vcpu::instructions::Instructions;
use vcpu::registers::{Register, Registers};
use vcpu::vm::VirtualMachine;

fn word(opcode: u8, mode: u32, args: u32) -> u32 {
    ((opcode as u32) << 24) | (mode << 22) | args
}

const MEM: usize = 0x1000;
const STEPS: usize = 1000;

#[test]
fn subtraction_scenario() {
    // SET R0, 5; SET R1, 3; SUB R2, R0, R1; HLT  =>  R2 == 2.
    let words = [
        word(3, 1, (0 << 12) | (5 << 4)),
        word(3, 1, (1 << 12) | (3 << 4)),
        word(6, 0, (2 << 12) | (0 << 8) | (1 << 4)),
        word(0, 0, 0),
    ];
    let mut vm = VirtualMachine::new(MEM);
    assert_eq!(vm.load_program(&words), Ok(()));
    assert_eq!(vm.run(STEPS), RunResult::Halted);
    assert_eq!(vm.registers.get_register(0), Ok(5));
    assert_eq!(vm.registers.get_register(1), Ok(3));
    assert_eq!(vm.registers.get_register(2), Ok(2));
}

#[test]
fn extended_immediate_scenario() {
    // SET R0 with the extension flag; the following word is the value.
    let words = [word(3, 1, 1), 0x000000FF, word(0, 0, 0)];
    let mut vm = VirtualMachine::new(MEM);
    assert_eq!(vm.load_program(&words), Ok(()));
    assert_eq!(vm.run(STEPS), RunResult::Halted);
    assert_eq!(vm.registers.get_register(0), Ok(0xFF));
}

#[test]
fn compare_and_conditional_jump_scenario() {
    // SET R0, 10; SET R1, 10; CMP R0, R1; IFN -> byte 20 (the halt);
    // SET R2, 9 is skipped.
    let words = [
        word(3, 1, (0 << 12) | (10 << 4)),
        word(3, 1, (1 << 12) | (10 << 4)),
        word(23, 0, (0 << 12) | (1 << 8)),
        word(25, 1, 1),
        20,
        word(3, 1, (2 << 12) | (9 << 4)),
        word(0, 0, 0),
    ];
    let mut vm = VirtualMachine::new(MEM);
    assert_eq!(vm.load_program(&words), Ok(()));
    assert_eq!(vm.run(STEPS), RunResult::Halted);
    assert_eq!(vm.registers.get_cmp_flag(), 0);
    assert_eq!(vm.registers.get_register(2), Ok(0));
}

#[test]
fn conditional_jump_falls_through_on_inequality() {
    // SET R0, 10; SET R1, 9; CMP; IFN -> byte 20; SET R2, 9; HLT.
    let words = [
        word(3, 1, (0 << 12) | (10 << 4)),
        word(3, 1, (1 << 12) | (9 << 4)),
        word(23, 0, (0 << 12) | (1 << 8)),
        word(25, 1, 1),
        20,
        word(3, 1, (2 << 12) | (9 << 4)),
        word(0, 0, 0),
    ];
    let mut vm = VirtualMachine::new(MEM);
    assert_eq!(vm.load_program(&words), Ok(()));
    assert_eq!(vm.run(STEPS), RunResult::Halted);
    assert_eq!(vm.registers.get_cmp_flag(), 1);
    assert_eq!(vm.registers.get_register(2), Ok(9));
}

#[test]
fn unconditional_jump_skips_instructions() {
    // JMP (extended) to byte address 8, instruction index 2: the halt.
    // SET R0, 7 at index 1 is skipped, so R0 keeps its initial zero.
    let words = [word(30, 1, 1), 8, word(3, 1, (0 << 12) | (7 << 4)), word(0, 0, 0)];
    let mut vm = VirtualMachine::new(MEM);
    assert_eq!(vm.load_program(&words), Ok(()));
    assert_eq!(vm.run(STEPS), RunResult::Halted);
    assert_eq!(vm.registers.get_register(0), Ok(0));
}

#[test]
fn multiplication_scenario() {
    let words = [
        word(3, 1, (0 << 12) | (6 << 4)),
        word(3, 1, (1 << 12) | (7 << 4)),
        word(7, 0, (2 << 12) | (0 << 8) | (1 << 4)),
        word(0, 0, 0),
    ];
    let mut vm = VirtualMachine::new(MEM);
    assert_eq!(vm.load_program(&words), Ok(()));
    assert_eq!(vm.run(STEPS), RunResult::Halted);
    assert_eq!(vm.registers.get_register(2), Ok(42));
}

#[test]
fn subtraction_wraps() {
    // 3 - 5 wraps per native 32-bit unsigned arithmetic.
    let words = [
        word(3, 1, (0 << 12) | (3 << 4)),
        word(3, 1, (1 << 12) | (5 << 4)),
        word(6, 0, (2 << 12) | (0 << 8) | (1 << 4)),
        word(0, 0, 0),
    ];
    let mut vm = VirtualMachine::new(MEM);
    assert_eq!(vm.load_program(&words), Ok(()));
    assert_eq!(vm.run(STEPS), RunResult::Halted);
    assert_eq!(vm.registers.get_register(2), Ok(0xFFFFFFFE));
}

#[test]
fn store_writes_memory() {
    // SET R0, 0xAB (extended); SD with immediate address 8; HLT.
    let words = [word(3, 1, 1), 0xAB, word(15, 1, (0 << 12) | (8 << 8)), word(0, 0, 0)];
    let mut vm = VirtualMachine::new(MEM);
    assert_eq!(vm.load_program(&words), Ok(()));
    assert_eq!(vm.run(STEPS), RunResult::Halted);
    assert_eq!(vm.memory.get_memory(8), Ok(0xAB));
    let snapshot = vm.dump(8);
    assert_eq!(snapshot.data, Some(0xAB));
}

#[test]
fn unimplemented_opcode_faults() {
    // MOV has no execute semantics yet and must fault, not no-op.
    let words = [word(4, 0, 0), word(0, 0, 0)];
    let mut vm = VirtualMachine::new(MEM);
    assert_eq!(vm.load_program(&words), Ok(()));
    assert_eq!(
        vm.run(STEPS),
        RunResult::Fault {
            error: RuntimeError::UnimplementedOpcode { opcode: Instructions::MOV },
            instruction_index: 0
        }
    );
}

#[test]
fn more_unimplemented_opcodes_fault() {
    for (byte, opcode) in [
        (5u8, Instructions::ADD),
        (9, Instructions::AND),
        (1, Instructions::PSH),
        (32, Instructions::RET),
    ] {
        let words = [word(byte, 0, 0), word(0, 0, 0)];
        let mut vm = VirtualMachine::new(MEM);
        assert_eq!(vm.load_program(&words), Ok(()));
        assert_eq!(
            vm.run(STEPS),
            RunResult::Fault {
                error: RuntimeError::UnimplementedOpcode { opcode },
                instruction_index: 0
            }
        );
    }
}

#[test]
fn program_counter_overrun_faults() {
    // No halt: the counter runs past the end of the stream.
    let words = [word(3, 1, (0 << 12) | (5 << 4))];
    let mut vm = VirtualMachine::new(MEM);
    assert_eq!(vm.load_program(&words), Ok(()));
    assert_eq!(
        vm.run(STEPS),
        RunResult::Fault { error: RuntimeError::ProgramCounterOverrun, instruction_index: 1 }
    );
}

#[test]
fn step_limit_stops_an_infinite_loop() {
    // JMP to byte 0: instruction 0 jumps to itself forever.
    let words = [word(30, 0, 0), word(0, 0, 0)];
    let mut vm = VirtualMachine::new(MEM);
    assert_eq!(vm.load_program(&words), Ok(()));
    assert_eq!(vm.run(50), RunResult::StepLimitExceeded);
}

#[test]
fn out_of_bounds_store_faults() {
    // SET R0 to a huge address (extended); SD register-indirect reads the
    // destination word from memory at that address and faults.
    let words = [
        word(3, 1, (1 << 12) | 1),
        0x00FFFFFF,
        word(15, 2, (0 << 12) | (1 << 8)),
        word(0, 0, 0),
    ];
    let mut vm = VirtualMachine::new(64);
    assert_eq!(vm.load_program(&words), Ok(()));
    assert_eq!(
        vm.run(STEPS),
        RunResult::Fault {
            error: RuntimeError::OutOfBoundsMemoryAccess { address: 0x00FFFFFF, width: 4 },
            instruction_index: 1
        }
    );
}

#[test]
fn load_error_reports_offending_word() {
    let words = [word(0, 0, 0), word(200, 0, 0)];
    let mut vm = VirtualMachine::new(MEM);
    assert_eq!(
        vm.load_program(&words),
        Err(vcpu::errors::DecodeError::InvalidOpcode { word_index: 1, opcode: 200 })
    );
}

#[test]
fn fresh_machine_state() {
    let vm = VirtualMachine::new(16);
    let snapshot = vm.dump(0);
    assert_eq!(snapshot.pc, 0);
    assert_eq!(snapshot.sp, 0);
    assert_eq!(snapshot.cmp_flag, 0);
    assert_eq!(snapshot.registers, vec![0u32; 16]);
    // The quirk fill: every byte starts at 1.
    assert_eq!(snapshot.data, Some(0x01010101));
    let far = vm.dump(13);
    assert_eq!(far.data, None);
}

#[test]
fn register_file_accessors() {
    let mut r = Registers::new();
    assert_eq!(r.get_register(0), Ok(0));
    assert_eq!(r.set_register(7, 0xABCD), Ok(()));
    assert_eq!(r.get_register(7), Ok(0xABCD));
    assert_eq!(
        r.get_register(16),
        Err(RuntimeError::InvalidRegisterIndex { index: 16 })
    );
    assert_eq!(
        r.set_register(20, 1),
        Err(RuntimeError::InvalidRegisterIndex { index: 20 })
    );
    r.set_pc(5);
    assert_eq!(r.get_pc(), 5);
    r.set_sp(9);
    assert_eq!(r.get_sp(), 9);
    r.set_cmp_flag(1);
    assert_eq!(r.get_cmp_flag(), 1);
}

#[test]
fn register_slot_starts_at_zero() {
    let slot = Register::from_u8(5);
    assert_eq!(slot.register, 5);
    assert_eq!(slot.value, 0);
}

#[test]
fn set_register_indirect_reads_memory() {
    // Put 0x55 at address 16; SET R1 (extended) = 16; SET R0 indirect
    // through R1.
    let words = [
        word(3, 1, (1 << 12) | 1),
        16,
        word(3, 2, (0 << 12) | (1 << 8)),
        word(0, 0, 0),
    ];
    let mut vm = VirtualMachine::new(64);
    assert_eq!(vm.memory.set_memory(16, 0x55), Ok(()));
    assert_eq!(vm.load_program(&words), Ok(()));
    assert_eq!(vm.run(STEPS), RunResult::Halted);
    assert_eq!(vm.registers.get_register(0), Ok(0x55));
}

#[test]
fn set_base_offset_reads_memory() {
    // Put a word at 20; SET R1 (extended) = 16; SET R0 base-offset R1 + 4.
    let words = [
        word(3, 1, (1 << 12) | 1),
        16,
        word(3, 3, (0 << 12) | (1 << 8) | (4 << 4)),
        word(0, 0, 0),
    ];
    let mut vm = VirtualMachine::new(64);
    assert_eq!(vm.memory.set_memory(20, 0x77), Ok(()));
    assert_eq!(vm.load_program(&words), Ok(()));
    assert_eq!(vm.run(STEPS), RunResult::Halted);
    assert_eq!(vm.registers.get_register(0), Ok(0x77));
}
