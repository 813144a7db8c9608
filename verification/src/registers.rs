//! The register file: sixteen 32-bit general-purpose registers, program
//! counter, stack pointer, and three flag bytes.
//!
//! Only the compare flag is consumed by control flow today; the arithmetic
//! and interrupt flags are inert state kept for forward compatibility.

use vstd::prelude::*;

use crate::errors::RuntimeError;

verus! {

/// One general-purpose register slot: its index and its current value.
#[derive(Debug, Clone, Copy, PartialEq, Eq, Structural)]
pub struct Register {
    pub register: usize,
    pub value: u32,
}

impl Register {
    /// A register slot numbered `v` holding zero.
    pub fn from_u8(v: u32) -> (r: Register)
        ensures
            r.register == v as usize,
            r.value == 0,
    {
        Register { register: v as usize, value: 0 }
    }
}

/// Compare-flag codes: 0 records equality, 1 inequality. Codes 2..=5 are
/// defined (`>`, `<`, `>=`, `<=`) but never produced, because the compare
/// instruction records exactly one code and every pair of values is either
/// equal or not; 6 and 7 are reserved.
pub struct Registers {
    registers: Vec<Register>,
    pc: usize,
    sp: usize,
    cmp_flag: u8,
    arith_flag: u8,
    interrupt_flag: u8,
}

impl Registers {
    /// The sixteen general-purpose register values, in index order.
    pub closed spec fn regs(&self) -> Seq<u32> {
        Seq::new(self.registers@.len(), |i: int| self.registers@[i].value)
    }

    /// There are exactly sixteen general-purpose registers.
    pub open spec fn wf(&self) -> bool {
        self.regs().len() == 16
    }

    /// The program counter: an index into the decoded instruction stream.
    pub closed spec fn spec_pc(&self) -> usize {
        self.pc
    }

    /// The stack pointer; present in the model, unused by any implemented
    /// opcode.
    pub closed spec fn spec_sp(&self) -> usize {
        self.sp
    }

    /// The compare flag.
    pub closed spec fn spec_cmp_flag(&self) -> u8 {
        self.cmp_flag
    }

    /// The arithmetic flag (inert).
    pub closed spec fn spec_arith_flag(&self) -> u8 {
        self.arith_flag
    }

    /// The interrupt flag (inert).
    pub closed spec fn spec_interrupt_flag(&self) -> u8 {
        self.interrupt_flag
    }

    /// A fresh register file: all registers, counters and flags zero.
    pub fn new() -> (r: Registers)
        ensures
            r.wf(),
            forall|i: int| 0 <= i < 16 ==> r.regs()[i] == 0,
            r.spec_pc() == 0,
            r.spec_sp() == 0,
            r.spec_cmp_flag() == 0,
            r.spec_arith_flag() == 0,
            r.spec_interrupt_flag() == 0,
    {
        let mut registers: Vec<Register> = Vec::new();
        while registers.len() < 16
            invariant
                registers@.len() <= 16,
                forall|i: int| 0 <= i < registers@.len() ==> registers@[i].value == 0,
            decreases 16 - registers@.len(),
        {
            registers.push(Register::from_u8(0));
        }
        Registers { registers, pc: 0, sp: 0, cmp_flag: 0, arith_flag: 0, interrupt_flag: 0 }
    }

    /// Write a general-purpose register; indices outside `0..16` fail with
    /// `InvalidRegisterIndex` and leave the file unchanged.
    pub fn set_register(&mut self, register: usize, value: u32) -> (r: Result<(), RuntimeError>)
        requires
            old(self).wf(),
        ensures
            final(self).wf(),
            register < 16 ==> r == Ok::<(), RuntimeError>(()) && final(self).regs() == old(
                self,
            ).regs().update(register as int, value),
            register >= 16 ==> r == Err::<(), RuntimeError>(
                RuntimeError::InvalidRegisterIndex { index: register },
            ) && final(self).regs() == old(self).regs(),
            final(self).spec_pc() == old(self).spec_pc(),
            final(self).spec_sp() == old(self).spec_sp(),
            final(self).spec_cmp_flag() == old(self).spec_cmp_flag(),
            final(self).spec_arith_flag() == old(self).spec_arith_flag(),
            final(self).spec_interrupt_flag() == old(self).spec_interrupt_flag(),
    {
        if register >= 16 {
            return Err(RuntimeError::InvalidRegisterIndex { index: register });
        }
        let slot = self.registers[register];
        self.registers[register] = Register { register: slot.register, value };
        proof {
            assert(self.regs() =~= old(self).regs().update(register as int, value));
        }
        Ok(())
    }

    /// Read a general-purpose register; indices outside `0..16` fail with
    /// `InvalidRegisterIndex`.
    pub fn get_register(&self, register: usize) -> (r: Result<u32, RuntimeError>)
        requires
            self.wf(),
        ensures
            register < 16 ==> r == Ok::<u32, RuntimeError>(self.regs()[register as int]),
            register >= 16 ==> r == Err::<u32, RuntimeError>(
                RuntimeError::InvalidRegisterIndex { index: register },
            ),
    {
        if register >= 16 {
            return Err(RuntimeError::InvalidRegisterIndex { index: register });
        }
        Ok(self.registers[register].value)
    }

    /// Set the program counter.
    pub fn set_pc(&mut self, value: usize)
        ensures
            final(self).spec_pc() == value,
            final(self).wf() == old(self).wf(),
            final(self).regs() == old(self).regs(),
            final(self).spec_sp() == old(self).spec_sp(),
            final(self).spec_cmp_flag() == old(self).spec_cmp_flag(),
            final(self).spec_arith_flag() == old(self).spec_arith_flag(),
            final(self).spec_interrupt_flag() == old(self).spec_interrupt_flag(),
    {
        self.pc = value;
    }

    /// Read the program counter.
    pub fn get_pc(&self) -> (r: usize)
        ensures
            r == self.spec_pc(),
    {
        self.pc
    }

    /// Set the stack pointer.
    pub fn set_sp(&mut self, value: usize)
        ensures
            final(self).spec_sp() == value,
            final(self).wf() == old(self).wf(),
            final(self).regs() == old(self).regs(),
            final(self).spec_pc() == old(self).spec_pc(),
            final(self).spec_cmp_flag() == old(self).spec_cmp_flag(),
            final(self).spec_arith_flag() == old(self).spec_arith_flag(),
            final(self).spec_interrupt_flag() == old(self).spec_interrupt_flag(),
    {
        self.sp = value;
    }

    /// Read the stack pointer.
    pub fn get_sp(&self) -> (r: usize)
        ensures
            r == self.spec_sp(),
    {
        self.sp
    }

    /// Set the compare flag.
    pub fn set_cmp_flag(&mut self, value: u8)
        ensures
            final(self).spec_cmp_flag() == value,
            final(self).wf() == old(self).wf(),
            final(self).regs() == old(self).regs(),
            final(self).spec_pc() == old(self).spec_pc(),
            final(self).spec_sp() == old(self).spec_sp(),
            final(self).spec_arith_flag() == old(self).spec_arith_flag(),
            final(self).spec_interrupt_flag() == old(self).spec_interrupt_flag(),
    {
        self.cmp_flag = value;
    }

    /// Read the compare flag.
    pub fn get_cmp_flag(&self) -> (r: u8)
        ensures
            r == self.spec_cmp_flag(),
    {
        self.cmp_flag
    }
}

} // verus!
