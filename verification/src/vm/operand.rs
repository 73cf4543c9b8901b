//! Operands: a number written in the program, or a register to read.
use super::error::VMFault;
use super::registers::Register;
use super::state::{VMState, VMView};
use vstd::prelude::*;

verus! {

/// What an instruction works on: a number, or the register that holds it.
#[derive(Debug, Clone, Copy, PartialEq, Eq, Structural)]
pub enum Operand {
    Value(u64),
    Register(Register),
}

impl Operand {
    /// The number that the operand stands for in a state of the machine.
    pub open spec fn value_in(self, vm: VMView) -> u64 {
        match self {
            Operand::Value(val) => val,
            Operand::Register(r) => vm.reg(r),
        }
    }

    /// Reads the operand. Every register can be read, so this succeeds.
    pub fn get_value(&self, vm: &VMState) -> (res: Result<u64, VMFault>)
        requires
            vm.wf(),
        ensures
            res == Ok::<u64, VMFault>(self.value_in(vm@)),
    {
        match self {
            Operand::Value(val) => Ok(*val),
            Operand::Register(r) => match vm.registers.get(*r) {
                Ok(val) => Ok(val),
                Err(_) => Err(VMFault::InvalidRegister),
            },
        }
    }

    /// Reads the operand through a mutable borrow of the machine, which it
    /// leaves as it was.
    pub fn get_value_mut(&self, vm: &mut VMState) -> (res: Result<u64, VMFault>)
        requires
            old(vm).wf(),
        ensures
            final(vm).wf(),
            final(vm)@ == old(vm)@,
            res == Ok::<u64, VMFault>(self.value_in(old(vm)@)),
    {
        match self {
            Operand::Value(val) => Ok(*val),
            Operand::Register(r) => match vm.registers.get(*r) {
                Ok(val) => Ok(val),
                Err(_) => Err(VMFault::InvalidRegister),
            },
        }
    }
}

} // verus!
