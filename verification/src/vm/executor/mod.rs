//! The execution of instructions: one processor for each family of
//! instructions, and the executor that hands an instruction to the first
//! processor that takes it.
pub mod arithmetic_ops;
pub mod bitwise_ops;
pub mod combat_ops;
pub mod component_ops;
pub mod control_flow_ops;
pub mod instruction_executor;
pub mod misc_ops;
pub mod trig_ops;
pub mod register_ops;
pub mod stack_ops;

use super::error::{StackError, VMFault};
use super::registers::Register;
use super::state::{VMState, VMView};
use crate::config;
use vstd::prelude::*;

pub use self::component_ops::ComponentOperations;
pub use self::instruction_executor::InstructionExecutor;
pub use super::instruction::Instruction;
pub use super::operand::Operand;

verus! {

/// What the execution of an instruction leaves: the machine's new state, and
/// success or the fault met.
pub struct Outcome {
    pub vm: VMView,
    pub result: Result<(), VMFault>,
}

/// The instruction went through and left the machine in `vm`.
pub open spec fn done(vm: VMView) -> Outcome {
    Outcome { vm, result: Ok(()) }
}

/// The instruction met `fault` and left the machine in `vm`.
pub open spec fn failed(vm: VMView, fault: VMFault) -> Outcome {
    Outcome { vm, result: Err(fault) }
}

/// The operand stack without its top number.
pub open spec fn popped(vm: VMView) -> VMView {
    vm.with_stack(vm.stack.drop_last())
}

/// A number goes on the operand stack.
pub open spec fn push_outcome(vm: VMView, value: u64) -> Outcome {
    if vm.stack.len() < config::STACK_SIZE {
        done(vm.with_stack(vm.stack.push(value)))
    } else {
        failed(vm, VMFault::StackOverflow)
    }
}

/// A number goes into a register that the program names.
pub open spec fn write_outcome(vm: VMView, reg: Register, value: u64) -> Outcome {
    if reg.is_writable() {
        done(vm.with_reg(reg, value))
    } else {
        failed(vm, VMFault::PermissionError)
    }
}

/// The top number of the operand stack is replaced by `value`, which was
/// made of it.
pub open spec fn replace_top(vm: VMView, value: u64) -> Outcome {
    if vm.stack.len() == 0 {
        failed(vm, VMFault::StackUnderflow)
    } else {
        done(vm.with_stack(vm.stack.drop_last().push(value)))
    }
}

/// The two top numbers of the operand stack are replaced by `value`, which
/// was made of them. The top number is taken first: where there is no second
/// one, the first is gone all the same.
pub open spec fn replace_top_two(vm: VMView, value: u64) -> Outcome {
    if vm.stack.len() == 0 {
        failed(vm, VMFault::StackUnderflow)
    } else if vm.stack.len() == 1 {
        failed(popped(vm), VMFault::StackUnderflow)
    } else {
        done(vm.with_stack(vm.stack.drop_last().drop_last().push(value)))
    }
}

/// The top number of the operand stack; in `a op b` it is `b`.
pub open spec fn top(vm: VMView) -> u64 {
    vm.stack[vm.stack.len() - 1]
}

/// The number below the top of the operand stack; in `a op b` it is `a`.
pub open spec fn second(vm: VMView) -> u64 {
    vm.stack[vm.stack.len() - 2]
}

/// Takes the top number off the operand stack.
pub(crate) fn pop_number(vm: &mut VMState) -> (res: Result<u64, VMFault>)
    requires
        old(vm).wf(),
    ensures
        final(vm).wf(),
        old(vm)@.stack.len() > 0 ==> res == Ok::<u64, VMFault>(top(old(vm)@)) && final(vm)@
            == popped(old(vm)@),
        old(vm)@.stack.len() == 0 ==> res == Err::<u64, VMFault>(VMFault::StackUnderflow)
            && final(vm)@ == old(vm)@,
{
    match vm.stack.pop() {
        Ok(value) => Ok(value),
        Err(StackError::Underflow) => Err(VMFault::StackUnderflow),
        Err(StackError::Overflow) => Err(VMFault::StackOverflow),
    }
}

/// Puts a number on the operand stack.
pub(crate) fn push_number(vm: &mut VMState, value: u64) -> (res: Result<(), VMFault>)
    requires
        old(vm).wf(),
    ensures
        final(vm).wf(),
        final(vm)@ == push_outcome(old(vm)@, value).vm,
        res == push_outcome(old(vm)@, value).result,
{
    match vm.stack.push(value) {
        Ok(()) => Ok(()),
        Err(StackError::Overflow) => Err(VMFault::StackOverflow),
        Err(StackError::Underflow) => Err(VMFault::StackUnderflow),
    }
}

/// Writes a register that the program names.
pub(crate) fn write_register(vm: &mut VMState, reg: Register, value: u64) -> (res: Result<
    (),
    VMFault,
>)
    requires
        old(vm).wf(),
    ensures
        final(vm).wf(),
        final(vm)@ == write_outcome(old(vm)@, reg, value).vm,
        res == write_outcome(old(vm)@, reg, value).result,
{
    match vm.registers.set(reg, value) {
        Ok(()) => Ok(()),
        Err(_) => Err(VMFault::PermissionError),
    }
}

/// Reads an operand.
pub(crate) fn read(op: &Operand, vm: &VMState) -> (value: u64)
    requires
        vm.wf(),
    ensures
        value == op.value_in(vm@),
{
    match op {
        Operand::Value(val) => *val,
        Operand::Register(r) => match vm.registers.get(*r) {
            Ok(val) => val,
            Err(_) => 0,
        },
    }
}

} // verus!
