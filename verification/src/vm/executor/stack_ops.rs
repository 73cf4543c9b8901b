//! The instructions that move numbers on and off the operand stack.
use super::{done, failed, pop_number, popped, push_number, push_outcome, top, write_outcome, write_register, Outcome};
use crate::arena::Arena;
use crate::fpu::{is_unit, Op};
use crate::robot::{Robot, RobotInfo};
use crate::types::ArenaCommand;
use crate::vm::error::VMFault;
use crate::vm::instruction::Instruction;
use crate::vm::stack::swapped;
use crate::vm::state::VMView;
use crate::config;
use vstd::prelude::*;

verus! {

/// The processor of the stack instructions.
pub struct StackOperations;

/// The instructions of this family.
pub open spec fn is_stack_instruction(instruction: Instruction) -> bool {
    match instruction {
        Instruction::Push(_)
        | Instruction::Pop(_)
        | Instruction::PopDiscard
        | Instruction::Dup
        | Instruction::Swap => true,
        _ => false,
    }
}

/// What a stack instruction does to the machine.
pub open spec fn stack_outcome(vm: VMView, instruction: Instruction) -> Outcome {
    match instruction {
        Instruction::Push(op) => push_outcome(vm, op.value_in(vm)),
        Instruction::Pop(reg) => if vm.stack.len() == 0 {
            failed(vm, VMFault::StackUnderflow)
        } else {
            write_outcome(popped(vm), reg, top(vm))
        },
        Instruction::PopDiscard => if vm.stack.len() == 0 {
            failed(vm, VMFault::StackUnderflow)
        } else {
            done(popped(vm))
        },
        Instruction::Dup => if vm.stack.len() == 0 {
            failed(vm, VMFault::StackUnderflow)
        } else {
            push_outcome(vm, top(vm))
        },
        Instruction::Swap => if vm.stack.len() < 2 {
            failed(vm, VMFault::StackUnderflow)
        } else {
            done(vm.with_stack(swapped(vm.stack)))
        },
        _ => failed(vm, VMFault::InvalidInstruction),
    }
}

impl StackOperations {
    pub fn new() -> Self {
        StackOperations
    }

    /// Whether the instruction is one of this family.
    pub fn can_process(&self, instruction: &Instruction) -> (can: bool)
        ensures
            can == is_stack_instruction(*instruction),
    {
        matches!(
            instruction,
            Instruction::Push(_)
                | Instruction::Pop(_)
                | Instruction::PopDiscard
                | Instruction::Dup
                | Instruction::Swap
        )
    }

    /// Executes a stack instruction on the robot's machine. Nothing else of
    /// the robot changes, and no command is queued.
    pub fn process<F: Fn(Op, u64, u64) -> u64>(
        &self,
        robot: &mut Robot,
        _all_robots: &Vec<RobotInfo>,
        _arena: &Arena,
        instruction: &Instruction,
        _command_queue: &mut Vec<ArenaCommand>,
        _fpu: &F,
    ) -> (res: Result<(), VMFault>)
        requires
            old(robot).wf(),
        ensures
            final(robot).wf(),
            final(robot)@ == old(robot)@.with_vm(stack_outcome(old(robot)@.vm, *instruction).vm),
            res == stack_outcome(old(robot)@.vm, *instruction).result,
            final(_command_queue)@ == old(_command_queue)@,
    {
        match instruction {
            Instruction::Push(op) => {
                let val = op.get_value_mut(&mut robot.vm_state)?;
                push_number(&mut robot.vm_state, val)
            },
            Instruction::Pop(reg) => {
                let val = pop_number(&mut robot.vm_state)?;
                write_register(&mut robot.vm_state, *reg, val)
            },
            Instruction::PopDiscard => {
                let _ = pop_number(&mut robot.vm_state)?;
                Ok(())
            },
            Instruction::Dup => match robot.vm_state.stack.dup() {
                Ok(()) => Ok(()),
                Err(crate::vm::error::StackError::Overflow) => Err(VMFault::StackOverflow),
                Err(crate::vm::error::StackError::Underflow) => Err(VMFault::StackUnderflow),
            },
            Instruction::Swap => match robot.vm_state.stack.swap() {
                Ok(()) => Ok(()),
                Err(crate::vm::error::StackError::Underflow) => Err(VMFault::StackUnderflow),
                Err(crate::vm::error::StackError::Overflow) => Err(VMFault::StackOverflow),
            },
            _ => Err(VMFault::InvalidInstruction),
        }
    }
}

} // verus!
