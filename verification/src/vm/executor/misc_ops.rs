//! The instructions that do nothing to the robot: `nop`, `dbg` and `sleep`.
use super::{done, failed, read, Outcome};
use crate::arena::Arena;
use crate::fpu::{is_unit, Op};
use crate::ieee;
use crate::robot::{Robot, RobotInfo};
use crate::types::ArenaCommand;
use crate::vm::error::VMFault;
use crate::vm::instruction::{lemma_sleep_at_least_one, sleep_cost, Instruction};
use crate::vm::state::VMView;
use vstd::prelude::*;

verus! {

/// The processor of the miscellaneous instructions.
pub struct MiscellaneousOperations;

/// The instructions of this family.
pub open spec fn is_miscellaneous_instruction(instruction: Instruction) -> bool {
    match instruction {
        Instruction::Nop | Instruction::Dbg(_) | Instruction::Sleep(_) => true,
        _ => false,
    }
}

/// What a miscellaneous instruction does to the machine: `nop` and `dbg`
/// move on to the next instruction; `sleep` sets the cycles that remain
/// after this one, and leaves the instruction pointer where it is.
pub open spec fn miscellaneous_outcome(vm: VMView, instruction: Instruction) -> Outcome {
    match instruction {
        Instruction::Nop | Instruction::Dbg(_) => done(vm.with_ip((vm.ip + 1) as usize)),
        Instruction::Sleep(op) => done(
            VMView {
                instruction_cycles_remaining: (sleep_cost(op.value_in(vm)) - 1) as u32,
                ..vm
            },
        ),
        _ => failed(vm, VMFault::InvalidInstruction),
    }
}

impl MiscellaneousOperations {
    pub fn new() -> Self {
        MiscellaneousOperations
    }

    /// Whether the instruction is one of this family.
    pub fn can_process(&self, instruction: &Instruction) -> (can: bool)
        ensures
            can == is_miscellaneous_instruction(*instruction),
    {
        matches!(instruction, Instruction::Nop | Instruction::Dbg(_) | Instruction::Sleep(_))
    }

    /// Executes a miscellaneous instruction on the robot's machine. Nothing
    /// else of the robot changes, and no command is queued. The instruction
    /// pointer must have a successor.
    pub fn process<F: Fn(Op, u64, u64) -> u64>(
        &self,
        robot: &mut Robot,
        _all_robots: &Vec<RobotInfo>,
        _arena: &Arena,
        instruction: &Instruction,
        _command_queue: &mut Vec<ArenaCommand>,
        _fpu: &F,
    ) -> (res: Result<(), VMFault>)
        requires
            old(robot).wf(),
            old(robot)@.vm.ip < usize::MAX,
        ensures
            final(robot).wf(),
            final(robot)@ == old(robot)@.with_vm(
                miscellaneous_outcome(old(robot)@.vm, *instruction).vm,
            ),
            res == miscellaneous_outcome(old(robot)@.vm, *instruction).result,
            final(_command_queue)@ == old(_command_queue)@,
    {
        match instruction {
            Instruction::Nop => {
                robot.vm_state.advance_ip();
                Ok(())
            },
            Instruction::Dbg(op) => {
                let _val = read(op, &robot.vm_state);
                robot.vm_state.advance_ip();
                Ok(())
            },
            Instruction::Sleep(op) => {
                let cycles = ieee::to_u32(ieee::max(read(op, &robot.vm_state), ieee::ONE));
                proof {
                    lemma_sleep_at_least_one(op.value_in(robot.vm_state@));
                }
                robot.vm_state.instruction_cycles_remaining = cycles - 1;
                Ok(())
            },
            _ => Err(VMFault::InvalidInstruction),
        }
    }
}

} // verus!
