//! The instructions that move numbers between registers, memory and operands.
use super::{done, failed, read, write_outcome, write_register, Outcome};
use crate::arena::Arena;
use crate::config;
use crate::fpu::{answer, ask, is_unit, Op};
use crate::ieee;
use crate::robot::{Robot, RobotInfo};
use crate::types::ArenaCommand;
use crate::vm::error::VMFault;
use crate::vm::instruction::Instruction;
use crate::vm::registers::Register;
use crate::vm::state::VMView;
use vstd::prelude::*;

verus! {

/// The processor of the register and memory instructions.
pub struct RegisterOperations;

/// The instructions of this family.
pub open spec fn is_register_instruction(instruction: Instruction) -> bool {
    match instruction {
        Instruction::Mov(_, _)
        | Instruction::Lod(_)
        | Instruction::Sto(_)
        | Instruction::Cmp(_, _) => true,
        _ => false,
    }
}

/// What a register or memory instruction does to the machine.
///
/// `lod` reads the cell under the index and adds one to the index before it
/// writes the register: a read-only register refuses, and the index has moved
/// all the same. `sto` writes the cell under the index and sets the index to
/// the next cell. An index outside the memory is an address fault, reported
/// as `InvalidRegister`.
pub open spec fn register_outcome<F: Fn(Op, u64, u64) -> u64>(
    vm: VMView,
    instruction: Instruction,
    fpu: &F,
) -> Outcome {
    match instruction {
        Instruction::Mov(reg, op) => write_outcome(vm, reg, op.value_in(vm)),
        Instruction::Lod(reg) => if vm.memory_index() >= config::MEMORY_SIZE {
            failed(vm, VMFault::InvalidRegister)
        } else {
            write_outcome(
                vm.with_reg(
                    Register::Index,
                    answer(fpu, Op::Add, vm.reg(Register::Index), ieee::ONE),
                ),
                reg,
                vm.memory[vm.memory_index()],
            )
        },
        Instruction::Sto(op) => if vm.memory_index() >= config::MEMORY_SIZE {
            failed(vm, VMFault::InvalidRegister)
        } else {
            done(
                VMView {
                    memory: vm.memory.update(vm.memory_index(), op.value_in(vm)),
                    ..vm.with_reg(
                        Register::Index,
                        ieee::integer_word((vm.memory_index() + 1) as nat),
                    )
                },
            )
        },
        Instruction::Cmp(left, right) => done(
            vm.with_reg(
                Register::Result,
                answer(fpu, Op::Sub, left.value_in(vm), right.value_in(vm)),
            ),
        ),
        _ => failed(vm, VMFault::InvalidInstruction),
    }
}

impl RegisterOperations {
    pub fn new() -> Self {
        RegisterOperations
    }

    /// Whether the instruction is one of this family.
    pub fn can_process(&self, instruction: &Instruction) -> (can: bool)
        ensures
            can == is_register_instruction(*instruction),
    {
        matches!(
            instruction,
            Instruction::Mov(_, _)
                | Instruction::Lod(_)
                | Instruction::Sto(_)
                | Instruction::Cmp(_, _)
        )
    }

    /// Executes a register or memory instruction on the robot's machine.
    /// Nothing else of the robot changes, and no command is queued.
    pub fn process<F: Fn(Op, u64, u64) -> u64>(
        &self,
        robot: &mut Robot,
        _all_robots: &Vec<RobotInfo>,
        _arena: &Arena,
        instruction: &Instruction,
        _command_queue: &mut Vec<ArenaCommand>,
        fpu: &F,
    ) -> (res: Result<(), VMFault>)
        requires
            old(robot).wf(),
            is_unit(fpu),
        ensures
            final(robot).wf(),
            final(robot)@ == old(robot)@.with_vm(
                register_outcome(old(robot)@.vm, *instruction, fpu).vm,
            ),
            res == register_outcome(old(robot)@.vm, *instruction, fpu).result,
            final(_command_queue)@ == old(_command_queue)@,
    {
        match instruction {
            Instruction::Mov(reg, op) => {
                let val = read(op, &robot.vm_state);
                write_register(&mut robot.vm_state, *reg, val)
            },
            Instruction::Lod(reg) => {
                let value = robot.vm_state.load_memory_at_index(fpu)?;
                write_register(&mut robot.vm_state, *reg, value)
            },
            Instruction::Sto(op) => {
                let value = read(op, &robot.vm_state);
                robot.vm_state.store_memory_at_index(value)
            },
            Instruction::Cmp(left, right) => {
                let left_val = read(left, &robot.vm_state);
                let right_val = read(right, &robot.vm_state);
                let result_val = ask(fpu, Op::Sub, left_val, right_val);
                write_register(&mut robot.vm_state, Register::Result, result_val)
            },
            _ => Err(VMFault::InvalidInstruction),
        }
    }
}

} // verus!
