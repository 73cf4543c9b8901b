//! The instructions that decide which instruction comes next.
use super::{done, failed, Outcome};
use crate::arena::Arena;
use crate::config;
use crate::fpu::{answer, ask, is_unit, Op};
use crate::ieee;
use crate::robot::{Robot, RobotInfo};
use crate::types::ArenaCommand;
use crate::vm::error::VMFault;
use crate::vm::instruction::Instruction;
use crate::vm::registers::Register;
use crate::vm::state::{VMState, VMView};
use vstd::prelude::*;

verus! {

/// The processor of the control flow instructions.
pub struct ControlFlowOperations;

/// The instructions of this family.
pub open spec fn is_control_flow_instruction(instruction: Instruction) -> bool {
    match instruction {
        Instruction::Jmp(_)
        | Instruction::Jz(_)
        | Instruction::Jnz(_)
        | Instruction::Jl(_)
        | Instruction::Jle(_)
        | Instruction::Jg(_)
        | Instruction::Jge(_)
        | Instruction::Call(_)
        | Instruction::Ret
        | Instruction::Loop(_) => true,
        _ => false,
    }
}

/// The result register holds what counts as zero: a number nearer to 0.0
/// than the machine's epsilon.
pub open spec fn is_about_zero(result: u64) -> bool {
    ieee::spec_lt(ieee::spec_abs(result), ieee::EPSILON)
}

/// The instruction pointer after a conditional jump: the target where the
/// condition holds, the next instruction where it does not.
pub open spec fn branch(vm: VMView, taken: bool, target: usize) -> Outcome {
    if taken {
        done(vm.with_ip(target))
    } else {
        done(vm.with_ip((vm.ip + 1) as usize))
    }
}

/// What a control flow instruction does to the machine.
///
/// The conditional jumps read the result register. `call` puts the address
/// of the next instruction on the call stack and jumps; where the call stack
/// is full it faults, and the instruction pointer moves on by one. `ret`
/// jumps to the address it takes from the call stack; where there is none it
/// faults, and the instruction pointer moves on by one. `loop` takes one from
/// the loop counter and jumps unless the counter has reached zero; then it
/// leaves the instruction pointer where it is.
pub open spec fn control_flow_outcome<F: Fn(Op, u64, u64) -> u64>(
    vm: VMView,
    instruction: Instruction,
    fpu: &F,
) -> Outcome {
    let result = vm.reg(Register::Result);
    match instruction {
        Instruction::Jmp(target) => done(vm.with_ip(target)),
        Instruction::Jz(target) => branch(vm, is_about_zero(result), target),
        Instruction::Jnz(target) => branch(vm, !is_about_zero(result), target),
        Instruction::Jl(target) => branch(vm, ieee::spec_lt(result, ieee::ZERO), target),
        Instruction::Jle(target) => branch(vm, ieee::spec_le(result, ieee::ZERO), target),
        Instruction::Jg(target) => branch(vm, ieee::spec_gt(result, ieee::ZERO), target),
        Instruction::Jge(target) => branch(vm, ieee::spec_ge(result, ieee::ZERO), target),
        Instruction::Call(target) => if vm.call_stack.len() < config::MAX_CALL_STACK_SIZE {
            done(
                VMView {
                    call_stack: vm.call_stack.push((vm.ip + 1) as usize),
                    ip: target,
                    ..vm
                },
            )
        } else {
            failed(vm.with_ip((vm.ip + 1) as usize), VMFault::CallStackOverflow)
        },
        Instruction::Ret => if vm.call_stack.len() > 0 {
            done(VMView { call_stack: vm.call_stack.drop_last(), ip: vm.call_stack.last(), ..vm })
        } else {
            failed(vm.with_ip((vm.ip + 1) as usize), VMFault::CallStackUnderflow)
        },
        Instruction::Loop(target) => {
            let next = answer(fpu, Op::Sub, vm.reg(Register::C), ieee::ONE);
            let counted = vm.with_reg(Register::C, next);
            if ieee::spec_is_zero(next) {
                done(counted)
            } else {
                done(counted.with_ip(target))
            }
        },
        _ => failed(vm, VMFault::InvalidInstruction),
    }
}

/// Jumps where the condition holds, and moves on where it does not.
fn jump_if(vm: &mut VMState, taken: bool, target: usize)
    requires
        old(vm).wf(),
        old(vm).ip < usize::MAX,
    ensures
        final(vm).wf(),
        final(vm)@ == branch(old(vm)@, taken, target).vm,
{
    if taken {
        vm.ip = target;
    } else {
        vm.advance_ip();
    }
}

impl ControlFlowOperations {
    pub fn new() -> Self {
        ControlFlowOperations
    }

    /// Whether the instruction is one of this family.
    pub fn can_process(&self, instruction: &Instruction) -> (can: bool)
        ensures
            can == is_control_flow_instruction(*instruction),
    {
        matches!(
            instruction,
            Instruction::Jmp(_)
                | Instruction::Jz(_)
                | Instruction::Jnz(_)
                | Instruction::Jl(_)
                | Instruction::Jle(_)
                | Instruction::Jg(_)
                | Instruction::Jge(_)
                | Instruction::Call(_)
                | Instruction::Ret
                | Instruction::Loop(_)
        )
    }

    /// Executes a control flow instruction on the robot's machine. Nothing
    /// else of the robot changes, and no command is queued. The instruction
    /// pointer must have a successor.
    pub fn process<F: Fn(Op, u64, u64) -> u64>(
        &self,
        robot: &mut Robot,
        _all_robots: &Vec<RobotInfo>,
        _arena: &Arena,
        instruction: &Instruction,
        _command_queue: &mut Vec<ArenaCommand>,
        fpu: &F,
    ) -> (res: Result<(), VMFault>)
        requires
            old(robot).wf(),
            old(robot)@.vm.ip < usize::MAX,
            is_unit(fpu),
        ensures
            final(robot).wf(),
            final(robot)@ == old(robot)@.with_vm(
                control_flow_outcome(old(robot)@.vm, *instruction, fpu).vm,
            ),
            res == control_flow_outcome(old(robot)@.vm, *instruction, fpu).result,
            final(_command_queue)@ == old(_command_queue)@,
    {
        let current_result_reg = match robot.vm_state.registers.get(Register::Result) {
            Ok(value) => value,
            Err(_) => ieee::ZERO,
        };
        match instruction {
            Instruction::Jmp(target) => {
                robot.vm_state.ip = *target;
                Ok(())
            },
            Instruction::Jz(target) => {
                let is = ieee::lt(ieee::abs(current_result_reg), ieee::EPSILON);
                jump_if(&mut robot.vm_state, is, *target);
                Ok(())
            },
            Instruction::Jnz(target) => {
                let is = !ieee::lt(ieee::abs(current_result_reg), ieee::EPSILON);
                jump_if(&mut robot.vm_state, is, *target);
                Ok(())
            },
            Instruction::Jl(target) => {
                jump_if(&mut robot.vm_state, ieee::lt(current_result_reg, ieee::ZERO), *target);
                Ok(())
            },
            Instruction::Jle(target) => {
                jump_if(&mut robot.vm_state, ieee::le(current_result_reg, ieee::ZERO), *target);
                Ok(())
            },
            Instruction::Jg(target) => {
                jump_if(&mut robot.vm_state, ieee::gt(current_result_reg, ieee::ZERO), *target);
                Ok(())
            },
            Instruction::Jge(target) => {
                jump_if(&mut robot.vm_state, ieee::ge(current_result_reg, ieee::ZERO), *target);
                Ok(())
            },
            Instruction::Call(target) => {
                let return_address = robot.vm_state.ip + 1;
                match robot.vm_state.push_call_stack(return_address) {
                    Ok(()) => {
                        robot.vm_state.ip = *target;
                        Ok(())
                    },
                    Err(fault) => {
                        robot.vm_state.advance_ip();
                        Err(fault)
                    },
                }
            },
            Instruction::Ret => match robot.vm_state.pop_call_stack() {
                Ok(return_address) => {
                    robot.vm_state.ip = return_address;
                    Ok(())
                },
                Err(fault) => {
                    robot.vm_state.advance_ip();
                    Err(fault)
                },
            },
            Instruction::Loop(target) => {
                let current_c = match robot.vm_state.registers.get(Register::C) {
                    Ok(value) => value,
                    Err(_) => ieee::ZERO,
                };
                let next_c = ask(fpu, Op::Sub, current_c, ieee::ONE);
                match robot.vm_state.registers.set(Register::C, next_c) {
                    Ok(()) => {},
                    Err(_) => {
                        return Err(VMFault::PermissionError);
                    },
                }
                if !ieee::is_zero(next_c) {
                    robot.vm_state.ip = *target;
                }
                Ok(())
            },
            _ => Err(VMFault::InvalidInstruction),
        }
    }
}

} // verus!
