//! The trigonometric instructions and the absolute value. Angles are in
//! degrees wherever a program sees them.
use super::arithmetic_ops::into_result;
use super::{failed, pop_number, push_number, read, replace_top, replace_top_two, second, top, write_register, Outcome};
use crate::arena::Arena;
use crate::fpu::{ask_in_degrees, ask_of_degrees, in_degrees, is_unit, of_degrees, Op};
use crate::ieee;
use crate::robot::{Robot, RobotInfo};
use crate::types::ArenaCommand;
use crate::vm::error::VMFault;
use crate::vm::instruction::Instruction;
use crate::vm::registers::Register;
use crate::vm::state::{VMState, VMView};
use vstd::prelude::*;

verus! {

/// The processor of the trigonometric instructions.
pub struct TrigonometricOperations;

/// The instructions of this family.
pub open spec fn is_trigonometric_instruction(instruction: Instruction) -> bool {
    match instruction {
        Instruction::Sin
        | Instruction::Cos
        | Instruction::Tan
        | Instruction::Asin
        | Instruction::Acos
        | Instruction::Atan
        | Instruction::Atan2
        | Instruction::Abs
        | Instruction::SinOp(_)
        | Instruction::CosOp(_)
        | Instruction::TanOp(_)
        | Instruction::AsinOp(_)
        | Instruction::AcosOp(_)
        | Instruction::AtanOp(_)
        | Instruction::Atan2Op(_, _)
        | Instruction::AbsOp(_) => true,
        _ => false,
    }
}

/// What a trigonometric instruction does to the machine. `atan2` takes the
/// abscissa from the top of the stack and the ordinate from below it; in
/// operand form the ordinate comes first.
pub open spec fn trigonometric_outcome<F: Fn(Op, u64, u64) -> u64>(
    vm: VMView,
    instruction: Instruction,
    fpu: &F,
) -> Outcome {
    match instruction {
        Instruction::Sin => replace_top(vm, of_degrees(fpu, Op::Sin, top(vm))),
        Instruction::Cos => replace_top(vm, of_degrees(fpu, Op::Cos, top(vm))),
        Instruction::Tan => replace_top(vm, of_degrees(fpu, Op::Tan, top(vm))),
        Instruction::Asin => replace_top(vm, in_degrees(fpu, Op::Asin, top(vm), 0)),
        Instruction::Acos => replace_top(vm, in_degrees(fpu, Op::Acos, top(vm), 0)),
        Instruction::Atan => replace_top(vm, in_degrees(fpu, Op::Atan, top(vm), 0)),
        Instruction::Atan2 => replace_top_two(vm, in_degrees(fpu, Op::Atan2, second(vm), top(vm))),
        Instruction::Abs => replace_top(vm, ieee::spec_abs(top(vm))),
        Instruction::SinOp(op) => into_result(vm, of_degrees(fpu, Op::Sin, op.value_in(vm))),
        Instruction::CosOp(op) => into_result(vm, of_degrees(fpu, Op::Cos, op.value_in(vm))),
        Instruction::TanOp(op) => into_result(vm, of_degrees(fpu, Op::Tan, op.value_in(vm))),
        Instruction::AsinOp(op) => into_result(vm, in_degrees(fpu, Op::Asin, op.value_in(vm), 0)),
        Instruction::AcosOp(op) => into_result(vm, in_degrees(fpu, Op::Acos, op.value_in(vm), 0)),
        Instruction::AtanOp(op) => into_result(vm, in_degrees(fpu, Op::Atan, op.value_in(vm), 0)),
        Instruction::Atan2Op(y, x) => into_result(
            vm,
            in_degrees(fpu, Op::Atan2, y.value_in(vm), x.value_in(vm)),
        ),
        Instruction::AbsOp(op) => into_result(vm, ieee::spec_abs(op.value_in(vm))),
        _ => failed(vm, VMFault::InvalidInstruction),
    }
}

/// A function of an angle in degrees, on the stack.
fn of_degrees_on_stack<F: Fn(Op, u64, u64) -> u64>(vm: &mut VMState, op: Op, fpu: &F) -> (res:
    Result<(), VMFault>)
    requires
        old(vm).wf(),
        is_unit(fpu),
    ensures
        final(vm).wf(),
        final(vm)@ == replace_top(old(vm)@, of_degrees(fpu, op, top(old(vm)@))).vm,
        res == replace_top(old(vm)@, of_degrees(fpu, op, top(old(vm)@))).result,
{
    let degrees = pop_number(vm)?;
    push_number(vm, ask_of_degrees(fpu, op, degrees))
}

/// A function that gives an angle in degrees, on the stack.
fn in_degrees_on_stack<F: Fn(Op, u64, u64) -> u64>(vm: &mut VMState, op: Op, fpu: &F) -> (res:
    Result<(), VMFault>)
    requires
        old(vm).wf(),
        is_unit(fpu),
    ensures
        final(vm).wf(),
        final(vm)@ == replace_top(old(vm)@, in_degrees(fpu, op, top(old(vm)@), 0)).vm,
        res == replace_top(old(vm)@, in_degrees(fpu, op, top(old(vm)@), 0)).result,
{
    let val = pop_number(vm)?;
    push_number(vm, ask_in_degrees(fpu, op, val, 0))
}

impl TrigonometricOperations {
    pub fn new() -> Self {
        TrigonometricOperations
    }

    /// Whether the instruction is one of this family.
    pub fn can_process(&self, instruction: &Instruction) -> (can: bool)
        ensures
            can == is_trigonometric_instruction(*instruction),
    {
        matches!(
            instruction,
            Instruction::Sin
                | Instruction::Cos
                | Instruction::Tan
                | Instruction::Asin
                | Instruction::Acos
                | Instruction::Atan
                | Instruction::Atan2
                | Instruction::Abs
                | Instruction::SinOp(_)
                | Instruction::CosOp(_)
                | Instruction::TanOp(_)
                | Instruction::AsinOp(_)
                | Instruction::AcosOp(_)
                | Instruction::AtanOp(_)
                | Instruction::Atan2Op(_, _)
                | Instruction::AbsOp(_)
        )
    }

    /// Executes a trigonometric instruction on the robot's machine. Nothing
    /// else of the robot changes, and no command is queued.
    pub fn process<F: Fn(Op, u64, u64) -> u64>(
        &self,
        robot: &mut Robot,
        _all_robots: &Vec<RobotInfo>,
        _arena: &Arena,
        instruction: &Instruction,
        _command_queue: &mut Vec<ArenaCommand>,
        fpu: &F,
    ) -> (res: Result<(), VMFault>)
        requires
            old(robot).wf(),
            is_unit(fpu),
        ensures
            final(robot).wf(),
            final(robot)@ == old(robot)@.with_vm(
                trigonometric_outcome(old(robot)@.vm, *instruction, fpu).vm,
            ),
            res == trigonometric_outcome(old(robot)@.vm, *instruction, fpu).result,
            final(_command_queue)@ == old(_command_queue)@,
    {
        match instruction {
            Instruction::Sin => of_degrees_on_stack(&mut robot.vm_state, Op::Sin, fpu),
            Instruction::Cos => of_degrees_on_stack(&mut robot.vm_state, Op::Cos, fpu),
            Instruction::Tan => of_degrees_on_stack(&mut robot.vm_state, Op::Tan, fpu),
            Instruction::Asin => in_degrees_on_stack(&mut robot.vm_state, Op::Asin, fpu),
            Instruction::Acos => in_degrees_on_stack(&mut robot.vm_state, Op::Acos, fpu),
            Instruction::Atan => in_degrees_on_stack(&mut robot.vm_state, Op::Atan, fpu),
            Instruction::Atan2 => {
                let x = pop_number(&mut robot.vm_state)?;
                let y = pop_number(&mut robot.vm_state)?;
                push_number(&mut robot.vm_state, ask_in_degrees(fpu, Op::Atan2, y, x))
            },
            Instruction::Abs => {
                let val = pop_number(&mut robot.vm_state)?;
                push_number(&mut robot.vm_state, ieee::abs(val))
            },
            Instruction::SinOp(op) => {
                let degrees = read(op, &robot.vm_state);
                let result_val = ask_of_degrees(fpu, Op::Sin, degrees);
                write_register(&mut robot.vm_state, Register::Result, result_val)
            },
            Instruction::CosOp(op) => {
                let degrees = read(op, &robot.vm_state);
                let result_val = ask_of_degrees(fpu, Op::Cos, degrees);
                write_register(&mut robot.vm_state, Register::Result, result_val)
            },
            Instruction::TanOp(op) => {
                let degrees = read(op, &robot.vm_state);
                let result_val = ask_of_degrees(fpu, Op::Tan, degrees);
                write_register(&mut robot.vm_state, Register::Result, result_val)
            },
            Instruction::AsinOp(op) => {
                let val = read(op, &robot.vm_state);
                let result_val = ask_in_degrees(fpu, Op::Asin, val, 0);
                write_register(&mut robot.vm_state, Register::Result, result_val)
            },
            Instruction::AcosOp(op) => {
                let val = read(op, &robot.vm_state);
                let result_val = ask_in_degrees(fpu, Op::Acos, val, 0);
                write_register(&mut robot.vm_state, Register::Result, result_val)
            },
            Instruction::AtanOp(op) => {
                let val = read(op, &robot.vm_state);
                let result_val = ask_in_degrees(fpu, Op::Atan, val, 0);
                write_register(&mut robot.vm_state, Register::Result, result_val)
            },
            Instruction::Atan2Op(y_op, x_op) => {
                let y = read(y_op, &robot.vm_state);
                let x = read(x_op, &robot.vm_state);
                let result_val = ask_in_degrees(fpu, Op::Atan2, y, x);
                write_register(&mut robot.vm_state, Register::Result, result_val)
            },
            Instruction::AbsOp(op) => {
                let val = read(op, &robot.vm_state);
                write_register(&mut robot.vm_state, Register::Result, ieee::abs(val))
            },
            _ => Err(VMFault::InvalidInstruction),
        }
    }
}

} // verus!
