//! The arithmetic instructions.
use super::{done, failed, pop_number, popped, push_number, read, replace_top, replace_top_two, second, top, write_register, Outcome};
use crate::arena::Arena;
use crate::fpu::{answer, answer1, ask, ask1, is_unit, Op};
use crate::ieee;
use crate::robot::{Robot, RobotInfo};
use crate::types::ArenaCommand;
use crate::vm::error::VMFault;
use crate::vm::instruction::Instruction;
use crate::vm::operand::Operand;
use crate::vm::registers::Register;
use crate::vm::state::{VMState, VMView};
use vstd::prelude::*;

verus! {

/// The processor of the arithmetic instructions.
pub struct ArithmeticOperations;

/// The instructions of this family.
pub open spec fn is_arithmetic_instruction(instruction: Instruction) -> bool {
    match instruction {
        Instruction::Add
        | Instruction::Sub
        | Instruction::Mul
        | Instruction::Div
        | Instruction::Mod
        | Instruction::Divmod
        | Instruction::Pow
        | Instruction::Sqrt
        | Instruction::Log
        | Instruction::AddOp(_, _)
        | Instruction::SubOp(_, _)
        | Instruction::MulOp(_, _)
        | Instruction::DivOp(_, _)
        | Instruction::ModOp(_, _)
        | Instruction::PowOp(_, _)
        | Instruction::SqrtOp(_)
        | Instruction::LogOp(_) => true,
        _ => false,
    }
}

/// `a / b` or `a % b` on the stack: the divisor is taken and tested before
/// the dividend is taken.
pub open spec fn divide_on_stack<F: Fn(Op, u64, u64) -> u64>(vm: VMView, op: Op, fpu: &F) -> Outcome {
    if vm.stack.len() == 0 {
        failed(vm, VMFault::StackUnderflow)
    } else if ieee::spec_is_zero(top(vm)) {
        failed(popped(vm), VMFault::DivisionByZero)
    } else {
        replace_top_two(vm, answer(fpu, op, second(vm), top(vm)))
    }
}

/// `divmod`: both numbers are taken, then the divisor is tested. The
/// remainder goes on the stack first, the quotient, rounded down to a whole
/// number, on top of it.
pub open spec fn divmod_on_stack<F: Fn(Op, u64, u64) -> u64>(vm: VMView, fpu: &F) -> Outcome {
    if vm.stack.len() == 0 {
        failed(vm, VMFault::StackUnderflow)
    } else if vm.stack.len() == 1 {
        failed(popped(vm), VMFault::StackUnderflow)
    } else if ieee::spec_is_zero(top(vm)) {
        failed(popped(popped(vm)), VMFault::DivisionByZero)
    } else {
        done(
            vm.with_stack(
                vm.stack.drop_last().drop_last().push(
                    answer(fpu, Op::Rem, second(vm), top(vm)),
                ).push(answer1(fpu, Op::Floor, answer(fpu, Op::Div, second(vm), top(vm)))),
            ),
        )
    }
}

/// The result register takes a number.
pub open spec fn into_result(vm: VMView, value: u64) -> Outcome {
    done(vm.with_reg(Register::Result, value))
}

/// `left / right` or `left % right` into the result register.
pub open spec fn divide_operands<F: Fn(Op, u64, u64) -> u64>(
    vm: VMView,
    op: Op,
    left: Operand,
    right: Operand,
    fpu: &F,
) -> Outcome {
    if ieee::spec_is_zero(right.value_in(vm)) {
        failed(vm, VMFault::DivisionByZero)
    } else {
        into_result(vm, answer(fpu, op, left.value_in(vm), right.value_in(vm)))
    }
}

/// What an arithmetic instruction does to the machine. In `a op b` on the
/// stack, `b` is the top number and `a` the one below it.
pub open spec fn arithmetic_outcome<F: Fn(Op, u64, u64) -> u64>(
    vm: VMView,
    instruction: Instruction,
    fpu: &F,
) -> Outcome {
    match instruction {
        Instruction::Add => replace_top_two(vm, answer(fpu, Op::Add, second(vm), top(vm))),
        Instruction::Sub => replace_top_two(vm, answer(fpu, Op::Sub, second(vm), top(vm))),
        Instruction::Mul => replace_top_two(vm, answer(fpu, Op::Mul, second(vm), top(vm))),
        Instruction::Div => divide_on_stack(vm, Op::Div, fpu),
        Instruction::Mod => divide_on_stack(vm, Op::Rem, fpu),
        Instruction::Divmod => divmod_on_stack(vm, fpu),
        Instruction::Pow => replace_top_two(vm, answer(fpu, Op::Pow, second(vm), top(vm))),
        Instruction::Sqrt => replace_top(vm, answer1(fpu, Op::Sqrt, top(vm))),
        Instruction::Log => replace_top(vm, answer1(fpu, Op::Ln, top(vm))),
        Instruction::AddOp(l, r) => into_result(
            vm,
            answer(fpu, Op::Add, l.value_in(vm), r.value_in(vm)),
        ),
        Instruction::SubOp(l, r) => into_result(
            vm,
            answer(fpu, Op::Sub, l.value_in(vm), r.value_in(vm)),
        ),
        Instruction::MulOp(l, r) => into_result(
            vm,
            answer(fpu, Op::Mul, l.value_in(vm), r.value_in(vm)),
        ),
        Instruction::DivOp(l, r) => divide_operands(vm, Op::Div, l, r, fpu),
        Instruction::ModOp(l, r) => divide_operands(vm, Op::Rem, l, r, fpu),
        Instruction::PowOp(l, r) => into_result(
            vm,
            answer(fpu, Op::Pow, l.value_in(vm), r.value_in(vm)),
        ),
        Instruction::SqrtOp(op) => into_result(vm, answer1(fpu, Op::Sqrt, op.value_in(vm))),
        Instruction::LogOp(op) => into_result(vm, answer1(fpu, Op::Ln, op.value_in(vm))),
        _ => failed(vm, VMFault::InvalidInstruction),
    }
}

/// `a op b` on the stack.
fn binary_on_stack<F: Fn(Op, u64, u64) -> u64>(vm: &mut VMState, op: Op, fpu: &F) -> (res: Result<
    (),
    VMFault,
>)
    requires
        old(vm).wf(),
        is_unit(fpu),
    ensures
        final(vm).wf(),
        final(vm)@ == replace_top_two(old(vm)@, answer(fpu, op, second(old(vm)@), top(old(vm)@))).vm,
        res == replace_top_two(old(vm)@, answer(fpu, op, second(old(vm)@), top(old(vm)@))).result,
{
    let b = pop_number(vm)?;
    let a = pop_number(vm)?;
    push_number(vm, ask(fpu, op, a, b))
}

/// `op a` on the stack.
fn unary_on_stack<F: Fn(Op, u64, u64) -> u64>(vm: &mut VMState, op: Op, fpu: &F) -> (res: Result<
    (),
    VMFault,
>)
    requires
        old(vm).wf(),
        is_unit(fpu),
    ensures
        final(vm).wf(),
        final(vm)@ == replace_top(old(vm)@, answer1(fpu, op, top(old(vm)@))).vm,
        res == replace_top(old(vm)@, answer1(fpu, op, top(old(vm)@))).result,
{
    let a = pop_number(vm)?;
    push_number(vm, ask1(fpu, op, a))
}

/// `a / b` or `a % b` on the stack.
fn division_on_stack<F: Fn(Op, u64, u64) -> u64>(vm: &mut VMState, op: Op, fpu: &F) -> (res: Result<
    (),
    VMFault,
>)
    requires
        old(vm).wf(),
        is_unit(fpu),
    ensures
        final(vm).wf(),
        final(vm)@ == divide_on_stack(old(vm)@, op, fpu).vm,
        res == divide_on_stack(old(vm)@, op, fpu).result,
{
    let b = pop_number(vm)?;
    if ieee::is_zero(b) {
        return Err(VMFault::DivisionByZero);
    }
    let a = pop_number(vm)?;
    push_number(vm, ask(fpu, op, a, b))
}

/// `left op right` into the result register.
fn binary_on_operands<F: Fn(Op, u64, u64) -> u64>(
    vm: &mut VMState,
    op: Op,
    left: &Operand,
    right: &Operand,
    fpu: &F,
) -> (res: Result<(), VMFault>)
    requires
        old(vm).wf(),
        is_unit(fpu),
    ensures
        final(vm).wf(),
        final(vm)@ == into_result(
            old(vm)@,
            answer(fpu, op, left.value_in(old(vm)@), right.value_in(old(vm)@)),
        ).vm,
        res == Ok::<(), VMFault>(()),
{
    let left_val = read(left, vm);
    let right_val = read(right, vm);
    write_register(vm, Register::Result, ask(fpu, op, left_val, right_val))
}

/// `left / right` or `left % right` into the result register.
fn division_on_operands<F: Fn(Op, u64, u64) -> u64>(
    vm: &mut VMState,
    op: Op,
    left: &Operand,
    right: &Operand,
    fpu: &F,
) -> (res: Result<(), VMFault>)
    requires
        old(vm).wf(),
        is_unit(fpu),
    ensures
        final(vm).wf(),
        final(vm)@ == divide_operands(old(vm)@, op, *left, *right, fpu).vm,
        res == divide_operands(old(vm)@, op, *left, *right, fpu).result,
{
    let left_val = read(left, vm);
    let right_val = read(right, vm);
    if ieee::is_zero(right_val) {
        return Err(VMFault::DivisionByZero);
    }
    write_register(vm, Register::Result, ask(fpu, op, left_val, right_val))
}

impl ArithmeticOperations {
    pub fn new() -> Self {
        ArithmeticOperations
    }

    /// Whether the instruction is one of this family.
    pub fn can_process(&self, instruction: &Instruction) -> (can: bool)
        ensures
            can == is_arithmetic_instruction(*instruction),
    {
        matches!(
            instruction,
            Instruction::Add
                | Instruction::Sub
                | Instruction::Mul
                | Instruction::Div
                | Instruction::Mod
                | Instruction::Divmod
                | Instruction::Pow
                | Instruction::Sqrt
                | Instruction::Log
                | Instruction::AddOp(_, _)
                | Instruction::SubOp(_, _)
                | Instruction::MulOp(_, _)
                | Instruction::DivOp(_, _)
                | Instruction::ModOp(_, _)
                | Instruction::PowOp(_, _)
                | Instruction::SqrtOp(_)
                | Instruction::LogOp(_)
        )
    }

    /// Executes an arithmetic instruction on the robot's machine. Nothing
    /// else of the robot changes, and no command is queued.
    pub fn process<F: Fn(Op, u64, u64) -> u64>(
        &self,
        robot: &mut Robot,
        _all_robots: &Vec<RobotInfo>,
        _arena: &Arena,
        instruction: &Instruction,
        _command_queue: &mut Vec<ArenaCommand>,
        fpu: &F,
    ) -> (res: Result<(), VMFault>)
        requires
            old(robot).wf(),
            is_unit(fpu),
        ensures
            final(robot).wf(),
            final(robot)@ == old(robot)@.with_vm(
                arithmetic_outcome(old(robot)@.vm, *instruction, fpu).vm,
            ),
            res == arithmetic_outcome(old(robot)@.vm, *instruction, fpu).result,
            final(_command_queue)@ == old(_command_queue)@,
    {
        match instruction {
            Instruction::Add => binary_on_stack(&mut robot.vm_state, Op::Add, fpu),
            Instruction::Sub => binary_on_stack(&mut robot.vm_state, Op::Sub, fpu),
            Instruction::Mul => binary_on_stack(&mut robot.vm_state, Op::Mul, fpu),
            Instruction::Div => division_on_stack(&mut robot.vm_state, Op::Div, fpu),
            Instruction::Mod => division_on_stack(&mut robot.vm_state, Op::Rem, fpu),
            Instruction::Divmod => {
                let b = pop_number(&mut robot.vm_state)?;
                let a = pop_number(&mut robot.vm_state)?;
                if ieee::is_zero(b) {
                    return Err(VMFault::DivisionByZero);
                }
                let quotient = ask1(fpu, Op::Floor, ask(fpu, Op::Div, a, b));
                let remainder = ask(fpu, Op::Rem, a, b);
                push_number(&mut robot.vm_state, remainder)?;
                push_number(&mut robot.vm_state, quotient)
            },
            Instruction::Pow => binary_on_stack(&mut robot.vm_state, Op::Pow, fpu),
            Instruction::Sqrt => unary_on_stack(&mut robot.vm_state, Op::Sqrt, fpu),
            Instruction::Log => unary_on_stack(&mut robot.vm_state, Op::Ln, fpu),
            Instruction::AddOp(left, right) => binary_on_operands(
                &mut robot.vm_state,
                Op::Add,
                left,
                right,
                fpu,
            ),
            Instruction::SubOp(left, right) => binary_on_operands(
                &mut robot.vm_state,
                Op::Sub,
                left,
                right,
                fpu,
            ),
            Instruction::MulOp(left, right) => binary_on_operands(
                &mut robot.vm_state,
                Op::Mul,
                left,
                right,
                fpu,
            ),
            Instruction::DivOp(left, right) => division_on_operands(
                &mut robot.vm_state,
                Op::Div,
                left,
                right,
                fpu,
            ),
            Instruction::ModOp(left, right) => division_on_operands(
                &mut robot.vm_state,
                Op::Rem,
                left,
                right,
                fpu,
            ),
            Instruction::PowOp(base, exponent) => binary_on_operands(
                &mut robot.vm_state,
                Op::Pow,
                base,
                exponent,
                fpu,
            ),
            Instruction::SqrtOp(op) => {
                let val = read(op, &robot.vm_state);
                write_register(&mut robot.vm_state, Register::Result, ask1(fpu, Op::Sqrt, val))
            },
            Instruction::LogOp(op) => {
                let val = read(op, &robot.vm_state);
                write_register(&mut robot.vm_state, Register::Result, ask1(fpu, Op::Ln, val))
            },
            _ => Err(VMFault::InvalidInstruction),
        }
    }
}

} // verus!
