//! The bitwise instructions. They work on the low 32 bits of what a number
//! is as an unsigned integer, and give the result back as a number.
use super::arithmetic_ops::into_result;
use super::{done, failed, pop_number, popped, push_number, read, replace_top, replace_top_two, second, top, write_register, Outcome};
use crate::arena::Arena;
use crate::fpu::{is_unit, Op};
use crate::ieee;
use crate::robot::{Robot, RobotInfo};
use crate::types::ArenaCommand;
use crate::vm::error::VMFault;
use crate::vm::instruction::Instruction;
use crate::vm::operand::Operand;
use crate::vm::registers::Register;
use crate::vm::state::{VMState, VMView};
use vstd::prelude::*;

verus! {

/// The processor of the bitwise instructions.
pub struct BitwiseOperations;

/// The instructions of this family.
pub open spec fn is_bitwise_instruction(instruction: Instruction) -> bool {
    match instruction {
        Instruction::And
        | Instruction::Or
        | Instruction::Xor
        | Instruction::Not
        | Instruction::Shl
        | Instruction::Shr
        | Instruction::AndOp(_, _)
        | Instruction::OrOp(_, _)
        | Instruction::XorOp(_, _)
        | Instruction::NotOp(_)
        | Instruction::ShlOp(_, _)
        | Instruction::ShrOp(_, _) => true,
        _ => false,
    }
}

/// An operation on two 32-bit patterns.
#[derive(Debug, Clone, Copy, PartialEq, Eq, Structural)]
pub enum BitOp {
    And,
    Or,
    Xor,
    Shl,
    Shr,
}

/// The number of places that a shift by `amount` moves: its whole part, and
/// no more than 31.
pub open spec fn shift_places(amount: u64) -> u32 {
    if ieee::spec_to_u32(amount) > 31 {
        31
    } else {
        ieee::spec_to_u32(amount)
    }
}

/// The word of what a bitwise operation makes of two numbers.
pub open spec fn bits_of(op: BitOp, a: u64, b: u64) -> u64 {
    let x = ieee::spec_to_u32(a);
    let y = ieee::spec_to_u32(b);
    ieee::integer_word(
        match op {
            BitOp::And => x & y,
            BitOp::Or => x | y,
            BitOp::Xor => x ^ y,
            BitOp::Shl => x << shift_places(b),
            BitOp::Shr => x >> shift_places(b),
        } as nat,
    )
}

/// The word of the complement of a number's 32 bits.
pub open spec fn complement_of(a: u64) -> u64 {
    ieee::integer_word((!ieee::spec_to_u32(a)) as nat)
}

/// A shift is refused where its amount is -1 or below; the fault is the one
/// of a division by zero.
pub open spec fn refuses(op: BitOp, b: u64) -> bool {
    (op == BitOp::Shl || op == BitOp::Shr) && ieee::casts_negative(b)
}

/// `a op b` on the stack: both numbers are taken, then the amount of a shift
/// is tested.
pub open spec fn bits_on_stack(vm: VMView, op: BitOp) -> Outcome {
    if vm.stack.len() >= 2 && refuses(op, top(vm)) {
        failed(popped(popped(vm)), VMFault::DivisionByZero)
    } else {
        replace_top_two(vm, bits_of(op, second(vm), top(vm)))
    }
}

/// `left op right` into the result register.
pub open spec fn bits_on_operands(vm: VMView, op: BitOp, left: Operand, right: Operand) -> Outcome {
    if refuses(op, right.value_in(vm)) {
        failed(vm, VMFault::DivisionByZero)
    } else {
        into_result(vm, bits_of(op, left.value_in(vm), right.value_in(vm)))
    }
}

/// What a bitwise instruction does to the machine.
pub open spec fn bitwise_outcome(vm: VMView, instruction: Instruction) -> Outcome {
    match instruction {
        Instruction::And => bits_on_stack(vm, BitOp::And),
        Instruction::Or => bits_on_stack(vm, BitOp::Or),
        Instruction::Xor => bits_on_stack(vm, BitOp::Xor),
        Instruction::Not => replace_top(vm, complement_of(top(vm))),
        Instruction::Shl => bits_on_stack(vm, BitOp::Shl),
        Instruction::Shr => bits_on_stack(vm, BitOp::Shr),
        Instruction::AndOp(l, r) => bits_on_operands(vm, BitOp::And, l, r),
        Instruction::OrOp(l, r) => bits_on_operands(vm, BitOp::Or, l, r),
        Instruction::XorOp(l, r) => bits_on_operands(vm, BitOp::Xor, l, r),
        Instruction::NotOp(op) => into_result(vm, complement_of(op.value_in(vm))),
        Instruction::ShlOp(l, r) => bits_on_operands(vm, BitOp::Shl, l, r),
        Instruction::ShrOp(l, r) => bits_on_operands(vm, BitOp::Shr, l, r),
        _ => failed(vm, VMFault::InvalidInstruction),
    }
}

/// What a bitwise operation makes of two numbers, unless it refuses.
fn combine(op: BitOp, a: u64, b: u64) -> (res: Result<u64, VMFault>)
    ensures
        refuses(op, b) ==> res == Err::<u64, VMFault>(VMFault::DivisionByZero),
        !refuses(op, b) ==> res == Ok::<u64, VMFault>(bits_of(op, a, b)),
{
    let x = ieee::to_u32(a);
    let y = ieee::to_u32(b);
    let bits = match op {
        BitOp::And => x & y,
        BitOp::Or => x | y,
        BitOp::Xor => x ^ y,
        BitOp::Shl | BitOp::Shr => {
            if ieee::is_cast_negative(b) {
                return Err(VMFault::DivisionByZero);
            }
            let shift_amount: u32 = if y > 31 {
                31
            } else {
                y
            };
            match op {
                BitOp::Shl => x << shift_amount,
                _ => x >> shift_amount,
            }
        },
    };
    Ok(ieee::from_u32(bits))
}

/// `a op b` on the stack.
fn combine_on_stack(vm: &mut VMState, op: BitOp) -> (res: Result<(), VMFault>)
    requires
        old(vm).wf(),
    ensures
        final(vm).wf(),
        final(vm)@ == bits_on_stack(old(vm)@, op).vm,
        res == bits_on_stack(old(vm)@, op).result,
{
    let b = pop_number(vm)?;
    let a = pop_number(vm)?;
    let bits = combine(op, a, b)?;
    push_number(vm, bits)
}

/// `left op right` into the result register.
fn combine_operands(vm: &mut VMState, op: BitOp, left: &Operand, right: &Operand) -> (res: Result<
    (),
    VMFault,
>)
    requires
        old(vm).wf(),
    ensures
        final(vm).wf(),
        final(vm)@ == bits_on_operands(old(vm)@, op, *left, *right).vm,
        res == bits_on_operands(old(vm)@, op, *left, *right).result,
{
    let left_val = read(left, vm);
    let right_val = read(right, vm);
    let bits = combine(op, left_val, right_val)?;
    write_register(vm, Register::Result, bits)
}

impl BitwiseOperations {
    pub fn new() -> Self {
        BitwiseOperations
    }

    /// Whether the instruction is one of this family.
    pub fn can_process(&self, instruction: &Instruction) -> (can: bool)
        ensures
            can == is_bitwise_instruction(*instruction),
    {
        matches!(
            instruction,
            Instruction::And
                | Instruction::Or
                | Instruction::Xor
                | Instruction::Not
                | Instruction::Shl
                | Instruction::Shr
                | Instruction::AndOp(_, _)
                | Instruction::OrOp(_, _)
                | Instruction::XorOp(_, _)
                | Instruction::NotOp(_)
                | Instruction::ShlOp(_, _)
                | Instruction::ShrOp(_, _)
        )
    }

    /// Executes a bitwise instruction on the robot's machine. Nothing else of
    /// the robot changes, and no command is queued.
    pub fn process<F: Fn(Op, u64, u64) -> u64>(
        &self,
        robot: &mut Robot,
        _all_robots: &Vec<RobotInfo>,
        _arena: &Arena,
        instruction: &Instruction,
        _command_queue: &mut Vec<ArenaCommand>,
        _fpu: &F,
    ) -> (res: Result<(), VMFault>)
        requires
            old(robot).wf(),
        ensures
            final(robot).wf(),
            final(robot)@ == old(robot)@.with_vm(bitwise_outcome(old(robot)@.vm, *instruction).vm),
            res == bitwise_outcome(old(robot)@.vm, *instruction).result,
            final(_command_queue)@ == old(_command_queue)@,
    {
        match instruction {
            Instruction::And => combine_on_stack(&mut robot.vm_state, BitOp::And),
            Instruction::Or => combine_on_stack(&mut robot.vm_state, BitOp::Or),
            Instruction::Xor => combine_on_stack(&mut robot.vm_state, BitOp::Xor),
            Instruction::Not => {
                let val = ieee::to_u32(pop_number(&mut robot.vm_state)?);
                push_number(&mut robot.vm_state, ieee::from_u32(!val))
            },
            Instruction::Shl => combine_on_stack(&mut robot.vm_state, BitOp::Shl),
            Instruction::Shr => combine_on_stack(&mut robot.vm_state, BitOp::Shr),
            Instruction::AndOp(left, right) => combine_operands(
                &mut robot.vm_state,
                BitOp::And,
                left,
                right,
            ),
            Instruction::OrOp(left, right) => combine_operands(
                &mut robot.vm_state,
                BitOp::Or,
                left,
                right,
            ),
            Instruction::XorOp(left, right) => combine_operands(
                &mut robot.vm_state,
                BitOp::Xor,
                left,
                right,
            ),
            Instruction::NotOp(op) => {
                let val = ieee::to_u32(read(op, &robot.vm_state));
                write_register(&mut robot.vm_state, Register::Result, ieee::from_u32(!val))
            },
            Instruction::ShlOp(left, right) => combine_operands(
                &mut robot.vm_state,
                BitOp::Shl,
                left,
                right,
            ),
            Instruction::ShrOp(left, right) => combine_operands(
                &mut robot.vm_state,
                BitOp::Shr,
                left,
                right,
            ),
            _ => Err(VMFault::InvalidInstruction),
        }
    }
}

} // verus!
