//! The instructions of the machine and what each costs in cycles.
use super::operand::Operand;
use super::registers::Register;
use super::state::{VMState, VMView};
use crate::fpu::{answer, answer1, ask, ask1, is_unit, Op};
use crate::ieee;
use vstd::prelude::*;

verus! {

/// An instruction. The arithmetic, trigonometric and bitwise instructions
/// come in two forms: without operands they work on the operand stack, with
/// operands they write the result register. Jump targets are indices into
/// the program.
#[derive(Debug, Clone, Copy, PartialEq, Eq, Structural)]
pub enum Instruction {
    // Stack
    Push(Operand),
    Pop(Register),
    PopDiscard,
    Dup,
    Swap,
    // Registers
    Mov(Register, Operand),
    Cmp(Operand, Operand),
    // Memory
    Lod(Register),
    Sto(Operand),
    // Arithmetic on the stack
    Add,
    Sub,
    Mul,
    Div,
    Mod,
    Divmod,
    Pow,
    Sqrt,
    Log,
    Sin,
    Cos,
    Tan,
    Asin,
    Acos,
    Atan,
    Atan2,
    Abs,
    // Arithmetic on operands, into the result register
    AddOp(Operand, Operand),
    SubOp(Operand, Operand),
    MulOp(Operand, Operand),
    DivOp(Operand, Operand),
    ModOp(Operand, Operand),
    PowOp(Operand, Operand),
    SqrtOp(Operand),
    LogOp(Operand),
    SinOp(Operand),
    CosOp(Operand),
    TanOp(Operand),
    AsinOp(Operand),
    AcosOp(Operand),
    AtanOp(Operand),
    Atan2Op(Operand, Operand),
    AbsOp(Operand),
    // Bits, on the stack
    And,
    Or,
    Xor,
    Not,
    Shl,
    Shr,
    // Bits, on operands, into the result register
    AndOp(Operand, Operand),
    OrOp(Operand, Operand),
    XorOp(Operand, Operand),
    NotOp(Operand),
    ShlOp(Operand, Operand),
    ShrOp(Operand, Operand),
    // Control flow
    Jmp(usize),
    Jz(usize),
    Jnz(usize),
    Jl(usize),
    Jle(usize),
    Jg(usize),
    Jge(usize),
    Call(usize),
    Ret,
    Loop(usize),
    // Components
    Select(Operand),
    Deselect,
    Rotate(Operand),
    Drive(Operand),
    // Combat
    Fire(Operand),
    Scan,
    // Miscellaneous
    Nop,
    Dbg(Operand),
    Sleep(Operand),
}

/// What a rotation by `angle` degrees costs: one cycle, and one more for
/// every 45 degrees begun. The cost stops at the largest `u32`.
pub open spec fn rotate_cost<F: Fn(Op, u64, u64) -> u64>(fpu: &F, angle: u64) -> u32 {
    let steps = ieee::spec_to_u32(
        answer1(fpu, Op::Ceil, answer(fpu, Op::Div, ieee::spec_abs(angle), ieee::FORTY_FIVE)),
    );
    if steps == u32::MAX {
        u32::MAX
    } else {
        (1 + steps) as u32
    }
}

/// What a sleep of `n` cycles costs: the whole part of `n`, and never less
/// than one cycle.
pub open spec fn sleep_cost(n: u64) -> u32 {
    ieee::spec_to_u32(ieee::spec_max(n, ieee::ONE))
}

impl Instruction {
    /// The number of cycles the instruction takes, in a state of the machine.
    /// Where the angle of a rotation stands in a register, the register is
    /// read now, as the instruction is dispatched.
    pub open spec fn spec_cycle_cost<F: Fn(Op, u64, u64) -> u64>(
        self,
        vm: VMView,
        fpu: &F,
    ) -> u32 {
        match self {
            Instruction::Pow
            | Instruction::Sqrt
            | Instruction::Log
            | Instruction::Sin
            | Instruction::Cos
            | Instruction::Tan
            | Instruction::Asin
            | Instruction::Acos
            | Instruction::Atan
            | Instruction::Atan2
            | Instruction::PowOp(_, _)
            | Instruction::SqrtOp(_)
            | Instruction::LogOp(_)
            | Instruction::SinOp(_)
            | Instruction::CosOp(_)
            | Instruction::TanOp(_)
            | Instruction::AsinOp(_)
            | Instruction::AcosOp(_)
            | Instruction::AtanOp(_)
            | Instruction::Atan2Op(_, _)
            | Instruction::Call(_)
            | Instruction::Ret => 2,
            Instruction::Fire(_) => 3,
            Instruction::Rotate(op) => rotate_cost(fpu, op.value_in(vm)),
            Instruction::Sleep(op) => sleep_cost(op.value_in(vm)),
            _ => 1,
        }
    }

    /// The number of cycles the instruction takes.
    pub fn cycle_cost<F: Fn(Op, u64, u64) -> u64>(&self, vm_state: &VMState, fpu: &F) -> (cost: u32)
        requires
            vm_state.wf(),
            is_unit(fpu),
        ensures
            cost == self.spec_cycle_cost(vm_state@, fpu),
            cost >= 1,
    {
        match self {
            Instruction::Push(_)
            | Instruction::Pop(_)
            | Instruction::PopDiscard
            | Instruction::Dup
            | Instruction::Swap => 1,
            Instruction::Mov(_, _) | Instruction::Cmp(_, _) => 1,
            Instruction::Lod(_) | Instruction::Sto(_) => 1,
            Instruction::And
            | Instruction::Or
            | Instruction::Xor
            | Instruction::Not
            | Instruction::Shl
            | Instruction::Shr => 1,
            Instruction::Jmp(_)
            | Instruction::Jz(_)
            | Instruction::Jnz(_)
            | Instruction::Jl(_)
            | Instruction::Jle(_)
            | Instruction::Jg(_)
            | Instruction::Jge(_) => 1,
            Instruction::Select(_) | Instruction::Deselect | Instruction::Drive(_) => 1,
            Instruction::Nop | Instruction::Dbg(_) => 1,
            Instruction::Loop(_) => 1,
            Instruction::Add
            | Instruction::Sub
            | Instruction::Mul
            | Instruction::Div
            | Instruction::Mod
            | Instruction::Divmod
            | Instruction::Abs => 1,
            Instruction::Pow | Instruction::Sqrt | Instruction::Log => 2,
            Instruction::Sin | Instruction::Cos | Instruction::Tan => 2,
            Instruction::Asin | Instruction::Acos | Instruction::Atan | Instruction::Atan2 => 2,
            Instruction::AddOp(_, _)
            | Instruction::SubOp(_, _)
            | Instruction::MulOp(_, _)
            | Instruction::DivOp(_, _)
            | Instruction::ModOp(_, _) => 1,
            Instruction::AbsOp(_) => 1,
            Instruction::PowOp(_, _) | Instruction::SqrtOp(_) | Instruction::LogOp(_) => 2,
            Instruction::SinOp(_) | Instruction::CosOp(_) | Instruction::TanOp(_) => 2,
            Instruction::AsinOp(_)
            | Instruction::AcosOp(_)
            | Instruction::AtanOp(_)
            | Instruction::Atan2Op(_, _) => 2,
            Instruction::AndOp(_, _)
            | Instruction::OrOp(_, _)
            | Instruction::XorOp(_, _)
            | Instruction::NotOp(_)
            | Instruction::ShlOp(_, _)
            | Instruction::ShrOp(_, _) => 1,
            Instruction::Call(_) | Instruction::Ret => 2,
            Instruction::Rotate(op) => {
                let angle = match op.get_value(vm_state) {
                    Ok(angle) => angle,
                    Err(_) => {
                        return 2;
                    },
                };
                let turns = ask(fpu, Op::Div, ieee::abs(angle), ieee::FORTY_FIVE);
                let steps = ieee::to_u32(ask1(fpu, Op::Ceil, turns));
                if steps == u32::MAX {
                    u32::MAX
                } else {
                    1 + steps
                }
            },
            Instruction::Fire(_) => 3,
            Instruction::Scan => 1,
            Instruction::Sleep(op) => {
                let cycles = match op.get_value(vm_state) {
                    Ok(cycles) => cycles,
                    Err(_) => {
                        return 1;
                    },
                };
                let cost = ieee::to_u32(ieee::max(cycles, ieee::ONE));
                proof {
                    lemma_sleep_at_least_one(cycles);
                }
                cost
            },
        }
    }
}

/// A sleep costs at least one cycle.
pub proof fn lemma_sleep_at_least_one(n: u64)
    ensures
        sleep_cost(n) >= 1,
{
    let x = ieee::spec_max(n, ieee::ONE);
    assert(!ieee::spec_is_nan(x));
    assert(!ieee::sign_negative(x));
    assert(ieee::biased_exponent(x) >= ieee::EXPONENT_BIAS);
    vstd::arithmetic::power2::lemma2_to64();
    vstd::arithmetic::power2::lemma2_to64_rest();
    let e = ieee::biased_exponent(x);
    let m = ieee::significand(x);
    if ieee::is_finite(x) {
        if e <= ieee::EXPONENT_UNITS {
            let k = (ieee::EXPONENT_UNITS - e) as nat;
            let d = vstd::arithmetic::power2::pow2(k) as int;
            if k < 52 {
                vstd::arithmetic::power2::lemma_pow2_strictly_increases(k, 52);
            }
            assert(m / d >= 1) by (nonlinear_arith)
                requires
                    0 < d <= m,
            ;
        } else {
            let d = vstd::arithmetic::power2::pow2((e - ieee::EXPONENT_UNITS) as nat) as int;
            vstd::arithmetic::power2::lemma_pow2_pos((e - ieee::EXPONENT_UNITS) as nat);
            assert(m * d >= 1) by (nonlinear_arith)
                requires
                    d >= 1,
                    m >= 1,
            ;
        }
    }
}

} // verus!
