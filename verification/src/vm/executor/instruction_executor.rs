//! The executor: it hands an instruction to the first processor that takes
//! it, and keeps the fault register.
use super::arithmetic_ops::{arithmetic_outcome, is_arithmetic_instruction, ArithmeticOperations};
use super::bitwise_ops::{bitwise_outcome, is_bitwise_instruction, BitwiseOperations};
use super::combat_ops::{
    combat_commands,
    combat_outcome,
    is_combat_instruction,
    process_by_id,
    CombatOperations,
};
use super::component_ops::{
    component_outcome,
    is_component_instruction,
    ComponentOperations,
    RobotOutcome,
};
use super::control_flow_ops::{
    control_flow_outcome,
    is_control_flow_instruction,
    ControlFlowOperations,
};
use super::misc_ops::{is_miscellaneous_instruction, miscellaneous_outcome, MiscellaneousOperations};
use super::register_ops::{is_register_instruction, register_outcome, RegisterOperations};
use super::stack_ops::{is_stack_instruction, stack_outcome, StackOperations};
use super::trig_ops::{
    is_trigonometric_instruction,
    trigonometric_outcome,
    TrigonometricOperations,
};
use super::Outcome;
use crate::arena::{Arena, ArenaView};
use crate::fpu::{is_unit, Op};
use crate::ieee;
use crate::robot::{Robot, RobotInfo, RobotView};
use crate::types::ArenaCommand;
use crate::vm::error::VMFault;
use crate::vm::instruction::Instruction;
use crate::vm::registers::Register;
use vstd::prelude::*;

verus! {

/// The processors, in the order in which an instruction is offered to them.
pub struct InstructionExecutor {
    stack: StackOperations,
    register: RegisterOperations,
    arithmetic: ArithmeticOperations,
    trigonometric: TrigonometricOperations,
    bitwise: BitwiseOperations,
    control_flow: ControlFlowOperations,
    component: ComponentOperations,
    combat: CombatOperations,
    miscellaneous: MiscellaneousOperations,
}

/// What an instruction does to a robot and asks of the arena.
pub struct Effect {
    pub robot: RobotView,
    /// The commands queued, in their order.
    pub commands: Seq<ArenaCommand>,
    pub result: Result<(), VMFault>,
}

/// The effect of an instruction that touches the machine alone.
pub open spec fn on_machine(robot: RobotView, outcome: Outcome) -> Effect {
    Effect { robot: robot.with_vm(outcome.vm), commands: Seq::empty(), result: outcome.result }
}

/// The effect of an instruction that touches the robot and queues nothing.
pub open spec fn on_robot(outcome: RobotOutcome) -> Effect {
    Effect { robot: outcome.robot, commands: Seq::empty(), result: outcome.result }
}

/// What the processor that takes the instruction makes of it. The families
/// are asked in a fixed order, and the first that takes the instruction
/// processes it.
pub open spec fn processed<F: Fn(Op, u64, u64) -> u64>(
    robot: RobotView,
    others: Seq<RobotInfo>,
    arena: ArenaView,
    instruction: Instruction,
    fpu: &F,
) -> Effect {
    if is_stack_instruction(instruction) {
        on_machine(robot, stack_outcome(robot.vm, instruction))
    } else if is_register_instruction(instruction) {
        on_machine(robot, register_outcome(robot.vm, instruction, fpu))
    } else if is_arithmetic_instruction(instruction) {
        on_machine(robot, arithmetic_outcome(robot.vm, instruction, fpu))
    } else if is_trigonometric_instruction(instruction) {
        on_machine(robot, trigonometric_outcome(robot.vm, instruction, fpu))
    } else if is_bitwise_instruction(instruction) {
        on_machine(robot, bitwise_outcome(robot.vm, instruction))
    } else if is_control_flow_instruction(instruction) {
        on_machine(robot, control_flow_outcome(robot.vm, instruction, fpu))
    } else if is_component_instruction(instruction) {
        on_robot(component_outcome(robot, instruction, fpu))
    } else if is_combat_instruction(instruction) {
        Effect {
            robot: combat_outcome(robot, others, arena, instruction, fpu).robot,
            commands: combat_commands(robot, instruction, fpu),
            result: combat_outcome(robot, others, arena, instruction, fpu).result,
        }
    } else {
        on_machine(robot, miscellaneous_outcome(robot.vm, instruction))
    }
}

/// The fault register after an instruction: a fault is latched with its
/// code; a success clears a fault latched before.
pub open spec fn settled(effect: Effect) -> Effect {
    match effect.result {
        Ok(()) => if effect.robot.vm.fault is Some {
            Effect { robot: effect.robot.with_vm(effect.robot.vm.without_fault()), ..effect }
        } else {
            effect
        },
        Err(fault) => Effect {
            robot: effect.robot.with_vm(effect.robot.vm.with_fault(fault)),
            ..effect
        },
    }
}

/// What the execution of an instruction leaves.
pub open spec fn executed<F: Fn(Op, u64, u64) -> u64>(
    robot: RobotView,
    others: Seq<RobotInfo>,
    arena: ArenaView,
    instruction: Instruction,
    fpu: &F,
) -> Effect {
    settled(processed(robot, others, arena, instruction, fpu))
}

/// Every instruction belongs to one family, and to one only: dispatch is
/// total, and the order of the processors decides nothing.
pub proof fn lemma_one_family(instruction: Instruction)
    ensures
        (if is_stack_instruction(instruction) {
            1int
        } else {
            0
        }) + (if is_register_instruction(instruction) {
            1int
        } else {
            0
        }) + (if is_arithmetic_instruction(instruction) {
            1int
        } else {
            0
        }) + (if is_trigonometric_instruction(instruction) {
            1int
        } else {
            0
        }) + (if is_bitwise_instruction(instruction) {
            1int
        } else {
            0
        }) + (if is_control_flow_instruction(instruction) {
            1int
        } else {
            0
        }) + (if is_component_instruction(instruction) {
            1int
        } else {
            0
        }) + (if is_combat_instruction(instruction) {
            1int
        } else {
            0
        }) + (if is_miscellaneous_instruction(instruction) {
            1int
        } else {
            0
        }) == 1,
{
}

impl InstructionExecutor {
    /// An executor with all processors in place.
    pub fn new() -> Self {
        InstructionExecutor {
            stack: StackOperations::new(),
            register: RegisterOperations::new(),
            arithmetic: ArithmeticOperations::new(),
            trigonometric: TrigonometricOperations::new(),
            bitwise: BitwiseOperations::new(),
            control_flow: ControlFlowOperations::new(),
            component: ComponentOperations::new(),
            combat: CombatOperations::new(),
            miscellaneous: MiscellaneousOperations::new(),
        }
    }

    /// Hands the instruction to the first processor that takes it.
    fn dispatch<F: Fn(Op, u64, u64) -> u64>(
        &self,
        robot: &mut Robot,
        all_robots: &Vec<RobotInfo>,
        arena: &Arena,
        instr: &Instruction,
        command_queue: &mut Vec<ArenaCommand>,
        fpu: &F,
    ) -> (res: Result<(), VMFault>)
        requires
            old(robot).wf(),
            old(robot)@.vm.ip < usize::MAX,
            is_unit(fpu),
        ensures
            final(robot).wf(),
            final(robot)@ == processed(old(robot)@, all_robots@, arena@, *instr, fpu).robot,
            final(command_queue)@ == old(command_queue)@ + processed(
                old(robot)@,
                all_robots@,
                arena@,
                *instr,
                fpu,
            ).commands,
            res == processed(old(robot)@, all_robots@, arena@, *instr, fpu).result,
    {
        proof {
            lemma_one_family(*instr);
            assert(old(command_queue)@ + Seq::<ArenaCommand>::empty() =~= old(command_queue)@);
        }
        if self.stack.can_process(instr) {
            self.stack.process(robot, all_robots, arena, instr, command_queue, fpu)
        } else if self.register.can_process(instr) {
            self.register.process(robot, all_robots, arena, instr, command_queue, fpu)
        } else if self.arithmetic.can_process(instr) {
            self.arithmetic.process(robot, all_robots, arena, instr, command_queue, fpu)
        } else if self.trigonometric.can_process(instr) {
            self.trigonometric.process(robot, all_robots, arena, instr, command_queue, fpu)
        } else if self.bitwise.can_process(instr) {
            self.bitwise.process(robot, all_robots, arena, instr, command_queue, fpu)
        } else if self.control_flow.can_process(instr) {
            self.control_flow.process(robot, all_robots, arena, instr, command_queue, fpu)
        } else if self.component.can_process(instr) {
            self.component.process(robot, all_robots, arena, instr, command_queue, fpu)
        } else if self.combat.can_process(instr) {
            self.combat.process(robot, all_robots, arena, instr, command_queue, fpu)
        } else {
            self.miscellaneous.process(robot, all_robots, arena, instr, command_queue, fpu)
        }
    }

    /// Executes one instruction on a robot. A fault is latched in the
    /// robot's machine with its code in the fault register; a success clears
    /// a fault latched before and puts 0.0 there. The instruction pointer
    /// must have a successor.
    pub fn execute_instruction<F: Fn(Op, u64, u64) -> u64>(
        &self,
        robot: &mut Robot,
        all_robots: &Vec<RobotInfo>,
        arena: &Arena,
        instr: &Instruction,
        command_queue: &mut Vec<ArenaCommand>,
        fpu: &F,
    ) -> (res: Result<(), VMFault>)
        requires
            old(robot).wf(),
            old(robot)@.vm.ip < usize::MAX,
            is_unit(fpu),
        ensures
            final(robot).wf(),
            final(robot)@ == executed(old(robot)@, all_robots@, arena@, *instr, fpu).robot,
            final(command_queue)@ == old(command_queue)@ + executed(
                old(robot)@,
                all_robots@,
                arena@,
                *instr,
                fpu,
            ).commands,
            res == executed(old(robot)@, all_robots@, arena@, *instr, fpu).result,
    {
        let result = self.dispatch(robot, all_robots, arena, instr, command_queue, fpu);
        match result {
            Ok(()) => {
                if robot.vm_state.fault.is_some() {
                    robot.vm_state.fault = None;
                    let _ = robot.vm_state.registers.set_internal(Register::Fault, ieee::ZERO);
                }
            },
            Err(fault) => {
                robot.vm_state.set_fault(fault);
            },
        }
        result
    }

    /// Executes one instruction on a robot that sees of the arena's robots
    /// what `others` holds. It does what `execute_instruction` does.
    pub fn execute_instruction_by_id<F: Fn(Op, u64, u64) -> u64>(
        &self,
        robot: &mut Robot,
        others: &Vec<RobotInfo>,
        arena: &Arena,
        instr: &Instruction,
        command_queue: &mut Vec<ArenaCommand>,
        fpu: &F,
    ) -> (res: Result<(), VMFault>)
        requires
            old(robot).wf(),
            old(robot)@.vm.ip < usize::MAX,
            is_unit(fpu),
        ensures
            final(robot).wf(),
            final(robot)@ == executed(old(robot)@, others@, arena@, *instr, fpu).robot,
            final(command_queue)@ == old(command_queue)@ + executed(
                old(robot)@,
                others@,
                arena@,
                *instr,
                fpu,
            ).commands,
            res == executed(old(robot)@, others@, arena@, *instr, fpu).result,
    {
        self.execute_instruction(robot, others, arena, instr, command_queue, fpu)
    }
}

} // verus!
