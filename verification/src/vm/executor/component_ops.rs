//! The instructions that steer the drive and the turret.
use super::read;
use crate::arena::Arena;
use crate::config;
use crate::fpu::{answer, ask, is_unit, Op};
use crate::ieee;
use crate::robot::{DriveComponent, Robot, RobotInfo, RobotView, TurretComponent};
use crate::types::ArenaCommand;
use crate::vm::error::VMFault;
use crate::vm::instruction::Instruction;
use crate::vm::registers::Register;
use vstd::prelude::*;

verus! {

/// The processor of the component instructions.
pub struct ComponentOperations;

/// The instructions of this family.
pub open spec fn is_component_instruction(instruction: Instruction) -> bool {
    match instruction {
        Instruction::Select(_)
        | Instruction::Deselect
        | Instruction::Rotate(_)
        | Instruction::Drive(_) => true,
        _ => false,
    }
}

/// No component is selected.
pub const COMPONENT_NONE: u8 = 0;

/// The drive is selected.
pub const COMPONENT_DRIVE: u8 = 1;

/// The turret is selected.
pub const COMPONENT_TURRET: u8 = 2;

/// What the execution of an instruction leaves of a robot: its new state,
/// and success or the fault met.
pub struct RobotOutcome {
    pub robot: RobotView,
    pub result: Result<(), VMFault>,
}

/// The component that the robot's program has selected.
pub open spec fn selected(robot: RobotView) -> u8 {
    ieee::spec_to_u8(robot.vm.reg(Register::Component))
}

/// The velocity that `drive` sets for a speed in grid units per turn: in
/// coordinate units per cycle, and no faster than the drive allows, either
/// way.
pub open spec fn drive_velocity<F: Fn(Op, u64, u64) -> u64>(fpu: &F, speed: u64) -> u64 {
    ieee::spec_clamp(
        answer(fpu, Op::Mul, speed, config::DRIVE_VELOCITY_FACTOR),
        ieee::spec_neg(config::MAX_DRIVE_VELOCITY),
        config::MAX_DRIVE_VELOCITY,
    )
}

/// What a component instruction does to the robot.
///
/// `select` takes 0 for no component, 1 for the drive, 2 for the turret.
/// `rotate` adds its angle to the rotation that the selected component still
/// has to make. `drive` needs the drive selected, and shows the velocity it
/// sets in the velocity register.
pub open spec fn component_outcome<F: Fn(Op, u64, u64) -> u64>(
    robot: RobotView,
    instruction: Instruction,
    fpu: &F,
) -> RobotOutcome {
    match instruction {
        Instruction::Select(op) => {
            let component_id = ieee::spec_to_u8(op.value_in(robot.vm));
            if component_id <= COMPONENT_TURRET {
                RobotOutcome {
                    robot: robot.with_vm(
                        robot.vm.with_reg(
                            Register::Component,
                            ieee::integer_word(component_id as nat),
                        ),
                    ),
                    result: Ok(()),
                }
            } else {
                RobotOutcome { robot, result: Err(VMFault::InvalidComponentForOp) }
            }
        },
        Instruction::Deselect => RobotOutcome {
            robot: robot.with_vm(robot.vm.with_reg(Register::Component, ieee::integer_word(0))),
            result: Ok(()),
        },
        Instruction::Rotate(op) => {
            let angle = op.value_in(robot.vm);
            if selected(robot) == COMPONENT_DRIVE {
                RobotOutcome {
                    robot: RobotView {
                        drive: DriveComponent {
                            pending_rotation: answer(
                                fpu,
                                Op::Add,
                                robot.drive.pending_rotation,
                                angle,
                            ),
                            ..robot.drive
                        },
                        ..robot
                    },
                    result: Ok(()),
                }
            } else if selected(robot) == COMPONENT_TURRET {
                RobotOutcome {
                    robot: RobotView {
                        turret: TurretComponent {
                            pending_rotation: answer(
                                fpu,
                                Op::Add,
                                robot.turret.pending_rotation,
                                angle,
                            ),
                            ..robot.turret
                        },
                        ..robot
                    },
                    result: Ok(()),
                }
            } else if selected(robot) == COMPONENT_NONE {
                RobotOutcome { robot, result: Err(VMFault::NoComponentSelected) }
            } else {
                RobotOutcome { robot, result: Err(VMFault::InvalidComponentForOp) }
            }
        },
        Instruction::Drive(op) => {
            if selected(robot) == COMPONENT_DRIVE {
                let velocity = drive_velocity(fpu, op.value_in(robot.vm));
                RobotOutcome {
                    robot: RobotView {
                        drive: DriveComponent { velocity, ..robot.drive },
                        vm: robot.vm.with_reg(Register::DriveVelocity, velocity),
                        ..robot
                    },
                    result: Ok(()),
                }
            } else {
                RobotOutcome { robot, result: Err(VMFault::InvalidComponentForOp) }
            }
        },
        _ => RobotOutcome { robot, result: Err(VMFault::InvalidInstruction) },
    }
}

impl ComponentOperations {
    pub fn new() -> Self {
        ComponentOperations
    }

    /// Whether the instruction is one of this family.
    pub fn can_process(&self, instruction: &Instruction) -> (can: bool)
        ensures
            can == is_component_instruction(*instruction),
    {
        matches!(
            instruction,
            Instruction::Select(_)
                | Instruction::Deselect
                | Instruction::Rotate(_)
                | Instruction::Drive(_)
        )
    }

    /// Executes a component instruction on the robot. No command is queued.
    pub fn process<F: Fn(Op, u64, u64) -> u64>(
        &self,
        robot: &mut Robot,
        _all_robots: &Vec<RobotInfo>,
        _arena: &Arena,
        instruction: &Instruction,
        _command_queue: &mut Vec<ArenaCommand>,
        fpu: &F,
    ) -> (res: Result<(), VMFault>)
        requires
            old(robot).wf(),
            is_unit(fpu),
        ensures
            final(robot).wf(),
            final(robot)@ == component_outcome(old(robot)@, *instruction, fpu).robot,
            res == component_outcome(old(robot)@, *instruction, fpu).result,
            final(_command_queue)@ == old(_command_queue)@,
    {
        match instruction {
            Instruction::Select(op) => {
                let component_id = ieee::to_u8(read(op, &robot.vm_state));
                match component_id {
                    0 | 1 | 2 => match robot.vm_state.set_selected_component(component_id) {
                        Ok(()) => Ok(()),
                        Err(_) => Err(VMFault::InvalidComponentForOp),
                    },
                    _ => Err(VMFault::InvalidComponentForOp),
                }
            },
            Instruction::Deselect => match robot.vm_state.set_selected_component(COMPONENT_NONE) {
                Ok(()) => Ok(()),
                Err(_) => Err(VMFault::PermissionError),
            },
            Instruction::Rotate(op) => {
                let angle = read(op, &robot.vm_state);
                let component_val = match robot.vm_state.registers.get(Register::Component) {
                    Ok(word) => ieee::to_u8(word),
                    Err(_) => {
                        return Err(VMFault::InvalidRegister);
                    },
                };
                match component_val {
                    1 => {
                        robot.request_drive_rotation(angle, fpu);
                        Ok(())
                    },
                    2 => {
                        robot.request_turret_rotation(angle, fpu);
                        Ok(())
                    },
                    0 => Err(VMFault::NoComponentSelected),
                    _ => Err(VMFault::InvalidComponentForOp),
                }
            },
            Instruction::Drive(op) => {
                let val = read(op, &robot.vm_state);
                let selected_component = match robot.vm_state.registers.get(Register::Component) {
                    Ok(word) => ieee::to_u8(word),
                    Err(_) => COMPONENT_NONE,
                };
                if selected_component == COMPONENT_DRIVE {
                    let units_per_cycle = ask(fpu, Op::Mul, val, config::DRIVE_VELOCITY_FACTOR);
                    let clamped_velocity = ieee::clamp(
                        units_per_cycle,
                        ieee::neg(config::MAX_DRIVE_VELOCITY),
                        config::MAX_DRIVE_VELOCITY,
                    );
                    robot.set_drive_velocity(clamped_velocity);
                    let _ = robot.vm_state.registers.set_internal(
                        Register::DriveVelocity,
                        robot.drive.velocity,
                    );
                    Ok(())
                } else {
                    Err(VMFault::InvalidComponentForOp)
                }
            },
            _ => Err(VMFault::InvalidInstruction),
        }
    }
}

} // verus!
