//! The instructions that fight: `fire` and `scan`.
use super::component_ops::RobotOutcome;
use super::read;
use crate::arena::{Arena, ArenaView};
use crate::fpu::{answer, is_unit, Op};
use crate::ieee;
use crate::robot::{scan_report, shot, shot_power, Robot, RobotInfo, RobotView};
use crate::types::ArenaCommand;
use crate::vm::error::VMFault;
use crate::vm::instruction::Instruction;
use crate::vm::registers::Register;
use vstd::prelude::*;

verus! {

/// The processor of the combat instructions.
pub struct CombatOperations;

/// The instructions of this family.
pub open spec fn is_combat_instruction(instruction: Instruction) -> bool {
    match instruction {
        Instruction::Fire(_) | Instruction::Scan => true,
        _ => false,
    }
}

/// The robot after an attempt to fire with `requested` power: a shot takes
/// its power from the robot's.
pub open spec fn after_fire<F: Fn(Op, u64, u64) -> u64>(
    fpu: &F,
    robot: RobotView,
    requested: u64,
) -> RobotView {
    let power = shot_power(requested, robot.power);
    if ieee::spec_le(power, ieee::ZERO) {
        robot
    } else {
        RobotView { power: answer(fpu, Op::Sub, robot.power, power), ..robot }
    }
}

/// The commands that an attempt to fire with `requested` power queues: none
/// where no shot is fired, else the projectile, and a muzzle flash where the
/// robot stands.
pub open spec fn fire_commands<F: Fn(Op, u64, u64) -> u64>(
    fpu: &F,
    robot: RobotView,
    requested: u64,
) -> Seq<ArenaCommand> {
    let power = shot_power(requested, robot.power);
    if ieee::spec_le(power, ieee::ZERO) {
        Seq::empty()
    } else {
        seq![
            ArenaCommand::SpawnProjectile(shot(fpu, robot, power)),
            ArenaCommand::SpawnMuzzleFlash {
                position: robot.position,
                direction: robot.turret.direction,
            },
        ]
    }
}

/// The robot after a scan: the target registers hold what the scan reports.
pub open spec fn after_scan<F: Fn(Op, u64, u64) -> u64>(
    fpu: &F,
    robot: RobotView,
    arena: ArenaView,
    others: Seq<RobotInfo>,
) -> RobotView {
    let report = scan_report(fpu, robot, arena, others);
    robot.with_vm(
        robot.vm.with_reg(Register::TargetDistance, report.0).with_reg(
            Register::TargetDirection,
            report.1,
        ),
    )
}

/// What a combat instruction does to the robot. Neither instruction faults.
pub open spec fn combat_outcome<F: Fn(Op, u64, u64) -> u64>(
    robot: RobotView,
    others: Seq<RobotInfo>,
    arena: ArenaView,
    instruction: Instruction,
    fpu: &F,
) -> RobotOutcome {
    match instruction {
        Instruction::Fire(op) => RobotOutcome {
            robot: after_fire(fpu, robot, op.value_in(robot.vm)),
            result: Ok(()),
        },
        Instruction::Scan => RobotOutcome {
            robot: after_scan(fpu, robot, arena, others),
            result: Ok(()),
        },
        _ => RobotOutcome { robot, result: Err(VMFault::InvalidInstruction) },
    }
}

/// The commands that a combat instruction queues.
pub open spec fn combat_commands<F: Fn(Op, u64, u64) -> u64>(
    robot: RobotView,
    instruction: Instruction,
    fpu: &F,
) -> Seq<ArenaCommand> {
    match instruction {
        Instruction::Fire(op) => fire_commands(fpu, robot, op.value_in(robot.vm)),
        _ => Seq::empty(),
    }
}

impl CombatOperations {
    pub fn new() -> Self {
        CombatOperations
    }

    /// Fires, and queues what a shot asks of the arena.
    fn handle_fire<F: Fn(Op, u64, u64) -> u64>(
        robot: &mut Robot,
        power: u64,
        command_queue: &mut Vec<ArenaCommand>,
        fpu: &F,
    )
        requires
            old(robot).wf(),
            is_unit(fpu),
        ensures
            final(robot).wf(),
            final(robot)@ == after_fire(fpu, old(robot)@, power),
            final(command_queue)@ == old(command_queue)@ + fire_commands(fpu, old(robot)@, power),
    {
        let fire_position = robot.position;
        let fire_direction = robot.turret.direction;
        if let Some(projectile) = robot.fire_weapon(power, fpu) {
            command_queue.push(ArenaCommand::SpawnProjectile(projectile));
            command_queue.push(
                ArenaCommand::SpawnMuzzleFlash {
                    position: fire_position,
                    direction: fire_direction,
                },
            );
            assert(final(command_queue)@ =~= old(command_queue)@ + fire_commands(
                fpu,
                old(robot)@,
                power,
            ));
        } else {
            assert(final(command_queue)@ =~= old(command_queue)@ + fire_commands(
                fpu,
                old(robot)@,
                power,
            ));
        }
    }

    /// Scans, and shows the report in the target registers.
    fn handle_scan<F: Fn(Op, u64, u64) -> u64>(
        robot: &mut Robot,
        others: &Vec<RobotInfo>,
        arena: &Arena,
        fpu: &F,
    ) -> (res: Result<(u64, u64), VMFault>)
        requires
            old(robot).wf(),
            is_unit(fpu),
        ensures
            final(robot).wf(),
            final(robot)@ == after_scan(fpu, old(robot)@, arena@, others@),
            res == Ok::<(u64, u64), VMFault>(scan_report(fpu, old(robot)@, arena@, others@)),
    {
        let (distance, angle) = robot.scan_for_targets_by_id(others, arena, fpu);
        match robot.vm_state.registers.set_internal(Register::TargetDistance, distance) {
            Ok(()) => {},
            Err(_) => {
                return Err(VMFault::PermissionError);
            },
        }
        match robot.vm_state.registers.set_internal(Register::TargetDirection, angle) {
            Ok(()) => {},
            Err(_) => {
                return Err(VMFault::PermissionError);
            },
        }
        Ok((distance, angle))
    }

    /// Whether the instruction is one of this family.
    pub fn can_process(&self, instruction: &Instruction) -> (can: bool)
        ensures
            can == is_combat_instruction(*instruction),
    {
        matches!(instruction, Instruction::Fire(_) | Instruction::Scan)
    }

    /// Executes a combat instruction on the robot. `all_robots` is what the
    /// robot can know of the robots in the arena; a scan looks at them in
    /// their order.
    pub fn process<F: Fn(Op, u64, u64) -> u64>(
        &self,
        robot: &mut Robot,
        all_robots: &Vec<RobotInfo>,
        arena: &Arena,
        instruction: &Instruction,
        command_queue: &mut Vec<ArenaCommand>,
        fpu: &F,
    ) -> (res: Result<(), VMFault>)
        requires
            old(robot).wf(),
            is_unit(fpu),
        ensures
            final(robot).wf(),
            final(robot)@ == combat_outcome(
                old(robot)@,
                all_robots@,
                arena@,
                *instruction,
                fpu,
            ).robot,
            res == combat_outcome(old(robot)@, all_robots@, arena@, *instruction, fpu).result,
            final(command_queue)@ == old(command_queue)@ + combat_commands(
                old(robot)@,
                *instruction,
                fpu,
            ),
    {
        match instruction {
            Instruction::Fire(op) => {
                let power = read(op, &robot.vm_state);
                Self::handle_fire(robot, power, command_queue, fpu);
                Ok(())
            },
            Instruction::Scan => {
                match Self::handle_scan(robot, all_robots, arena, fpu) {
                    Ok(_) => {},
                    Err(fault) => {
                        return Err(fault);
                    },
                }
                assert(final(command_queue)@ =~= old(command_queue)@ + Seq::<
                    ArenaCommand,
                >::empty());
                Ok(())
            },
            _ => {
                assert(final(command_queue)@ =~= old(command_queue)@ + Seq::<
                    ArenaCommand,
                >::empty());
                Err(VMFault::InvalidInstruction)
            },
        }
    }
}

/// Executes a combat instruction on the robot, which sees of the arena's
/// robots what `others` holds. It does what `CombatOperations::process` does.
pub fn process_by_id<F: Fn(Op, u64, u64) -> u64>(
    robot: &mut Robot,
    others: &Vec<RobotInfo>,
    arena: &Arena,
    instruction: &Instruction,
    command_queue: &mut Vec<ArenaCommand>,
    fpu: &F,
) -> (res: Result<(), VMFault>)
    requires
        old(robot).wf(),
        is_unit(fpu),
    ensures
        final(robot).wf(),
        final(robot)@ == combat_outcome(old(robot)@, others@, arena@, *instruction, fpu).robot,
        res == combat_outcome(old(robot)@, others@, arena@, *instruction, fpu).result,
        final(command_queue)@ == old(command_queue)@ + combat_commands(
            old(robot)@,
            *instruction,
            fpu,
        ),
{
    let combat_ops = CombatOperations::new();
    combat_ops.process(robot, others, arena, instruction, command_queue, fpu)
}

} // verus!
