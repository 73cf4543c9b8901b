//! A robot: a body with a drive and a turret, and the machine that steers it.
use crate::arena::{Arena, ArenaView};
use crate::config;
use crate::fpu::{answer, answer1, ask, ask1, ask_in_degrees, ask_of_degrees, in_degrees, is_unit, of_degrees, Op};
use crate::ieee;
use crate::random;
use crate::types::{Point, Projectile, RangedWeapon, Scanner};
use crate::vm::instruction::Instruction;
use crate::vm::parser::ParsedProgram;
use crate::types::ArenaCommand;
use crate::vm::error::VMFault;
use crate::vm::executor::instruction_executor::{executed, InstructionExecutor};
use crate::vm::registers::Register;
use crate::vm::state::{VMState, VMView};
use rand::rngs::ThreadRng;
use vstd::prelude::*;

verus! {

/// What a robot is doing.
#[derive(Debug, Clone, Copy, PartialEq, Eq, Structural)]
pub enum RobotStatus {
    /// Loaded, but not run yet.
    Idle,
    Active,
    /// Out of action for the given number of cycles.
    Stunned(u32),
    Destroyed,
}

/// What one robot can know of another: who it is, where it is, what it does.
#[derive(Debug, Clone, Copy, PartialEq, Eq, Structural)]
pub struct RobotInfo {
    pub id: u32,
    pub position: Point,
    pub status: RobotStatus,
}

/// The drive of a robot.
#[derive(Debug, Clone, Copy, PartialEq, Eq, Structural)]
pub struct DriveComponent {
    /// In degrees.
    pub direction: u64,
    /// In coordinate units per cycle; negative is backwards.
    pub velocity: u64,
    /// The degrees still to turn.
    pub pending_rotation: u64,
}

/// The turret of a robot.
#[derive(Debug, Clone, Copy, PartialEq, Eq, Structural)]
pub struct TurretComponent {
    /// In degrees, relative to the arena.
    pub direction: u64,
    /// The degrees still to turn.
    pub pending_rotation: u64,
    pub scanner: Scanner,
    pub ranged: RangedWeapon,
}

impl Default for DriveComponent {
    fn default() -> (d: Self)
        ensures
            d == (DriveComponent { direction: 0, velocity: 0, pending_rotation: 0 }),
    {
        DriveComponent { direction: 0, velocity: 0, pending_rotation: 0 }
    }
}

impl Default for TurretComponent {
    fn default() -> (t: Self)
        ensures
            t.direction == 0,
            t.pending_rotation == 0,
            t.scanner.fov == config::DEFAULT_SCANNER_FOV,
            t.scanner.range == config::DEFAULT_SCANNER_RANGE,
            t.ranged.projectile_speed == config::DEFAULT_PROJECTILE_SPEED,
            t.ranged.base_damage == config::DEFAULT_RANGED_DAMAGE,
    {
        TurretComponent {
            direction: 0,
            pending_rotation: 0,
            scanner: Scanner::default(),
            ranged: RangedWeapon::default(),
        }
    }
}

/// A robot in the arena.
#[derive(Debug, Clone)]
pub struct Robot {
    pub id: u32,
    pub name: String,
    pub position: Point,
    /// Where the robot was a cycle ago.
    pub prev_position: Point,
    pub health: u64,
    pub power: u64,
    pub status: RobotStatus,
    pub drive: DriveComponent,
    pub prev_drive_direction: u64,
    pub turret: TurretComponent,
    pub prev_turret_direction: u64,
    pub vm_state: VMState,
    pub program: Vec<Instruction>,
    pub rng: ThreadRng,
    /// The ids of the robots near enough to matter this cycle.
    pub aoi: Vec<u32>,
}

/// What a robot holds, as plain mathematics. The generator of random numbers
/// has no part in it.
pub struct RobotView {
    pub id: u32,
    pub name: Seq<char>,
    pub position: Point,
    pub prev_position: Point,
    pub health: u64,
    pub power: u64,
    pub status: RobotStatus,
    pub drive: DriveComponent,
    pub prev_drive_direction: u64,
    pub turret: TurretComponent,
    pub prev_turret_direction: u64,
    pub vm: VMView,
    pub program: Seq<Instruction>,
    pub aoi: Seq<u32>,
}

impl RobotView {
    /// The robot with its machine in another state.
    pub open spec fn with_vm(self, vm: VMView) -> RobotView {
        RobotView { vm, ..self }
    }
}

impl View for Robot {
    type V = RobotView;

    open spec fn view(&self) -> RobotView {
        RobotView {
            id: self.id,
            name: self.name@,
            position: self.position,
            prev_position: self.prev_position,
            health: self.health,
            power: self.power,
            status: self.status,
            drive: self.drive,
            prev_drive_direction: self.prev_drive_direction,
            turret: self.turret,
            prev_turret_direction: self.prev_turret_direction,
            vm: self.vm_state@,
            program: self.program@,
            aoi: self.aoi@,
        }
    }
}

/// The direction, in degrees from 0 up to 360, in which `to` lies from `from`.
pub open spec fn bearing<F: Fn(Op, u64, u64) -> u64>(fpu: &F, from: Point, to: Point) -> u64 {
    let dx = answer(fpu, Op::Sub, to.x, from.x);
    let dy = answer(fpu, Op::Sub, to.y, from.y);
    answer(fpu, Op::RemEuclid, in_degrees(fpu, Op::Atan2, dy, dx), ieee::FULL_TURN)
}

/// What a shot with `actual_power` from a robot is: it starts ahead of the
/// turret, and carries the weapon's speed and damage.
pub open spec fn shot<F: Fn(Op, u64, u64) -> u64>(
    fpu: &F,
    robot: RobotView,
    actual_power: u64,
) -> Projectile {
    let start = Point {
        x: answer(
            fpu,
            Op::Add,
            robot.position.x,
            answer(
                fpu,
                Op::Mul,
                of_degrees(fpu, Op::Cos, robot.turret.direction),
                config::MUZZLE_OFFSET,
            ),
        ),
        y: answer(
            fpu,
            Op::Add,
            robot.position.y,
            answer(
                fpu,
                Op::Mul,
                of_degrees(fpu, Op::Sin, robot.turret.direction),
                config::MUZZLE_OFFSET,
            ),
        ),
    };
    Projectile {
        position: start,
        prev_position: start,
        direction: robot.turret.direction,
        speed: robot.turret.ranged.projectile_speed,
        power: actual_power,
        base_damage: robot.turret.ranged.base_damage,
        source_robot: robot.id,
    }
}

/// The power that a shot takes: what was asked for, held between 0 and 1,
/// and no more than the robot has.
pub open spec fn shot_power(requested: u64, available: u64) -> u64 {
    ieee::spec_min(ieee::spec_clamp(requested, ieee::ZERO, ieee::ONE), available)
}

/// What a scan has found so far.
pub struct Sighting {
    pub found: bool,
    /// The square of the distance to the target found; infinite before any is.
    pub nearest_squared: u64,
    pub distance: u64,
    /// The direction of the target in degrees, from 0 up to 360.
    pub direction: u64,
}

/// Nothing is found before the scan begins.
pub open spec fn nothing_seen() -> Sighting {
    Sighting { found: false, nearest_squared: ieee::INFINITY, distance: 0, direction: 0 }
}

/// What the scanner measures of another robot.
pub struct Bearing {
    /// The square of the distance between the two centres.
    pub squared: u64,
    /// The distance between the two centres.
    pub distance: u64,
    /// The direction of the other robot in degrees, from 0 up to 360.
    pub direction: u64,
    /// By how much that direction is off the turret's, in radians: the
    /// difference of the two, brought above minus pi and up to pi.
    pub off_axis: u64,
}

/// The measurements of the scanner of `robot` on a target at `target`.
pub open spec fn measure<F: Fn(Op, u64, u64) -> u64>(
    fpu: &F,
    robot: RobotView,
    target: Point,
) -> Bearing {
    let dx = answer(fpu, Op::Sub, target.x, robot.position.x);
    let dy = answer(fpu, Op::Sub, target.y, robot.position.y);
    let squared = answer(fpu, Op::Add, answer(fpu, Op::Mul, dx, dx), answer(fpu, Op::Mul, dy, dy));
    let angle = answer(fpu, Op::Atan2, dy, dx);
    let turned = answer(fpu, Op::Sub, angle, answer1(fpu, Op::ToRadians, robot.turret.direction));
    Bearing {
        squared,
        distance: answer1(fpu, Op::Sqrt, squared),
        direction: answer(
            fpu,
            Op::RemEuclid,
            answer1(fpu, Op::ToDegrees, angle),
            ieee::FULL_TURN,
        ),
        off_axis: answer(
            fpu,
            Op::Sub,
            config::PI,
            answer(fpu, Op::RemEuclid, answer(fpu, Op::Sub, config::PI, turned), config::TWO_PI),
        ),
    }
}

/// Half the scanner's field of view, in radians.
pub open spec fn half_field<F: Fn(Op, u64, u64) -> u64>(fpu: &F, robot: RobotView) -> u64 {
    answer1(fpu, Op::ToRadians, answer(fpu, Op::Div, robot.turret.scanner.fov, ieee::TWO))
}

/// The scanner of `robot` sees a target at `target`: it lies within half the
/// field of view on either side of the turret's direction, and its centre is
/// nearer than what the robot would run into on the way there.
pub open spec fn in_sight<F: Fn(Op, u64, u64) -> u64>(
    fpu: &F,
    robot: RobotView,
    arena: ArenaView,
    target: Point,
) -> bool {
    let m = measure(fpu, robot, target);
    &&& ieee::spec_le(ieee::spec_abs(m.off_axis), half_field(fpu, robot))
    &&& ieee::spec_lt(m.distance, arena.free_distance(fpu, robot.position, m.direction))
}

/// The robot can be a target of `robot`: it is another robot, and not a wreck.
pub open spec fn is_target(robot: RobotView, other: RobotInfo) -> bool {
    other.id != robot.id && other.status != RobotStatus::Destroyed
}

/// What the scan has found once it has looked at one more robot: that robot,
/// if it can be a target, is no farther than the one found so far, and is in
/// sight.
pub open spec fn look_at<F: Fn(Op, u64, u64) -> u64>(
    fpu: &F,
    robot: RobotView,
    arena: ArenaView,
    other: RobotInfo,
    seen: Sighting,
) -> Sighting {
    let m = measure(fpu, robot, other.position);
    if is_target(robot, other) && ieee::spec_le(m.squared, seen.nearest_squared) && in_sight(
        fpu,
        robot,
        arena,
        other.position,
    ) {
        Sighting {
            found: true,
            nearest_squared: m.squared,
            distance: m.distance,
            direction: m.direction,
        }
    } else {
        seen
    }
}

/// What the scan has found once it has looked at the first `upto` robots.
pub open spec fn scan_of<F: Fn(Op, u64, u64) -> u64>(
    fpu: &F,
    robot: RobotView,
    arena: ArenaView,
    others: Seq<RobotInfo>,
    upto: int,
) -> Sighting
    decreases upto,
{
    if upto <= 0 {
        nothing_seen()
    } else {
        look_at(fpu, robot, arena, others[upto - 1], scan_of(fpu, robot, arena, others, upto - 1))
    }
}

/// What a scan reports: the distance and the direction of the nearest target
/// in sight, or twice 0.0 where there is none.
pub open spec fn scan_report<F: Fn(Op, u64, u64) -> u64>(
    fpu: &F,
    robot: RobotView,
    arena: ArenaView,
    others: Seq<RobotInfo>,
) -> (u64, u64) {
    let seen = scan_of(fpu, robot, arena, others, others.len() as int);
    if seen.found {
        (seen.distance, seen.direction)
    } else {
        (ieee::ZERO, ieee::ZERO)
    }
}

/// A component after one cycle of turning: it turns by what is pending, but
/// by no more than the most a cycle allows, and what it has turned is taken
/// off the pending rotation. A pending rotation within a millionth of a
/// degree is dropped.
pub open spec fn turned<F: Fn(Op, u64, u64) -> u64>(
    fpu: &F,
    direction: u64,
    pending: u64,
) -> (u64, u64) {
    if ieee::spec_gt(ieee::spec_abs(pending), ieee::MICRO) {
        let step = ieee::spec_clamp(
            pending,
            ieee::spec_neg(config::MAX_ROTATION_PER_CYCLE),
            config::MAX_ROTATION_PER_CYCLE,
        );
        (
            answer(fpu, Op::RemEuclid, answer(fpu, Op::Add, direction, step), ieee::FULL_TURN),
            answer(fpu, Op::Sub, pending, step),
        )
    } else if !ieee::spec_eq(pending, ieee::ZERO) {
        (direction, ieee::ZERO)
    } else {
        (direction, pending)
    }
}

/// The power of a robot after one cycle of rest: a little more, and 1.0 at
/// most.
pub open spec fn regained<F: Fn(Op, u64, u64) -> u64>(fpu: &F, power: u64) -> u64 {
    ieee::spec_min(answer(fpu, Op::Add, power, config::POWER_REGEN_RATE), ieee::ONE)
}

/// How far the robot goes this cycle: backwards as fast as it drives;
/// forwards no farther than the free way ahead, less a safety margin, lets it.
pub open spec fn step_length<F: Fn(Op, u64, u64) -> u64>(
    fpu: &F,
    robot: RobotView,
    arena: ArenaView,
) -> u64 {
    let intended = robot.drive.velocity;
    if ieee::spec_gt(intended, ieee::ZERO) {
        let safe = answer(
            fpu,
            Op::Sub,
            arena.free_distance(fpu, robot.position, robot.drive.direction),
            config::SAFETY_MARGIN,
        );
        if ieee::spec_le(safe, ieee::ZERO) {
            ieee::ZERO
        } else {
            ieee::spec_min(intended, safe)
        }
    } else {
        intended
    }
}

/// The point is outside the arena.
pub open spec fn is_outside(arena: ArenaView, p: Point) -> bool {
    ||| ieee::spec_lt(p.x, ieee::ZERO)
    ||| ieee::spec_gt(p.x, arena.width)
    ||| ieee::spec_lt(p.y, ieee::ZERO)
    ||| ieee::spec_gt(p.y, arena.height)
}

/// The robot after one cycle of driving. A robot that stands still stays. A
/// robot whose way is blocked stops. A robot that would leave the arena is
/// put back on its border and stops; one that ends in an obstacle stops.
pub open spec fn moved<F: Fn(Op, u64, u64) -> u64>(
    fpu: &F,
    robot: RobotView,
    arena: ArenaView,
) -> RobotView {
    if ieee::spec_lt(ieee::spec_abs(robot.drive.velocity), ieee::NANO) {
        robot
    } else {
        let length = step_length(fpu, robot, arena);
        if ieee::spec_lt(ieee::spec_abs(length), ieee::NANO) {
            RobotView { drive: DriveComponent { velocity: ieee::ZERO, ..robot.drive }, ..robot }
        } else {
            let next = Point {
                x: answer(
                    fpu,
                    Op::Add,
                    robot.position.x,
                    answer(fpu, Op::Mul, of_degrees(fpu, Op::Cos, robot.drive.direction), length),
                ),
                y: answer(
                    fpu,
                    Op::Add,
                    robot.position.y,
                    answer(fpu, Op::Mul, of_degrees(fpu, Op::Sin, robot.drive.direction), length),
                ),
            };
            let position = if is_outside(arena, next) {
                Point {
                    x: ieee::spec_clamp(next.x, ieee::ZERO, arena.width),
                    y: ieee::spec_clamp(next.y, ieee::ZERO, arena.height),
                }
            } else {
                next
            };
            let velocity = if is_outside(arena, next) || arena.collides(fpu, position) {
                ieee::ZERO
            } else {
                robot.drive.velocity
            };
            RobotView { position, drive: DriveComponent { velocity, ..robot.drive }, ..robot }
        }
    }
}

/// The robot after the updates of one cycle: it regains power, its drive and
/// its turret turn, and it drives.
pub open spec fn cycled<F: Fn(Op, u64, u64) -> u64>(
    fpu: &F,
    robot: RobotView,
    arena: ArenaView,
) -> RobotView {
    let drive = turned(fpu, robot.drive.direction, robot.drive.pending_rotation);
    let turret = turned(fpu, robot.turret.direction, robot.turret.pending_rotation);
    moved(
        fpu,
        RobotView {
            power: regained(fpu, robot.power),
            drive: DriveComponent { direction: drive.0, pending_rotation: drive.1, ..robot.drive },
            turret: TurretComponent {
                direction: turret.0,
                pending_rotation: turret.1,
                ..robot.turret
            },
            ..robot
        },
        arena,
    )
}

/// The registers that the host keeps, as they stand once they are refreshed
/// from the robot and the arena, with `random` as this cycle's random number.
pub open spec fn refreshed<F: Fn(Op, u64, u64) -> u64>(
    fpu: &F,
    robot: RobotView,
    arena: ArenaView,
    random: u64,
) -> VMView {
    let backward = answer(
        fpu,
        Op::RemEuclid,
        answer(fpu, Op::Add, robot.drive.direction, ieee::HALF_TURN),
        ieee::FULL_TURN,
    );
    robot.vm.with_reg(Register::Turn, ieee::integer_word(robot.vm.turn as nat)).with_reg(
        Register::Cycle,
        ieee::integer_word(robot.vm.cycle as nat),
    ).with_reg(Register::Rand, random).with_reg(Register::Health, robot.health).with_reg(
        Register::Power,
        robot.power,
    ).with_reg(Register::TurretDirection, robot.turret.direction).with_reg(
        Register::DriveDirection,
        robot.drive.direction,
    ).with_reg(Register::DriveVelocity, robot.drive.velocity).with_reg(
        Register::PosX,
        robot.position.x,
    ).with_reg(Register::PosY, robot.position.y).with_reg(
        Register::ForwardDistance,
        arena.free_distance(fpu, robot.position, robot.drive.direction),
    ).with_reg(
        Register::BackwardDistance,
        arena.free_distance(fpu, robot.position, backward),
    ).with_reg(Register::WeaponPower, robot.power).with_reg(
        Register::WeaponCooldown,
        ieee::ZERO,
    )
}

/// The robot after one cycle of its machine, and the commands it queues.
///
/// An idle robot becomes active. A robot that is not active, or whose
/// machine is halted on a fault, does nothing. An instruction in progress
/// takes one of the cycles it still owes. Else the instruction under the
/// instruction pointer is executed, and the cycles it costs beyond this one
/// are owed; where it left the instruction pointer alone, the pointer moves
/// on. A fault halts the machine with the instruction pointer still at the
/// instruction that met it; only a call that finds the call stack full leaves
/// the pointer one further. The end of the program halts the machine too.
pub open spec fn after_cycle<F: Fn(Op, u64, u64) -> u64>(
    fpu: &F,
    robot: RobotView,
    others: Seq<RobotInfo>,
    arena: ArenaView,
) -> (RobotView, Seq<ArenaCommand>) {
    let awake = if robot.status == RobotStatus::Idle {
        RobotView { status: RobotStatus::Active, ..robot }
    } else {
        robot
    };
    let vm = awake.vm;
    if awake.status != RobotStatus::Active || vm.fault is Some {
        (awake, Seq::empty())
    } else if vm.instruction_cycles_remaining > 0 {
        (
            awake.with_vm(
                VMView {
                    instruction_cycles_remaining: (vm.instruction_cycles_remaining - 1) as u32,
                    ..vm
                },
            ),
            Seq::empty(),
        )
    } else if vm.ip >= awake.program.len() {
        (
            awake.with_vm(VMView { instruction_cycles_remaining: u32::MAX, ..vm }),
            Seq::empty(),
        )
    } else {
        let instruction = awake.program[vm.ip as int];
        let cost = instruction.spec_cycle_cost(vm, fpu);
        let effect = executed(awake, others, arena, instruction, fpu);
        let left = effect.robot.vm;
        match effect.result {
            Ok(()) => {
                let ip = if left.ip == vm.ip {
                    (vm.ip + 1) as usize
                } else {
                    left.ip
                };
                (
                    effect.robot.with_vm(
                        VMView { ip, instruction_cycles_remaining: (cost - 1) as u32, ..left },
                    ),
                    effect.commands,
                )
            },
            Err(fault) => {
                let ip = if instruction is Call {
                    left.ip
                } else {
                    vm.ip
                };
                (
                    effect.robot.with_vm(
                        VMView {
                            ip,
                            instruction_cycles_remaining: u32::MAX,
                            ..left.with_fault(fault)
                        },
                    ),
                    effect.commands,
                )
            },
        }
    }
}

impl Robot {
    /// The machine is in order.
    pub open spec fn wf(&self) -> bool {
        self.vm_state.wf()
    }

    /// A robot at `position`, its drive and its turret looking at `center`,
    /// with full health and power, no program, and a machine at rest.
    pub open spec fn fresh<F: Fn(Op, u64, u64) -> u64>(
        fpu: &F,
        id: u32,
        name: Seq<char>,
        position: Point,
        center: Point,
    ) -> RobotView {
        let direction = bearing(fpu, position, center);
        RobotView {
            id,
            name,
            position,
            prev_position: position,
            health: config::DEFAULT_INITIAL_HEALTH,
            power: config::DEFAULT_INITIAL_POWER,
            status: RobotStatus::Idle,
            drive: DriveComponent { direction, velocity: 0, pending_rotation: 0 },
            prev_drive_direction: direction,
            turret: TurretComponent {
                direction,
                pending_rotation: 0,
                scanner: Scanner {
                    fov: config::DEFAULT_SCANNER_FOV,
                    range: config::DEFAULT_SCANNER_RANGE,
                },
                ranged: RangedWeapon {
                    projectile_speed: config::DEFAULT_PROJECTILE_SPEED,
                    base_damage: config::DEFAULT_RANGED_DAMAGE,
                },
            },
            prev_turret_direction: direction,
            vm: VMState::rest(),
            program: Seq::empty(),
            aoi: Seq::empty(),
        }
    }

    /// A new robot. Its source of random numbers is that of the thread.
    pub fn new<F: Fn(Op, u64, u64) -> u64>(
        id: u32,
        name: String,
        position: Point,
        center: Point,
        fpu: &F,
    ) -> (robot: Self)
        requires
            is_unit(fpu),
        ensures
            robot.wf(),
            robot@ == Self::fresh(fpu, id, name@, position, center),
    {
        let dx = ask(fpu, Op::Sub, center.x, position.x);
        let dy = ask(fpu, Op::Sub, center.y, position.y);
        let angle = ask_in_degrees(fpu, Op::Atan2, dy, dx);
        let initial_direction_deg = ask(fpu, Op::RemEuclid, angle, ieee::FULL_TURN);
        Robot {
            id,
            name,
            position,
            prev_position: position,
            health: config::DEFAULT_INITIAL_HEALTH,
            power: config::DEFAULT_INITIAL_POWER,
            status: RobotStatus::Idle,
            drive: DriveComponent {
                direction: initial_direction_deg,
                velocity: 0,
                pending_rotation: 0,
            },
            prev_drive_direction: initial_direction_deg,
            turret: TurretComponent {
                direction: initial_direction_deg,
                pending_rotation: 0,
                scanner: Scanner::default(),
                ranged: RangedWeapon::default(),
            },
            prev_turret_direction: initial_direction_deg,
            vm_state: VMState::new(),
            program: Vec::new(),
            rng: random::thread_generator(),
            aoi: Vec::new(),
        }
    }

    /// Remembers where the robot is and where it looks, for whoever draws it
    /// between two cycles.
    pub fn update_prev_state(&mut self)
        ensures
            final(self)@ == (RobotView {
                prev_position: old(self)@.position,
                prev_drive_direction: old(self)@.drive.direction,
                prev_turret_direction: old(self)@.turret.direction,
                ..old(self)@
            }),
            old(self).wf() ==> final(self).wf(),
    {
        self.prev_position = self.position;
        self.prev_drive_direction = self.drive.direction;
        self.prev_turret_direction = self.turret.direction;
    }

    /// Fires the weapon. The shot takes `shot_power` of the robot's power;
    /// where that is nothing, or less, no shot is fired and nothing changes.
    pub fn fire_weapon<F: Fn(Op, u64, u64) -> u64>(&mut self, requested_power: u64, fpu: &F) -> (res:
        Option<Projectile>)
        requires
            is_unit(fpu),
        ensures
            old(self).wf() ==> final(self).wf(),
            ieee::spec_le(shot_power(requested_power, old(self)@.power), ieee::ZERO) ==> res
                == None::<Projectile> && final(self)@ == old(self)@,
            !ieee::spec_le(shot_power(requested_power, old(self)@.power), ieee::ZERO) ==> res
                == Some(shot(fpu, old(self)@, shot_power(requested_power, old(self)@.power)))
                && final(self)@ == (RobotView {
                power: answer(
                    fpu,
                    Op::Sub,
                    old(self)@.power,
                    shot_power(requested_power, old(self)@.power),
                ),
                ..old(self)@
            }),
    {
        let clamped_power = ieee::clamp(requested_power, ieee::ZERO, ieee::ONE);
        let actual_power = ieee::min(clamped_power, self.power);
        if ieee::le(actual_power, ieee::ZERO) {
            return None;
        }
        self.power = ask(fpu, Op::Sub, self.power, actual_power);
        let cos = ask_of_degrees(fpu, Op::Cos, self.turret.direction);
        let sin = ask_of_degrees(fpu, Op::Sin, self.turret.direction);
        let start_offset_x = ask(fpu, Op::Mul, cos, config::MUZZLE_OFFSET);
        let start_offset_y = ask(fpu, Op::Mul, sin, config::MUZZLE_OFFSET);
        let start_pos = Point {
            x: ask(fpu, Op::Add, self.position.x, start_offset_x),
            y: ask(fpu, Op::Add, self.position.y, start_offset_y),
        };
        Some(
            Projectile {
                position: start_pos,
                prev_position: start_pos,
                direction: self.turret.direction,
                speed: self.turret.ranged.projectile_speed,
                power: actual_power,
                base_damage: self.turret.ranged.base_damage,
                source_robot: self.id,
            },
        )
    }

    /// Scans for targets among `others`: the nearest robot, other than this
    /// one and not destroyed, that the scanner sees. Gives its distance and
    /// its direction, or twice 0.0.
    pub fn scan_for_targets_by_id<F: Fn(Op, u64, u64) -> u64>(
        &self,
        others: &Vec<RobotInfo>,
        arena: &Arena,
        fpu: &F,
    ) -> (report: (u64, u64))
        requires
            is_unit(fpu),
        ensures
            report == scan_report(fpu, self@, arena@, others@),
    {
        let scanner_pos = self.position;
        let scanner_dir_rad = ask1(fpu, Op::ToRadians, self.turret.direction);
        let scan_fov_half_rad = ask1(
            fpu,
            Op::ToRadians,
            ask(fpu, Op::Div, self.turret.scanner.fov, ieee::TWO),
        );
        let mut closest_target_dist_sq = ieee::INFINITY;
        let mut target_found = false;
        let mut best_target_angle_deg = ieee::ZERO;
        let mut best_target_dist = ieee::ZERO;

        let mut i: usize = 0;
        while i < others.len()
            invariant
                is_unit(fpu),
                i <= others.len(),
                scanner_pos == self@.position,
                scanner_dir_rad == answer1(fpu, Op::ToRadians, self@.turret.direction),
                scan_fov_half_rad == half_field(fpu, self@),
                scan_of(fpu, self@, arena@, others@, i as int) == (Sighting {
                    found: target_found,
                    nearest_squared: closest_target_dist_sq,
                    distance: best_target_dist,
                    direction: best_target_angle_deg,
                }),
            decreases others.len() - i,
        {
            let other = others[i];
            i += 1;
            if other.id == self.id {
                continue;
            }
            if other.status == RobotStatus::Destroyed {
                continue;
            }
            let dx = ask(fpu, Op::Sub, other.position.x, scanner_pos.x);
            let dy = ask(fpu, Op::Sub, other.position.y, scanner_pos.y);
            let dist_sq = ask(fpu, Op::Add, ask(fpu, Op::Mul, dx, dx), ask(fpu, Op::Mul, dy, dy));
            if ieee::le(dist_sq, closest_target_dist_sq) {
                let angle_to_target_rad = ask(fpu, Op::Atan2, dy, dx);
                let angle_to_target_deg_normalized = ask(
                    fpu,
                    Op::RemEuclid,
                    ask1(fpu, Op::ToDegrees, angle_to_target_rad),
                    ieee::FULL_TURN,
                );
                let turned = ask(fpu, Op::Sub, angle_to_target_rad, scanner_dir_rad);
                let angle_diff = ask(
                    fpu,
                    Op::Sub,
                    config::PI,
                    ask(fpu, Op::RemEuclid, ask(fpu, Op::Sub, config::PI, turned), config::TWO_PI),
                );
                if ieee::le(ieee::abs(angle_diff), scan_fov_half_rad) {
                    let collision_dist = arena.distance_to_collision(
                        scanner_pos,
                        angle_to_target_deg_normalized,
                        fpu,
                    );
                    let target_dist = ask1(fpu, Op::Sqrt, dist_sq);
                    if ieee::lt(target_dist, collision_dist) {
                        closest_target_dist_sq = dist_sq;
                        target_found = true;
                        best_target_angle_deg = angle_to_target_deg_normalized;
                        best_target_dist = target_dist;
                    }
                }
            }
        }
        if target_found {
            (best_target_dist, best_target_angle_deg)
        } else {
            (ieee::ZERO, ieee::ZERO)
        }
    }

    /// Loads a program: the robot takes its instructions, its machine is at
    /// rest again, and the robot is idle until its first cycle.
    pub fn load_program(&mut self, program: ParsedProgram)
        ensures
            final(self).wf(),
            final(self)@ == (RobotView {
                program: program@.instructions,
                vm: VMState::rest(),
                status: RobotStatus::Idle,
                ..old(self)@
            }),
    {
        self.program = program.instructions;
        self.vm_state = VMState::new();
        self.status = RobotStatus::Idle;
    }

    /// The updates of one cycle, and a refresh of the registers that the
    /// host keeps.
    pub fn update<F: Fn(Op, u64, u64) -> u64>(&mut self, arena: &Arena, fpu: &F)
        requires
            old(self).wf(),
            arena@.wf(),
            is_unit(fpu),
        ensures
            final(self).wf(),
            final(self)@ == cycled(fpu, old(self)@, arena@).with_vm(
                refreshed(
                    fpu,
                    cycled(fpu, old(self)@, arena@),
                    arena@,
                    final(self)@.vm.reg(Register::Rand),
                ),
            ),
            ieee::spec_le(ieee::ZERO, final(self)@.vm.reg(Register::Rand)),
            ieee::spec_lt(final(self)@.vm.reg(Register::Rand), ieee::ONE),
    {
        self.process_cycle_updates(arena, fpu);
        self.update_vm_state_registers(arena, fpu);
    }

    /// Refreshes the registers that the host keeps, and draws this cycle's
    /// random number, which is 0.0 or more and less than 1.0.
    pub fn update_vm_state_registers<F: Fn(Op, u64, u64) -> u64>(&mut self, arena: &Arena, fpu: &F)
        requires
            old(self).wf(),
            is_unit(fpu),
        ensures
            final(self).wf(),
            final(self)@ == old(self)@.with_vm(
                refreshed(fpu, old(self)@, arena@, final(self)@.vm.reg(Register::Rand)),
            ),
            ieee::spec_le(ieee::ZERO, final(self)@.vm.reg(Register::Rand)),
            ieee::spec_lt(final(self)@.vm.reg(Register::Rand), ieee::ONE),
    {
        let random_value = ieee::unit_interval(random::next_word(&mut self.rng));
        self.refresh_registers(arena, random_value, fpu);
    }

    /// Refreshes the registers that the host keeps, with `random_value` as
    /// this cycle's random number.
    pub fn refresh_registers<F: Fn(Op, u64, u64) -> u64>(
        &mut self,
        arena: &Arena,
        random_value: u64,
        fpu: &F,
    )
        requires
            old(self).wf(),
            is_unit(fpu),
        ensures
            final(self).wf(),
            final(self)@ == old(self)@.with_vm(refreshed(fpu, old(self)@, arena@, random_value)),
    {
        let forward_angle = self.drive.direction;
        let backward_angle = ask(
            fpu,
            Op::RemEuclid,
            ask(fpu, Op::Add, self.drive.direction, ieee::HALF_TURN),
            ieee::FULL_TURN,
        );
        let forward_dist = arena.distance_to_collision(self.position, forward_angle, fpu);
        let backward_dist = arena.distance_to_collision(self.position, backward_angle, fpu);
        let turn = ieee::from_u32(self.vm_state.turn);
        let cycle = ieee::from_u32(self.vm_state.cycle);

        let _ = self.vm_state.registers.set_internal(Register::Turn, turn);
        let _ = self.vm_state.registers.set_internal(Register::Cycle, cycle);
        let _ = self.vm_state.registers.set_internal(Register::Rand, random_value);
        let _ = self.vm_state.registers.set_internal(Register::Health, self.health);
        let _ = self.vm_state.registers.set_internal(Register::Power, self.power);
        let _ = self.vm_state.registers.set_internal(
            Register::TurretDirection,
            self.turret.direction,
        );
        let _ = self.vm_state.registers.set_internal(
            Register::DriveDirection,
            self.drive.direction,
        );
        let _ = self.vm_state.registers.set_internal(Register::DriveVelocity, self.drive.velocity);
        let _ = self.vm_state.registers.set_internal(Register::PosX, self.position.x);
        let _ = self.vm_state.registers.set_internal(Register::PosY, self.position.y);
        let _ = self.vm_state.registers.set_internal(Register::ForwardDistance, forward_dist);
        let _ = self.vm_state.registers.set_internal(Register::BackwardDistance, backward_dist);
        let _ = self.vm_state.registers.set_internal(Register::WeaponPower, self.power);
        let _ = self.vm_state.registers.set_internal(Register::WeaponCooldown, ieee::ZERO);
    }

    /// One cycle of the robot's machine. `all_robots` is what the robot can
    /// know of the robots in the arena.
    pub fn execute_vm_cycle<F: Fn(Op, u64, u64) -> u64>(
        &mut self,
        all_robots: &Vec<RobotInfo>,
        arena: &Arena,
        command_queue: &mut Vec<ArenaCommand>,
        fpu: &F,
    )
        requires
            old(self).wf(),
            is_unit(fpu),
        ensures
            final(self).wf(),
            final(self)@ == after_cycle(fpu, old(self)@, all_robots@, arena@).0,
            final(command_queue)@ == old(command_queue)@ + after_cycle(
                fpu,
                old(self)@,
                all_robots@,
                arena@,
            ).1,
    {
        let _ = self.execute_vm_cycle_with_provider(all_robots, arena, command_queue, fpu);
    }

    /// One cycle of the robot's machine, which sees of the arena's robots
    /// what `others` holds. Gives the fault that the machine is halted on
    /// before the cycle or that this cycle's instruction ends in, if any.
    pub fn execute_vm_cycle_with_provider<F: Fn(Op, u64, u64) -> u64>(
        &mut self,
        others: &Vec<RobotInfo>,
        arena: &Arena,
        command_queue: &mut Vec<ArenaCommand>,
        fpu: &F,
    ) -> (fault: Option<VMFault>)
        requires
            old(self).wf(),
            is_unit(fpu),
        ensures
            final(self).wf(),
            final(self)@ == after_cycle(fpu, old(self)@, others@, arena@).0,
            final(command_queue)@ == old(command_queue)@ + after_cycle(
                fpu,
                old(self)@,
                others@,
                arena@,
            ).1,
            fault == if old(self)@.vm.instruction_cycles_remaining > 0 && old(self)@.vm.fault
                is None {
                None
            } else {
                final(self)@.vm.fault
            },
    {
        proof {
            assert(old(command_queue)@ + Seq::<ArenaCommand>::empty() =~= old(command_queue)@);
        }
        if self.status == RobotStatus::Idle {
            self.status = RobotStatus::Active;
        }
        if self.status != RobotStatus::Active || self.vm_state.fault.is_some() {
            return self.vm_state.fault;
        }
        if self.vm_state.instruction_cycles_remaining > 0 {
            self.vm_state.instruction_cycles_remaining -= 1;
            return None;
        }
        let executor = InstructionExecutor::new();
        let ip = self.vm_state.ip;
        if ip < self.program.len() {
            let instr = self.program[ip];
            let cost = instr.cycle_cost(&self.vm_state, fpu);
            let ip_before_exec = self.vm_state.ip;
            let result = executor.execute_instruction_by_id(
                self,
                others,
                arena,
                &instr,
                command_queue,
                fpu,
            );
            match result {
                Ok(()) => {
                    if self.vm_state.ip == ip_before_exec {
                        self.vm_state.advance_ip();
                    }
                    self.vm_state.instruction_cycles_remaining = cost - 1;
                    None
                },
                Err(fault) => {
                    match instr {
                        Instruction::Call(_) => {},
                        _ => {
                            self.vm_state.ip = ip_before_exec;
                        },
                    }
                    self.vm_state.set_fault(fault);
                    self.vm_state.instruction_cycles_remaining = u32::MAX;
                    Some(fault)
                },
            }
        } else {
            self.vm_state.instruction_cycles_remaining = u32::MAX;
            None
        }
    }

    /// The updates of one cycle: the robot regains power, its drive and its
    /// turret turn, and it drives. Its power is 1.0 at most afterwards.
    pub fn process_cycle_updates<F: Fn(Op, u64, u64) -> u64>(&mut self, arena: &Arena, fpu: &F)
        requires
            old(self).wf(),
            arena@.wf(),
            is_unit(fpu),
        ensures
            final(self).wf(),
            final(self)@ == cycled(fpu, old(self)@, arena@),
            ieee::spec_le(final(self)@.power, ieee::ONE),
    {
        self.power = ieee::min(ask(fpu, Op::Add, self.power, config::POWER_REGEN_RATE), ieee::ONE);
        let (direction, pending) = Self::turn_step(
            self.drive.direction,
            self.drive.pending_rotation,
            fpu,
        );
        self.drive.direction = direction;
        self.drive.pending_rotation = pending;
        let (direction, pending) = Self::turn_step(
            self.turret.direction,
            self.turret.pending_rotation,
            fpu,
        );
        self.turret.direction = direction;
        self.turret.pending_rotation = pending;
        self.process_movement(arena, fpu);
    }

    /// One cycle of turning of a component.
    fn turn_step<F: Fn(Op, u64, u64) -> u64>(direction: u64, pending: u64, fpu: &F) -> (res: (
        u64,
        u64,
    ))
        requires
            is_unit(fpu),
        ensures
            res == turned(fpu, direction, pending),
    {
        let max_rot = config::MAX_ROTATION_PER_CYCLE;
        if ieee::gt(ieee::abs(pending), ieee::MICRO) {
            let rot_this_cycle = ieee::clamp(pending, ieee::neg(max_rot), max_rot);
            (
                ask(fpu, Op::RemEuclid, ask(fpu, Op::Add, direction, rot_this_cycle), ieee::FULL_TURN),
                ask(fpu, Op::Sub, pending, rot_this_cycle),
            )
        } else if !ieee::eq(pending, ieee::ZERO) {
            (direction, ieee::ZERO)
        } else {
            (direction, pending)
        }
    }

    /// One cycle of driving.
    fn process_movement<F: Fn(Op, u64, u64) -> u64>(&mut self, arena: &Arena, fpu: &F)
        requires
            arena@.wf(),
            is_unit(fpu),
        ensures
            old(self).wf() ==> final(self).wf(),
            final(self)@ == moved(fpu, old(self)@, arena@),
    {
        if ieee::lt(ieee::abs(self.drive.velocity), ieee::NANO) {
            return ;
        }
        let max_safe_distance = arena.distance_to_collision(
            self.position,
            self.drive.direction,
            fpu,
        );
        let intended_distance = self.drive.velocity;
        let actual_distance = if ieee::gt(intended_distance, ieee::ZERO) {
            let safe_distance = ask(fpu, Op::Sub, max_safe_distance, config::SAFETY_MARGIN);
            if ieee::le(safe_distance, ieee::ZERO) {
                ieee::ZERO
            } else {
                ieee::min(intended_distance, safe_distance)
            }
        } else {
            intended_distance
        };
        if ieee::lt(ieee::abs(actual_distance), ieee::NANO) {
            self.drive.velocity = ieee::ZERO;
            return ;
        }
        let cos = ask_of_degrees(fpu, Op::Cos, self.drive.direction);
        let sin = ask_of_degrees(fpu, Op::Sin, self.drive.direction);
        let dx = ask(fpu, Op::Mul, cos, actual_distance);
        let dy = ask(fpu, Op::Mul, sin, actual_distance);
        let next_pos = Point {
            x: ask(fpu, Op::Add, self.position.x, dx),
            y: ask(fpu, Op::Add, self.position.y, dy),
        };
        self.position = next_pos;
        if ieee::lt(self.position.x, ieee::ZERO) || ieee::gt(self.position.x, arena.width)
            || ieee::lt(self.position.y, ieee::ZERO) || ieee::gt(self.position.y, arena.height) {
            self.position.x = ieee::clamp(self.position.x, ieee::ZERO, arena.width);
            self.position.y = ieee::clamp(self.position.y, ieee::ZERO, arena.height);
            self.drive.velocity = ieee::ZERO;
        }
        if arena.check_collision(self.position, fpu) {
            self.drive.velocity = ieee::ZERO;
        }
    }

    /// The instruction that the robot's machine is at, if its program has one
    /// there.
    pub fn current_instruction(&self) -> (instruction: Option<Instruction>)
        ensures
            instruction == if self@.vm.ip < self@.program.len() {
                Some(self@.program[self@.vm.ip as int])
            } else {
                None
            },
    {
        if self.program.len() == 0 || self.vm_state.ip >= self.program.len() {
            return None;
        }
        Some(self.program[self.vm_state.ip])
    }

    /// Sets the velocity of the drive, in coordinate units per cycle.
    pub fn set_drive_velocity(&mut self, velocity: u64)
        ensures
            final(self)@ == (RobotView {
                drive: DriveComponent { velocity, ..old(self)@.drive },
                ..old(self)@
            }),
            old(self).wf() ==> final(self).wf(),
    {
        self.drive.velocity = velocity;
    }

    /// Asks the drive to turn by `angle_delta` degrees more. The turning
    /// itself happens cycle by cycle.
    pub fn request_drive_rotation<F: Fn(Op, u64, u64) -> u64>(&mut self, angle_delta: u64, fpu: &F)
        requires
            is_unit(fpu),
        ensures
            final(self)@ == (RobotView {
                drive: DriveComponent {
                    pending_rotation: answer(
                        fpu,
                        Op::Add,
                        old(self)@.drive.pending_rotation,
                        angle_delta,
                    ),
                    ..old(self)@.drive
                },
                ..old(self)@
            }),
            old(self).wf() ==> final(self).wf(),
    {
        self.drive.pending_rotation = ask(fpu, Op::Add, self.drive.pending_rotation, angle_delta);
    }

    /// Asks the turret to turn by `angle_delta` degrees more. The turning
    /// itself happens cycle by cycle.
    pub fn request_turret_rotation<F: Fn(Op, u64, u64) -> u64>(&mut self, angle_delta: u64, fpu: &F)
        requires
            is_unit(fpu),
        ensures
            final(self)@ == (RobotView {
                turret: TurretComponent {
                    pending_rotation: answer(
                        fpu,
                        Op::Add,
                        old(self)@.turret.pending_rotation,
                        angle_delta,
                    ),
                    ..old(self)@.turret
                },
                ..old(self)@
            }),
            old(self).wf() ==> final(self).wf(),
    {
        self.turret.pending_rotation = ask(
            fpu,
            Op::Add,
            self.turret.pending_rotation,
            angle_delta,
        );
    }
}

} // verus!
