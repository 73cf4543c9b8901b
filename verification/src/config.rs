//! The constants of the game. Numbers that are not integers are binary64
//! words (see `crate::ieee`); the comment of each gives its decimal value.
use vstd::prelude::*;

verus! {

// Arena and movement

/// The side of one grid unit, 0.05: 5% of the arena's width.
pub const UNIT_SIZE: u64 = 0x3FA9_9999_9999_999A;

/// The power a robot regains each cycle, 0.01.
pub const POWER_REGEN_RATE: u64 = 0x3F84_7AE1_47AE_147B;

/// The width of the arena in grid units.
pub const ARENA_WIDTH_UNITS: u32 = 20;

/// The height of the arena in grid units.
pub const ARENA_HEIGHT_UNITS: u32 = 20;

/// The share of grid cells that hold an obstacle, one in a hundred.
pub const OBSTACLE_DENSITY_PERCENT: u32 = 1;

/// The distance up to which a robot is in another's area of interest, 1.0.
pub const SCAN_DISTANCE: u64 = 0x3FF0_0000_0000_0000;

/// The width of the arena in coordinate units:
/// `ARENA_WIDTH_UNITS * UNIT_SIZE`, 1.0.
pub const ARENA_WIDTH: u64 = 0x3FF0_0000_0000_0000;

/// The height of the arena in coordinate units:
/// `ARENA_HEIGHT_UNITS * UNIT_SIZE`, 1.0.
pub const ARENA_HEIGHT: u64 = 0x3FF0_0000_0000_0000;

/// 0.5: from the corner of a grid cell to its centre, in grid units.
pub const HALF: u64 = 0x3FE0_0000_0000_0000;

/// Where the robots start, near a border: two grid units in,
/// `2 * UNIT_SIZE`, 0.1.
pub const START_NEAR: u64 = 0x3FB9_9999_9999_999A;

/// Where the robots start, near the opposite border: `1 - 2 * UNIT_SIZE`, 0.9.
pub const START_FAR: u64 = 0x3FEC_CCCC_CCCC_CCCD;

// Game rules

/// The number of turns after which a game ends undecided.
pub const MAX_TURNS: u32 = 1000;

/// The number of cycles in a turn.
pub const CYCLES_PER_TURN: u32 = 100;

/// The health a robot starts with, 100.0.
pub const DEFAULT_INITIAL_HEALTH: u64 = 0x4059_0000_0000_0000;

/// The power a robot starts with, and the most it can hold, 1.0.
pub const DEFAULT_INITIAL_POWER: u64 = 0x3FF0_0000_0000_0000;

// Scanner

/// The scanner's field of view in degrees, 45.0.
pub const DEFAULT_SCANNER_FOV: u64 = 0x4046_8000_0000_0000;

/// The scanner's range, 1.414.
pub const DEFAULT_SCANNER_RANGE: u64 = 0x3FF6_9FBE_76C8_B439;

// Ranged weapon

/// The damage of a projectile fired with full power, 10.0.
pub const DEFAULT_RANGED_DAMAGE: u64 = 0x4024_0000_0000_0000;

/// The speed of a projectile in grid units per cycle, 0.2.
pub const DEFAULT_PROJECTILE_SPEED: u64 = 0x3FC9_9999_9999_999A;

/// The number of steps in which a projectile's way through one cycle is checked.
pub const PROJECTILE_SUB_STEPS: u32 = 1;

// Robot physics

/// The fastest a robot drives, in grid units per turn, 5.0.
pub const MAX_DRIVE_UNITS_PER_TURN: u64 = 0x4014_0000_0000_0000;

/// What turns grid units per turn into coordinate units per cycle:
/// `UNIT_SIZE / CYCLES_PER_TURN`, 0.0005.
pub const DRIVE_VELOCITY_FACTOR: u64 = 0x3F40_624D_D2F1_A9FC;

/// The fastest a robot drives, in coordinate units per cycle:
/// `MAX_DRIVE_UNITS_PER_TURN * DRIVE_VELOCITY_FACTOR`, 0.0025.
pub const MAX_DRIVE_VELOCITY: u64 = 0x3F64_7AE1_47AE_147B;

/// The most a drive or a turret turns in one cycle, in degrees:
/// `180 / CYCLES_PER_TURN`, 1.8.
pub const MAX_ROTATION_PER_CYCLE: u64 = 0x3FFC_CCCC_CCCC_CCCD;

/// How far ahead of the robot's centre a projectile starts: 80% of a grid
/// unit, `UNIT_SIZE * 0.8`.
pub const MUZZLE_OFFSET: u64 = 0x3FA4_7AE1_47AE_147C;

/// The room a driving robot keeps to what is ahead: 1% of a grid unit,
/// `UNIT_SIZE * 0.01`, 0.0005.
pub const SAFETY_MARGIN: u64 = 0x3F40_624D_D2F1_A9FC;

/// Half a turn in radians, pi.
pub const PI: u64 = 0x4009_21FB_5444_2D18;

/// A full turn in radians, two pi.
pub const TWO_PI: u64 = 0x4019_21FB_5444_2D18;

// Machine

/// The largest number of return addresses the call stack holds.
pub const MAX_CALL_STACK_SIZE: usize = 10;

/// The number of numbers the operand stack holds.
pub const STACK_SIZE: usize = 32;

/// The number of cells of a machine's memory.
pub const MEMORY_SIZE: usize = 1024;

} // verus!
