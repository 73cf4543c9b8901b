//! Plain data shared by robots, the arena and the machine.
use crate::config;
use crate::fpu::{answer, answer1, ask, ask1, is_unit, Op};
use vstd::prelude::*;

verus! {

/// A point of the arena in coordinate units.
#[derive(Debug, Clone, Copy, PartialEq, Eq, Structural)]
pub struct Point {
    pub x: u64,
    pub y: u64,
}

impl Point {
    /// The distance between two points: the root of the sum of the squared
    /// differences of their coordinates.
    pub open spec fn spec_distance<F: Fn(Op, u64, u64) -> u64>(
        self,
        other: Point,
        fpu: &F,
    ) -> u64 {
        let dx = answer(fpu, Op::Sub, self.x, other.x);
        let dy = answer(fpu, Op::Sub, self.y, other.y);
        answer1(
            fpu,
            Op::Sqrt,
            answer(fpu, Op::Add, answer(fpu, Op::Mul, dx, dx), answer(fpu, Op::Mul, dy, dy)),
        )
    }

    /// The distance between two points.
    pub fn distance<F: Fn(Op, u64, u64) -> u64>(&self, other: &Point, fpu: &F) -> (d: u64)
        requires
            is_unit(fpu),
        ensures
            d == self.spec_distance(*other, fpu),
    {
        let dx = ask(fpu, Op::Sub, self.x, other.x);
        let dy = ask(fpu, Op::Sub, self.y, other.y);
        let xx = ask(fpu, Op::Mul, dx, dx);
        let yy = ask(fpu, Op::Mul, dy, dy);
        ask1(fpu, Op::Sqrt, ask(fpu, Op::Add, xx, yy))
    }
}

/// A shot in flight.
#[derive(Debug, Clone, Copy, PartialEq, Eq, Structural)]
pub struct Projectile {
    pub position: Point,
    /// Where the projectile was a cycle ago; read when drawing, never when
    /// looking for collisions.
    pub prev_position: Point,
    /// In degrees, 0 along +x, counter-clockwise positive.
    pub direction: u64,
    /// In grid units per cycle.
    pub speed: u64,
    /// The power the shot was fired with, between 0 and 1.
    pub power: u64,
    pub base_damage: u64,
    /// The id of the robot that fired.
    pub source_robot: u32,
}

/// What the machine asks of the arena. Commands are queued while the robots
/// run and carried out afterwards.
#[derive(Debug, Clone, Copy, PartialEq, Eq, Structural)]
pub enum ArenaCommand {
    SpawnProjectile(Projectile),
    SpawnMuzzleFlash { position: Point, direction: u64 },
}

/// The scanner mounted on a turret.
#[derive(Debug, Clone, Copy, PartialEq, Eq, Structural)]
pub struct Scanner {
    /// The field of view in degrees.
    pub fov: u64,
    pub range: u64,
}

/// The weapon mounted on a turret.
#[derive(Debug, Clone, Copy, PartialEq, Eq, Structural)]
pub struct RangedWeapon {
    /// In grid units per cycle.
    pub projectile_speed: u64,
    pub base_damage: u64,
}

impl Default for Scanner {
    fn default() -> (s: Self)
        ensures
            s == (Scanner {
                fov: config::DEFAULT_SCANNER_FOV,
                range: config::DEFAULT_SCANNER_RANGE,
            }),
    {
        Scanner { fov: config::DEFAULT_SCANNER_FOV, range: config::DEFAULT_SCANNER_RANGE }
    }
}

impl Default for RangedWeapon {
    fn default() -> (w: Self)
        ensures
            w == (RangedWeapon {
                projectile_speed: config::DEFAULT_PROJECTILE_SPEED,
                base_damage: config::DEFAULT_RANGED_DAMAGE,
            }),
    {
        RangedWeapon {
            projectile_speed: config::DEFAULT_PROJECTILE_SPEED,
            base_damage: config::DEFAULT_RANGED_DAMAGE,
        }
    }
}

} // verus!
