//! The arena: a rectangle with obstacles in it and projectiles crossing it.
use crate::config;
use crate::fpu::{answer, ask, ask_of_degrees, is_unit, of_degrees, Op};
use crate::ieee;
use crate::random;
use crate::robot::{Robot, RobotStatus, RobotView};
use crate::types::{Point, Projectile};
use vstd::prelude::*;

verus! {

/// A square of the side of one grid unit around `position`, which nothing
/// passes.
#[derive(Debug, Clone, Copy, PartialEq, Eq, Structural)]
pub struct Obstacle {
    /// The centre, in coordinate units.
    pub position: Point,
}

/// The arena.
#[derive(Debug)]
pub struct Arena {
    /// In coordinate units.
    pub width: u64,
    /// In coordinate units.
    pub height: u64,
    /// In grid units.
    pub grid_width: u32,
    /// In grid units.
    pub grid_height: u32,
    /// The side of a grid unit in coordinate units.
    pub unit_size: u64,
    pub obstacles: Vec<Obstacle>,
    pub projectiles: Vec<Projectile>,
}

/// What an arena holds, as plain mathematics.
pub struct ArenaView {
    pub width: u64,
    pub height: u64,
    pub grid_width: u32,
    pub grid_height: u32,
    pub unit_size: u64,
    pub obstacles: Seq<Obstacle>,
    pub projectiles: Seq<Projectile>,
}

impl View for Arena {
    type V = ArenaView;

    open spec fn view(&self) -> ArenaView {
        ArenaView {
            width: self.width,
            height: self.height,
            grid_width: self.grid_width,
            grid_height: self.grid_height,
            unit_size: self.unit_size,
            obstacles: self.obstacles@,
            projectiles: self.projectiles@,
        }
    }
}

/// Half the side of a grid unit: how far an obstacle reaches from its centre,
/// and the radius of a robot.
pub open spec fn half_unit<F: Fn(Op, u64, u64) -> u64>(fpu: &F, unit_size: u64) -> u64 {
    answer(fpu, Op::Div, unit_size, ieee::TWO)
}

/// The point lies in the square of an obstacle, its border included.
pub open spec fn covers<F: Fn(Op, u64, u64) -> u64>(
    fpu: &F,
    obstacle: Obstacle,
    half: u64,
    point: Point,
) -> bool {
    &&& ieee::spec_ge(point.x, answer(fpu, Op::Sub, obstacle.position.x, half))
    &&& ieee::spec_le(point.x, answer(fpu, Op::Add, obstacle.position.x, half))
    &&& ieee::spec_ge(point.y, answer(fpu, Op::Sub, obstacle.position.y, half))
    &&& ieee::spec_le(point.y, answer(fpu, Op::Add, obstacle.position.y, half))
}

/// A ray from a point of the arena.
pub struct Ray {
    pub start: Point,
    /// The cosine of its direction.
    pub cos: u64,
    /// The sine of its direction.
    pub sin: u64,
}

/// The ray from `start` in the direction of `angle_degrees`.
pub open spec fn ray_from<F: Fn(Op, u64, u64) -> u64>(
    fpu: &F,
    start: Point,
    angle_degrees: u64,
) -> Ray {
    Ray {
        start,
        cos: of_degrees(fpu, Op::Cos, angle_degrees),
        sin: of_degrees(fpu, Op::Sin, angle_degrees),
    }
}

/// The ray moves along an axis: `component`, its cosine or sine, is not
/// about zero.
pub open spec fn moves_along(component: u64) -> bool {
    ieee::spec_gt(ieee::spec_abs(component), ieee::NANO)
}

/// The nearest wall so far, `best`, or the wall at distance
/// `numerator / along` if that one is ahead, nearer, and met between 0 and
/// `extent` on the other axis.
pub open spec fn nearer_wall<F: Fn(Op, u64, u64) -> u64>(
    fpu: &F,
    best: u64,
    numerator: u64,
    along: u64,
    other_start: u64,
    other_along: u64,
    extent: u64,
) -> u64 {
    let dist = answer(fpu, Op::Div, numerator, along);
    let met = answer(fpu, Op::Add, other_start, answer(fpu, Op::Mul, dist, other_along));
    if ieee::spec_gt(dist, ieee::NANO) && ieee::spec_ge(met, ieee::ZERO) && ieee::spec_le(
        met,
        extent,
    ) {
        ieee::spec_min(best, dist)
    } else {
        best
    }
}

/// The distance from the start of the ray to the nearest wall ahead;
/// infinite where the ray meets none.
pub open spec fn wall_distance<F: Fn(Op, u64, u64) -> u64>(
    fpu: &F,
    ray: Ray,
    width: u64,
    height: u64,
) -> u64 {
    let left = if moves_along(ray.cos) {
        nearer_wall(
            fpu,
            ieee::INFINITY,
            ieee::spec_neg(ray.start.x),
            ray.cos,
            ray.start.y,
            ray.sin,
            height,
        )
    } else {
        ieee::INFINITY
    };
    let right = if moves_along(ray.cos) {
        nearer_wall(
            fpu,
            left,
            answer(fpu, Op::Sub, width, ray.start.x),
            ray.cos,
            ray.start.y,
            ray.sin,
            height,
        )
    } else {
        left
    };
    let bottom = if moves_along(ray.sin) {
        nearer_wall(
            fpu,
            right,
            ieee::spec_neg(ray.start.y),
            ray.sin,
            ray.start.x,
            ray.cos,
            width,
        )
    } else {
        right
    };
    if moves_along(ray.sin) {
        nearer_wall(
            fpu,
            bottom,
            answer(fpu, Op::Sub, height, ray.start.y),
            ray.sin,
            ray.start.x,
            ray.cos,
            width,
        )
    } else {
        bottom
    }
}

/// One over a component of the direction; infinite where the ray does not
/// move along that axis.
pub open spec fn inverse<F: Fn(Op, u64, u64) -> u64>(fpu: &F, component: u64) -> u64 {
    if moves_along(component) {
        answer(fpu, Op::Div, ieee::ONE, component)
    } else {
        ieee::INFINITY
    }
}

/// Where along the ray it enters and leaves the band that an obstacle, grown
/// by `reach` on both sides, takes on one axis.
pub open spec fn band<F: Fn(Op, u64, u64) -> u64>(
    fpu: &F,
    centre: u64,
    reach: u64,
    start: u64,
    inv: u64,
) -> (u64, u64) {
    let low = answer(fpu, Op::Sub, answer(fpu, Op::Sub, centre, reach), reach);
    let high = answer(fpu, Op::Add, answer(fpu, Op::Add, centre, reach), reach);
    let t1 = answer(fpu, Op::Mul, answer(fpu, Op::Sub, low, start), inv);
    let t2 = answer(fpu, Op::Mul, answer(fpu, Op::Sub, high, start), inv);
    (ieee::spec_min(t1, t2), ieee::spec_max(t1, t2))
}

/// Where along the ray the centre of a robot is when its edge first touches
/// an obstacle: nowhere where the robot passes it by.
pub open spec fn touch<F: Fn(Op, u64, u64) -> u64>(
    fpu: &F,
    ray: Ray,
    obstacle: Obstacle,
    reach: u64,
) -> Option<u64> {
    let x = band(fpu, obstacle.position.x, reach, ray.start.x, inverse(fpu, ray.cos));
    let y = band(fpu, obstacle.position.y, reach, ray.start.y, inverse(fpu, ray.sin));
    let tmin = ieee::spec_max(x.0, y.0);
    let tmax = ieee::spec_min(x.1, y.1);
    if ieee::spec_ge(tmax, ieee::ZERO) && ieee::spec_le(tmin, tmax) {
        Some(tmin)
    } else {
        None
    }
}

/// The free way that is left of `best` once the obstacles from the `i`-th on
/// are looked at: an obstacle touched ahead shortens it, one that the robot
/// touches already leaves none.
pub open spec fn free_way<F: Fn(Op, u64, u64) -> u64>(
    fpu: &F,
    ray: Ray,
    obstacles: Seq<Obstacle>,
    reach: u64,
    i: int,
    best: u64,
) -> u64
    decreases obstacles.len() - i,
{
    if i < 0 || i >= obstacles.len() {
        best
    } else {
        match touch(fpu, ray, obstacles[i], reach) {
            None => free_way(fpu, ray, obstacles, reach, i + 1, best),
            Some(tmin) => if ieee::spec_gt(tmin, ieee::NANO) {
                free_way(fpu, ray, obstacles, reach, i + 1, ieee::spec_min(best, tmin))
            } else {
                ieee::ZERO
            },
        }
    }
}

/// The free way is a distance: it is 0.0 or more, whatever the arithmetic
/// unit answers.
pub proof fn lemma_free_way_is_distance<F: Fn(Op, u64, u64) -> u64>(
    fpu: &F,
    ray: Ray,
    obstacles: Seq<Obstacle>,
    reach: u64,
    i: int,
    best: u64,
)
    requires
        ieee::spec_ge(best, ieee::ZERO),
    ensures
        ieee::spec_ge(free_way(fpu, ray, obstacles, reach, i, best), ieee::ZERO),
    decreases obstacles.len() - i,
{
    if 0 <= i < obstacles.len() {
        match touch(fpu, ray, obstacles[i], reach) {
            None => {
                lemma_free_way_is_distance(fpu, ray, obstacles, reach, i + 1, best);
            },
            Some(tmin) => {
                if ieee::spec_gt(tmin, ieee::NANO) {
                    lemma_free_way_is_distance(
                        fpu,
                        ray,
                        obstacles,
                        reach,
                        i + 1,
                        ieee::spec_min(best, tmin),
                    );
                }
            },
        }
    }
}

impl ArenaView {
    /// The arena has an extent: neither its width nor its height is negative
    /// or NaN.
    pub open spec fn wf(self) -> bool {
        ieee::spec_le(ieee::ZERO, self.width) && ieee::spec_le(ieee::ZERO, self.height)
    }

    /// How far a robot can go from `start` in the direction of
    /// `angle_degrees` until its edge touches a wall or an obstacle. A robot
    /// is a disc of half a grid unit's radius.
    pub open spec fn free_distance<F: Fn(Op, u64, u64) -> u64>(
        self,
        fpu: &F,
        start: Point,
        angle_degrees: u64,
    ) -> u64 {
        let ray = ray_from(fpu, start, angle_degrees);
        let reach = half_unit(fpu, self.unit_size);
        let to_wall = ieee::spec_max(
            answer(fpu, Op::Sub, wall_distance(fpu, ray, self.width, self.height), reach),
            ieee::ZERO,
        );
        free_way(fpu, ray, self.obstacles, reach, 0, to_wall)
    }

    /// The point lies in the square of one of the obstacles.
    pub open spec fn collides<F: Fn(Op, u64, u64) -> u64>(self, fpu: &F, point: Point) -> bool {
        exists|i: int|
            0 <= i < self.obstacles.len() && #[trigger] covers(
                fpu,
                self.obstacles[i],
                half_unit(fpu, self.unit_size),
                point,
            )
    }

    /// The centre of a grid cell in coordinate units, the column and the row
    /// of the cell given as numbers.
    pub open spec fn cell_centre<F: Fn(Op, u64, u64) -> u64>(
        self,
        fpu: &F,
        grid_x: u64,
        grid_y: u64,
    ) -> Point {
        Point {
            x: answer(
                fpu,
                Op::Mul,
                answer(fpu, Op::Add, grid_x, config::HALF),
                self.unit_size,
            ),
            y: answer(
                fpu,
                Op::Mul,
                answer(fpu, Op::Add, grid_y, config::HALF),
                self.unit_size,
            ),
        }
    }
}

/// A cell number below the number of cells names a column and a row.
proof fn lemma_cell(number: int, width: int, height: int)
    requires
        0 <= number < width * height,
        0 < width,
    ensures
        0 <= number % width < width,
        0 <= number / width < height,
        number == (number / width) * width + number % width,
{
    vstd::arithmetic::div_mod::lemma_fundamental_div_mod(number, width);
    vstd::arithmetic::div_mod::lemma_mod_bound(number, width);
    vstd::arithmetic::div_mod::lemma_div_pos_is_pos(number, width);
    assert(number / width < height) by (nonlinear_arith)
        requires
            0 <= number < width * height,
            0 < width,
            number == width * (number / width) + number % width,
            0 <= number % width,
    ;
    assert((number / width) * width == width * (number / width)) by (nonlinear_arith);
}

/// What each of the robots holds.
pub open spec fn robot_views(robots: Seq<Robot>) -> Seq<RobotView> {
    Seq::new(robots.len(), |i: int| robots[i]@)
}

/// Every robot's machine is in order.
pub open spec fn all_wf(robots: Seq<Robot>) -> bool {
    forall|i: int| 0 <= i < robots.len() ==> (#[trigger] robots[i]).wf()
}

/// The `j`-th robot is near the `i`-th: it is another robot, not a wreck,
/// and no farther away than the scan distance.
pub open spec fn is_near<F: Fn(Op, u64, u64) -> u64>(
    fpu: &F,
    robots: Seq<RobotView>,
    i: int,
    j: int,
) -> bool {
    &&& i != j
    &&& robots[j].status != RobotStatus::Destroyed
    &&& ieee::spec_le(
        robots[i].position.spec_distance(robots[j].position, fpu),
        config::SCAN_DISTANCE,
    )
}

/// The ids of the robots among the first `upto` that are near the `i`-th, in
/// their order.
pub open spec fn neighbours<F: Fn(Op, u64, u64) -> u64>(
    fpu: &F,
    robots: Seq<RobotView>,
    i: int,
    upto: int,
) -> Seq<u32>
    decreases upto,
{
    if upto <= 0 {
        Seq::empty()
    } else if is_near(fpu, robots, i, upto - 1) {
        neighbours(fpu, robots, i, upto - 1).push(robots[upto - 1].id)
    } else {
        neighbours(fpu, robots, i, upto - 1)
    }
}

/// The robot with its area of interest made anew from where the robots are.
pub open spec fn with_neighbours<F: Fn(Op, u64, u64) -> u64>(
    fpu: &F,
    robots: Seq<RobotView>,
    i: int,
) -> RobotView {
    RobotView { aoi: neighbours(fpu, robots, i, robots.len() as int), ..robots[i] }
}

/// What a projectile runs into.
#[derive(Debug, Clone, Copy, PartialEq, Eq, Structural)]
pub enum ImpactKind {
    /// It left the arena.
    Wall,
    Obstacle,
    /// It hit the robot with this id, and may have destroyed it.
    Robot { id: u32, destroyed: bool },
}

/// The end of a projectile: what it ran into, where, and with what power.
#[derive(Debug, Clone, Copy, PartialEq, Eq, Structural)]
pub struct Impact {
    pub kind: ImpactKind,
    pub position: Point,
    pub power: u64,
}

/// What becomes of a projectile at a point.
pub enum Fate {
    Flies,
    LeavesArena,
    HitsObstacle,
    /// It hits the robot at this place in the list.
    HitsRobot(int),
}

/// How far a projectile goes in one step, along each axis: its speed is in
/// grid units per cycle, and a cycle has `steps` steps.
pub open spec fn stride<F: Fn(Op, u64, u64) -> u64>(
    fpu: &F,
    projectile: Projectile,
    unit_size: u64,
    steps: u64,
) -> (u64, u64) {
    (
        answer(
            fpu,
            Op::Div,
            answer(
                fpu,
                Op::Mul,
                answer(
                    fpu,
                    Op::Mul,
                    of_degrees(fpu, Op::Cos, projectile.direction),
                    projectile.speed,
                ),
                unit_size,
            ),
            steps,
        ),
        answer(
            fpu,
            Op::Div,
            answer(
                fpu,
                Op::Mul,
                answer(
                    fpu,
                    Op::Mul,
                    of_degrees(fpu, Op::Sin, projectile.direction),
                    projectile.speed,
                ),
                unit_size,
            ),
            steps,
        ),
    )
}

/// The point is outside the arena.
pub open spec fn outside(arena: ArenaView, p: Point) -> bool {
    ||| ieee::spec_lt(p.x, ieee::ZERO)
    ||| ieee::spec_gt(p.x, arena.width)
    ||| ieee::spec_lt(p.y, ieee::ZERO)
    ||| ieee::spec_gt(p.y, arena.height)
}

/// A projectile at `at` strikes the robot: the robot did not fire it, is no
/// wreck, and its centre is less than half a grid unit away.
pub open spec fn strikes<F: Fn(Op, u64, u64) -> u64>(
    fpu: &F,
    robot: RobotView,
    source: u32,
    at: Point,
    unit_size: u64,
) -> bool {
    let dx = answer(fpu, Op::Sub, robot.position.x, at.x);
    let dy = answer(fpu, Op::Sub, robot.position.y, at.y);
    let radius = half_unit(fpu, unit_size);
    &&& robot.id != source
    &&& robot.status != RobotStatus::Destroyed
    &&& ieee::spec_lt(
        answer(fpu, Op::Add, answer(fpu, Op::Mul, dx, dx), answer(fpu, Op::Mul, dy, dy)),
        answer(fpu, Op::Mul, radius, radius),
    )
}

/// The first robot at or after `from` that a projectile at `at` strikes.
pub open spec fn first_struck<F: Fn(Op, u64, u64) -> u64>(
    fpu: &F,
    robots: Seq<RobotView>,
    source: u32,
    at: Point,
    unit_size: u64,
    from: int,
) -> Option<int>
    decreases robots.len() - from,
{
    if from < 0 || from >= robots.len() {
        None
    } else if strikes(fpu, robots[from], source, at, unit_size) {
        Some(from)
    } else {
        first_struck(fpu, robots, source, at, unit_size, from + 1)
    }
}

/// What becomes of a projectile of `source` at `at`: the border of the arena
/// comes first, then the obstacles, then the robots in their order.
pub open spec fn fate_at<F: Fn(Op, u64, u64) -> u64>(
    fpu: &F,
    arena: ArenaView,
    robots: Seq<RobotView>,
    source: u32,
    at: Point,
) -> Fate {
    if outside(arena, at) {
        Fate::LeavesArena
    } else if arena.collides(fpu, at) {
        Fate::HitsObstacle
    } else {
        match first_struck(fpu, robots, source, at, arena.unit_size, 0) {
            Some(j) => Fate::HitsRobot(j),
            None => Fate::Flies,
        }
    }
}

/// A projectile after `steps` more steps, or after the step on which it ran
/// into something, and what it ran into.
pub open spec fn flown<F: Fn(Op, u64, u64) -> u64>(
    fpu: &F,
    arena: ArenaView,
    robots: Seq<RobotView>,
    projectile: Projectile,
    step: (u64, u64),
    steps: nat,
) -> (Projectile, Fate)
    decreases steps,
{
    if steps == 0 {
        (projectile, Fate::Flies)
    } else {
        let moved = Projectile {
            position: Point {
                x: answer(fpu, Op::Add, projectile.position.x, step.0),
                y: answer(fpu, Op::Add, projectile.position.y, step.1),
            },
            ..projectile
        };
        match fate_at(fpu, arena, robots, moved.source_robot, moved.position) {
            Fate::Flies => flown(fpu, arena, robots, moved, step, (steps - 1) as nat),
            fate => (moved, fate),
        }
    }
}

/// A robot after a hit: the damage is the projectile's base damage times its
/// power; health that falls to 0.0 or below is 0.0, and the robot is
/// destroyed.
pub open spec fn hit<F: Fn(Op, u64, u64) -> u64>(
    fpu: &F,
    robot: RobotView,
    projectile: Projectile,
) -> RobotView {
    let health = answer(
        fpu,
        Op::Sub,
        robot.health,
        answer(fpu, Op::Mul, projectile.base_damage, projectile.power),
    );
    if ieee::spec_le(health, ieee::ZERO) {
        RobotView { health: ieee::ZERO, status: RobotStatus::Destroyed, ..robot }
    } else {
        RobotView { health, ..robot }
    }
}

/// The list without its `i`-th item, the last one in its place.
pub open spec fn swap_removed<T>(s: Seq<T>, i: int) -> Seq<T> {
    s.update(i, s.last()).drop_last()
}

/// The projectiles, the robots and the impacts of a cycle.
pub struct Flight {
    pub projectiles: Seq<Projectile>,
    pub robots: Seq<RobotView>,
    pub impacts: Seq<Impact>,
}

/// The impact of a projectile that met its fate.
pub open spec fn impact_of<F: Fn(Op, u64, u64) -> u64>(
    fpu: &F,
    robots: Seq<RobotView>,
    projectile: Projectile,
    fate: Fate,
) -> Impact {
    Impact {
        kind: match fate {
            Fate::HitsRobot(j) => ImpactKind::Robot {
                id: robots[j].id,
                destroyed: hit(fpu, robots[j], projectile).status == RobotStatus::Destroyed,
            },
            Fate::HitsObstacle => ImpactKind::Obstacle,
            _ => ImpactKind::Wall,
        },
        position: projectile.position,
        power: projectile.power,
    }
}

/// The cycle of the projectiles from the `i`-th on. Each flies from where it
/// is, in `steps` steps. One that runs into something is taken out of the
/// list, the last projectile taking its place, and leaves an impact; a robot
/// hit is damaged at once, so that a wreck stops no later projectile.
pub open spec fn flight<F: Fn(Op, u64, u64) -> u64>(
    fpu: &F,
    arena: ArenaView,
    state: Flight,
    i: int,
    steps: u32,
) -> Flight
    decreases state.projectiles.len() - i,
{
    if i < 0 || i >= state.projectiles.len() {
        state
    } else {
        let start = Projectile {
            prev_position: state.projectiles[i].position,
            ..state.projectiles[i]
        };
        let step = stride(fpu, start, arena.unit_size, ieee::integer_word(steps as nat));
        let (end, fate) = flown(fpu, arena, state.robots, start, step, steps as nat);
        match fate {
            Fate::Flies => flight(
                fpu,
                arena,
                Flight { projectiles: state.projectiles.update(i, end), ..state },
                i + 1,
                steps,
            ),
            _ => flight(
                fpu,
                arena,
                Flight {
                    projectiles: swap_removed(state.projectiles, i),
                    robots: match fate {
                        Fate::HitsRobot(j) => state.robots.update(
                            j,
                            hit(fpu, state.robots[j], end),
                        ),
                        _ => state.robots,
                    },
                    impacts: state.impacts.push(impact_of(fpu, state.robots, end, fate)),
                },
                i,
                steps,
            ),
        }
    }
}

/// Every projectile that leaves the list leaves an impact, and nothing else
/// does: the projectiles gone are as many as the impacts come.
pub proof fn lemma_every_removal_is_an_impact<F: Fn(Op, u64, u64) -> u64>(
    fpu: &F,
    arena: ArenaView,
    state: Flight,
    i: int,
    steps: u32,
)
    requires
        0 <= i <= state.projectiles.len(),
    ensures
        flight(fpu, arena, state, i, steps).projectiles.len() <= state.projectiles.len(),
        state.projectiles.len() - flight(fpu, arena, state, i, steps).projectiles.len() == flight(
            fpu,
            arena,
            state,
            i,
            steps,
        ).impacts.len() - state.impacts.len(),
    decreases state.projectiles.len() - i,
{
    if i < state.projectiles.len() {
        let start = Projectile {
            prev_position: state.projectiles[i].position,
            ..state.projectiles[i]
        };
        let step = stride(fpu, start, arena.unit_size, ieee::integer_word(steps as nat));
        let (end, fate) = flown(fpu, arena, state.robots, start, step, steps as nat);
        match fate {
            Fate::Flies => {
                lemma_every_removal_is_an_impact(
                    fpu,
                    arena,
                    Flight { projectiles: state.projectiles.update(i, end), ..state },
                    i + 1,
                    steps,
                );
            },
            _ => {
                lemma_every_removal_is_an_impact(
                    fpu,
                    arena,
                    Flight {
                        projectiles: swap_removed(state.projectiles, i),
                        robots: match fate {
                            Fate::HitsRobot(j) => state.robots.update(
                                j,
                                hit(fpu, state.robots[j], end),
                            ),
                            _ => state.robots,
                        },
                        impacts: state.impacts.push(impact_of(fpu, state.robots, end, fate)),
                    },
                    i,
                    steps,
                );
            },
        }
    }
}

impl Arena {
    /// An empty arena of the configured size: 20 by 20 grid units, 1.0 by 1.0
    /// coordinate units.
    pub open spec fn resting() -> ArenaView {
        ArenaView {
            width: config::ARENA_WIDTH,
            height: config::ARENA_HEIGHT,
            grid_width: config::ARENA_WIDTH_UNITS,
            grid_height: config::ARENA_HEIGHT_UNITS,
            unit_size: config::UNIT_SIZE,
            obstacles: Seq::empty(),
            projectiles: Seq::empty(),
        }
    }

    /// An empty arena of the configured size.
    pub fn new() -> (arena: Self)
        ensures
            arena@ == Self::resting(),
            arena@.wf(),
    {
        Arena {
            width: config::ARENA_WIDTH,
            height: config::ARENA_HEIGHT,
            grid_width: config::ARENA_WIDTH_UNITS,
            grid_height: config::ARENA_HEIGHT_UNITS,
            unit_size: config::UNIT_SIZE,
            obstacles: Vec::new(),
            projectiles: Vec::new(),
        }
    }

    /// Whether a point lies in the square of an obstacle.
    pub fn check_collision<F: Fn(Op, u64, u64) -> u64>(&self, point: Point, fpu: &F) -> (hit: bool)
        requires
            is_unit(fpu),
        ensures
            hit == self@.collides(fpu, point),
    {
        let half = ask(fpu, Op::Div, self.unit_size, ieee::TWO);
        let mut i: usize = 0;
        while i < self.obstacles.len()
            invariant
                is_unit(fpu),
                i <= self.obstacles.len(),
                half == half_unit(fpu, self.unit_size),
                forall|j: int| 0 <= j < i ==> !covers(fpu, #[trigger] self.obstacles@[j], half, point),
            decreases self.obstacles.len() - i,
        {
            let obstacle = self.obstacles[i];
            let min_x = ask(fpu, Op::Sub, obstacle.position.x, half);
            let max_x = ask(fpu, Op::Add, obstacle.position.x, half);
            let min_y = ask(fpu, Op::Sub, obstacle.position.y, half);
            let max_y = ask(fpu, Op::Add, obstacle.position.y, half);
            if ieee::ge(point.x, min_x) && ieee::le(point.x, max_x) && ieee::ge(point.y, min_y)
                && ieee::le(point.y, max_y) {
                assert(covers(
                    fpu,
                    self@.obstacles[i as int],
                    half_unit(fpu, self@.unit_size),
                    point,
                ));
                return true;
            }
            i += 1;
        }
        false
    }

    /// The centre of a grid cell in coordinate units.
    pub fn grid_to_world<F: Fn(Op, u64, u64) -> u64>(&self, grid_x: u32, grid_y: u32, fpu: &F) -> (p:
        Point)
        requires
            is_unit(fpu),
        ensures
            p == self@.cell_centre(
                fpu,
                ieee::integer_word(grid_x as nat),
                ieee::integer_word(grid_y as nat),
            ),
    {
        let gx = ieee::from_u32(grid_x);
        let gy = ieee::from_u32(grid_y);
        Point {
            x: ask(fpu, Op::Mul, ask(fpu, Op::Add, gx, config::HALF), self.unit_size),
            y: ask(fpu, Op::Mul, ask(fpu, Op::Add, gy, config::HALF), self.unit_size),
        }
    }

    /// The distance from a robot's centre at `start_point` to where it is
    /// when its edge first touches a wall or an obstacle, going in the
    /// direction of `angle_degrees`. It is never negative.
    pub fn distance_to_collision<F: Fn(Op, u64, u64) -> u64>(
        &self,
        start_point: Point,
        angle_degrees: u64,
        fpu: &F,
    ) -> (distance: u64)
        requires
            is_unit(fpu),
        ensures
            distance == self@.free_distance(fpu, start_point, angle_degrees),
            ieee::spec_ge(distance, ieee::ZERO),
    {
        let cos_a = ask_of_degrees(fpu, Op::Cos, angle_degrees);
        let sin_a = ask_of_degrees(fpu, Op::Sin, angle_degrees);
        let robot_radius = ask(fpu, Op::Div, self.unit_size, ieee::TWO);
        let ghost ray = ray_from(fpu, start_point, angle_degrees);

        // Walls: how far the centre goes until it meets one.
        let mut min_dist_wall_center = ieee::INFINITY;
        if ieee::gt(ieee::abs(cos_a), ieee::NANO) {
            min_dist_wall_center = Self::nearer(
                min_dist_wall_center,
                ieee::neg(start_point.x),
                cos_a,
                start_point.y,
                sin_a,
                self.height,
                fpu,
            );
            min_dist_wall_center = Self::nearer(
                min_dist_wall_center,
                ask(fpu, Op::Sub, self.width, start_point.x),
                cos_a,
                start_point.y,
                sin_a,
                self.height,
                fpu,
            );
        }
        if ieee::gt(ieee::abs(sin_a), ieee::NANO) {
            min_dist_wall_center = Self::nearer(
                min_dist_wall_center,
                ieee::neg(start_point.y),
                sin_a,
                start_point.x,
                cos_a,
                self.width,
                fpu,
            );
            min_dist_wall_center = Self::nearer(
                min_dist_wall_center,
                ask(fpu, Op::Sub, self.height, start_point.y),
                sin_a,
                start_point.x,
                cos_a,
                self.width,
                fpu,
            );
        }
        assert(min_dist_wall_center == wall_distance(fpu, ray, self.width, self.height));

        // The edge is a radius ahead of the centre.
        let mut min_dist_wall_edge = ieee::max(
            ask(fpu, Op::Sub, min_dist_wall_center, robot_radius),
            ieee::ZERO,
        );
        let ghost to_wall = min_dist_wall_edge;

        // Obstacles, each grown by the robot's radius.
        let inv_dx = if ieee::gt(ieee::abs(cos_a), ieee::NANO) {
            ask(fpu, Op::Div, ieee::ONE, cos_a)
        } else {
            ieee::INFINITY
        };
        let inv_dy = if ieee::gt(ieee::abs(sin_a), ieee::NANO) {
            ask(fpu, Op::Div, ieee::ONE, sin_a)
        } else {
            ieee::INFINITY
        };
        let mut i: usize = 0;
        while i < self.obstacles.len()
            invariant
                is_unit(fpu),
                i <= self.obstacles.len(),
                ray == ray_from(fpu, start_point, angle_degrees),
                cos_a == ray.cos,
                sin_a == ray.sin,
                robot_radius == half_unit(fpu, self.unit_size),
                inv_dx == inverse(fpu, ray.cos),
                inv_dy == inverse(fpu, ray.sin),
                ieee::spec_ge(min_dist_wall_edge, ieee::ZERO),
                to_wall == ieee::spec_max(
                    answer(
                        fpu,
                        Op::Sub,
                        wall_distance(fpu, ray, self.width, self.height),
                        robot_radius,
                    ),
                    ieee::ZERO,
                ),
                free_way(fpu, ray, self.obstacles@, robot_radius, i as int, min_dist_wall_edge)
                    == free_way(fpu, ray, self.obstacles@, robot_radius, 0, to_wall),
            decreases self.obstacles.len() - i,
        {
            let obs_pos = self.obstacles[i].position;
            let (x_in, x_out) = Self::crossing(obs_pos.x, robot_radius, start_point.x, inv_dx, fpu);
            let (y_in, y_out) = Self::crossing(obs_pos.y, robot_radius, start_point.y, inv_dy, fpu);
            let tmin = ieee::max(x_in, y_in);
            let tmax = ieee::min(x_out, y_out);
            if ieee::ge(tmax, ieee::ZERO) && ieee::le(tmin, tmax) {
                if ieee::gt(tmin, ieee::NANO) {
                    min_dist_wall_edge = ieee::min(min_dist_wall_edge, tmin);
                } else {
                    return ieee::ZERO;
                }
            }
            i += 1;
        }
        min_dist_wall_edge
    }

    /// The nearer of the wall found so far and one more wall.
    fn nearer<F: Fn(Op, u64, u64) -> u64>(
        best: u64,
        numerator: u64,
        along: u64,
        other_start: u64,
        other_along: u64,
        extent: u64,
        fpu: &F,
    ) -> (res: u64)
        requires
            is_unit(fpu),
        ensures
            res == nearer_wall(fpu, best, numerator, along, other_start, other_along, extent),
    {
        let dist = ask(fpu, Op::Div, numerator, along);
        if ieee::gt(dist, ieee::NANO) {
            let met = ask(fpu, Op::Add, other_start, ask(fpu, Op::Mul, dist, other_along));
            if ieee::ge(met, ieee::ZERO) && ieee::le(met, extent) {
                return ieee::min(best, dist);
            }
        }
        best
    }

    /// Where the ray enters and leaves the band of a grown obstacle on one
    /// axis.
    fn crossing<F: Fn(Op, u64, u64) -> u64>(
        centre: u64,
        reach: u64,
        start: u64,
        inv: u64,
        fpu: &F,
    ) -> (res: (u64, u64))
        requires
            is_unit(fpu),
        ensures
            res == band(fpu, centre, reach, start, inv),
    {
        let low = ask(fpu, Op::Sub, ask(fpu, Op::Sub, centre, reach), reach);
        let high = ask(fpu, Op::Add, ask(fpu, Op::Add, centre, reach), reach);
        let t1 = ask(fpu, Op::Mul, ask(fpu, Op::Sub, low, start), inv);
        let t2 = ask(fpu, Op::Mul, ask(fpu, Op::Sub, high, start), inv);
        (ieee::min(t1, t2), ieee::max(t1, t2))
    }

    /// Places obstacles: on one grid cell in a hundred, rounded down, each
    /// on a cell of its own, chosen at random among the cells still free.
    /// The obstacles that were there are removed first. Gives the cells
    /// chosen, as column and row.
    pub fn place_obstacles<F: Fn(Op, u64, u64) -> u64>(&mut self, fpu: &F) -> (cells: Vec<(u32, u32)>)
        requires
            is_unit(fpu),
            old(self).grid_width * old(self).grid_height <= u32::MAX,
        ensures
            final(self)@ == (ArenaView { obstacles: final(self)@.obstacles, ..old(self)@ }),
            cells@.len() == old(self).grid_width * old(self).grid_height
                * config::OBSTACLE_DENSITY_PERCENT / 100,
            final(self)@.obstacles.len() == cells@.len(),
            forall|k: int|
                0 <= k < cells@.len() ==> (#[trigger] cells@[k]).0 < old(self).grid_width
                    && cells@[k].1 < old(self).grid_height,
            forall|k: int, l: int| 0 <= k < l < cells@.len() ==> cells@[k] != cells@[l],
            forall|k: int|
                0 <= k < cells@.len() ==> (#[trigger] final(self)@.obstacles[k]).position
                    == old(self)@.cell_centre(
                    fpu,
                    ieee::integer_word(cells@[k].0 as nat),
                    ieee::integer_word(cells@[k].1 as nat),
                ),
    {
        let mut rng = random::thread_generator();
        let total_cells: u32 = self.grid_width * self.grid_height;
        let num_obstacles: u32 = ((total_cells as u64 * config::OBSTACLE_DENSITY_PERCENT as u64)
            / 100) as u32;
        self.obstacles.clear();

        // The cells still free, each by its number: row times width plus column.
        let mut free: Vec<u32> = Vec::new();
        let mut c: u32 = 0;
        while c < total_cells
            invariant
                c <= total_cells,
                free@.len() == c,
                forall|k: int| 0 <= k < c ==> free@[k] == k,
            decreases total_cells - c,
        {
            free.push(c);
            c += 1;
        }
        let mut cells: Vec<(u32, u32)> = Vec::new();
        let ghost mut numbers: Seq<u32> = Seq::empty();
        let mut placed: u32 = 0;
        while placed < num_obstacles
            invariant
                is_unit(fpu),
                self.grid_width == old(self).grid_width,
                self.grid_height == old(self).grid_height,
                self@ == (ArenaView { obstacles: self@.obstacles, ..old(self)@ }),
                total_cells == self.grid_width * self.grid_height,
                num_obstacles <= total_cells,
                placed <= num_obstacles,
                cells@.len() == placed,
                numbers.len() == placed,
                self.obstacles@.len() == placed,
                free@.len() == total_cells - placed,
                forall|k: int| 0 <= k < free@.len() ==> #[trigger] free@[k] < total_cells,
                forall|k: int, l: int| 0 <= k < l < free@.len() ==> free@[k] != free@[l],
                forall|k: int, l: int|
                    0 <= k < numbers.len() && 0 <= l < free@.len() ==> numbers[k] != free@[l],
                forall|k: int, l: int| 0 <= k < l < numbers.len() ==> numbers[k] != numbers[l],
                forall|k: int|
                    0 <= k < placed ==> (#[trigger] cells@[k]).0 < self.grid_width && cells@[k].1
                        < self.grid_height && numbers[k] == cells@[k].1 * self.grid_width
                        + cells@[k].0,
                forall|k: int|
                    0 <= k < placed ==> (#[trigger] self.obstacles@[k]).position
                        == old(self)@.cell_centre(
                        fpu,
                        ieee::integer_word(cells@[k].0 as nat),
                        ieee::integer_word(cells@[k].1 as nat),
                    ),
            decreases num_obstacles - placed,
        {
            let pick = random::pick_below(&mut rng, free.len() as u32);
            let number = free.swap_remove(pick as usize);
            let grid_x = number % self.grid_width;
            let grid_y = number / self.grid_width;
            proof {
                lemma_cell(number as int, self.grid_width as int, self.grid_height as int);
            }
            let position = Point {
                x: ask(
                    fpu,
                    Op::Mul,
                    ask(fpu, Op::Add, ieee::from_u32(grid_x), config::HALF),
                    self.unit_size,
                ),
                y: ask(
                    fpu,
                    Op::Mul,
                    ask(fpu, Op::Add, ieee::from_u32(grid_y), config::HALF),
                    self.unit_size,
                ),
            };
            self.obstacles.push(Obstacle { position });
            cells.push((grid_x, grid_y));
            proof {
                numbers = numbers.push(number);
            }
            placed += 1;
        }
        proof {
            assert forall|k: int, l: int| 0 <= k < l < cells@.len() implies cells@[k]
                != cells@[l] by {
                assert(numbers[k] != numbers[l]);
            }
        }
        cells
    }

    /// Makes every robot's area of interest anew: the ids of the other
    /// robots, wrecks left out, that are no farther away than the scan
    /// distance, in the order of the list.
    pub fn update_all_robots_aoi<F: Fn(Op, u64, u64) -> u64>(
        &mut self,
        robots: &mut Vec<Robot>,
        fpu: &F,
    )
        requires
            is_unit(fpu),
        ensures
            final(self)@ == old(self)@,
            final(robots)@.len() == old(robots)@.len(),
            forall|i: int|
                0 <= i < old(robots)@.len() ==> (#[trigger] final(robots)@[i])@ == with_neighbours(
                    fpu,
                    robot_views(old(robots)@),
                    i,
                ),
            all_wf(old(robots)@) ==> all_wf(final(robots)@),
    {
        let ghost before = robot_views(robots@);
        let mut i: usize = 0;
        while i < robots.len()
            invariant
                is_unit(fpu),
                i <= robots.len(),
                robots@.len() == old(robots)@.len(),
                before == robot_views(old(robots)@),
                forall|k: int| 0 <= k < i ==> (#[trigger] robots@[k])@ == with_neighbours(fpu, before, k),
                forall|k: int| i <= k < robots@.len() ==> (#[trigger] robots@[k])@ == before[k],
                all_wf(old(robots)@) ==> all_wf(robots@),
            decreases robots.len() - i,
        {
            let robot_position = robots[i].position;
            let mut aoi: Vec<u32> = Vec::new();
            let mut j: usize = 0;
            while j < robots.len()
                invariant
                    is_unit(fpu),
                    i < robots.len(),
                    j <= robots.len(),
                    robots@.len() == before.len(),
                    robot_position == before[i as int].position,
                    forall|k: int|
                        0 <= k < robots@.len() ==> (#[trigger] robots@[k])@.position
                            == before[k].position && robots@[k]@.status == before[k].status
                            && robots@[k]@.id == before[k].id,
                    aoi@ == neighbours(fpu, before, i as int, j as int),
                decreases robots.len() - j,
            {
                if i != j && robots[j].status != RobotStatus::Destroyed {
                    let distance = robot_position.distance(&robots[j].position, fpu);
                    if ieee::le(distance, config::SCAN_DISTANCE) {
                        aoi.push(robots[j].id);
                    }
                }
                j += 1;
            }
            let ghost views = robot_views(robots@);
            robots[i].aoi = aoi;
            i += 1;
        }
    }

    /// One cycle of the projectiles. Each flies on; one that leaves the
    /// arena, or hits an obstacle or a robot, is removed and leaves an
    /// impact. A robot hit is damaged, and destroyed where its health falls
    /// to nothing. As many projectiles are gone afterwards as impacts are
    /// given back.
    pub fn update_projectiles<F: Fn(Op, u64, u64) -> u64>(
        &mut self,
        robots: &mut Vec<Robot>,
        fpu: &F,
    ) -> (impacts: Vec<Impact>)
        requires
            is_unit(fpu),
        ensures
            final(self)@ == (ArenaView { projectiles: final(self)@.projectiles, ..old(self)@ }),
            (Flight {
                projectiles: final(self)@.projectiles,
                robots: robot_views(final(robots)@),
                impacts: impacts@,
            }) == flight(
                fpu,
                old(self)@,
                Flight {
                    projectiles: old(self)@.projectiles,
                    robots: robot_views(old(robots)@),
                    impacts: Seq::empty(),
                },
                0,
                config::PROJECTILE_SUB_STEPS,
            ),
            old(self)@.projectiles.len() - final(self)@.projectiles.len() == impacts@.len(),
            final(robots)@.len() == old(robots)@.len(),
            all_wf(old(robots)@) ==> all_wf(final(robots)@),
    {
        let mut impacts: Vec<Impact> = Vec::new();
        let sub_steps = config::PROJECTILE_SUB_STEPS;
        let steps_word = ieee::from_u32(sub_steps);
        let ghost arena = old(self)@;
        let ghost total = flight(
            fpu,
            arena,
            Flight {
                projectiles: old(self)@.projectiles,
                robots: robot_views(old(robots)@),
                impacts: Seq::empty(),
            },
            0,
            sub_steps,
        );
        proof {
            lemma_every_removal_is_an_impact(
                fpu,
                arena,
                Flight {
                    projectiles: old(self)@.projectiles,
                    robots: robot_views(old(robots)@),
                    impacts: Seq::empty(),
                },
                0,
                sub_steps,
            );
        }
        let mut i: usize = 0;
        while i < self.projectiles.len()
            invariant
                is_unit(fpu),
                i <= self.projectiles.len(),
                sub_steps == config::PROJECTILE_SUB_STEPS,
                steps_word == ieee::integer_word(sub_steps as nat),
                arena == old(self)@,
                self@ == (ArenaView { projectiles: self@.projectiles, ..arena }),
                robots@.len() == old(robots)@.len(),
                all_wf(old(robots)@) ==> all_wf(robots@),
                flight(
                    fpu,
                    arena,
                    Flight {
                        projectiles: self@.projectiles,
                        robots: robot_views(robots@),
                        impacts: impacts@,
                    },
                    i as int,
                    sub_steps,
                ) == total,
            decreases self.projectiles.len() - i,
        {
            let ghost state = Flight {
                projectiles: self@.projectiles,
                robots: robot_views(robots@),
                impacts: impacts@,
            };
            let projectile = self.projectiles[i];
            let cos = ask_of_degrees(fpu, Op::Cos, projectile.direction);
            let sin = ask_of_degrees(fpu, Op::Sin, projectile.direction);
            let total_dx = ask(fpu, Op::Mul, ask(fpu, Op::Mul, cos, projectile.speed), self.unit_size);
            let total_dy = ask(fpu, Op::Mul, ask(fpu, Op::Mul, sin, projectile.speed), self.unit_size);
            let step_dx = ask(fpu, Op::Div, total_dx, steps_word);
            let step_dy = ask(fpu, Op::Div, total_dy, steps_word);
            let mut current = Projectile { prev_position: projectile.position, ..projectile };
            let ghost start = current;
            let ghost step = stride(fpu, start, arena.unit_size, steps_word);
            assert(step == (step_dx, step_dy));

            // 0: flies, 1: leaves the arena, 2: hits an obstacle, 3: hits a robot
            let mut met: u8 = 0;
            let mut struck: usize = 0;
            let mut done: u32 = 0;
            while done < sub_steps && met == 0
                invariant
                    is_unit(fpu),
                    done <= sub_steps,
                    met <= 3,
                    arena == old(self)@,
                    self@ == (ArenaView { projectiles: self@.projectiles, ..arena }),
                    state.robots == robot_views(robots@),
                    step == (step_dx, step_dy),
                    current.source_robot == start.source_robot,
                    met == 3 ==> struck < robots@.len() && state.robots[struck as int].status
                        != RobotStatus::Destroyed,
                    flown(fpu, arena, state.robots, start, step, sub_steps as nat) == (
                    if met == 0 {
                        flown(fpu, arena, state.robots, current, step, (sub_steps - done) as nat)
                    } else {
                        (
                            current,
                            if met == 1 {
                                Fate::LeavesArena
                            } else if met == 2 {
                                Fate::HitsObstacle
                            } else {
                                Fate::HitsRobot(struck as int)
                            },
                        )
                    }),
                decreases sub_steps - done + (if met == 0 { 1int } else { 0int }),
            {
                current.position.x = ask(fpu, Op::Add, current.position.x, step_dx);
                current.position.y = ask(fpu, Op::Add, current.position.y, step_dy);
                let current_pos = current.position;
                if ieee::lt(current_pos.x, ieee::ZERO) || ieee::gt(current_pos.x, self.width)
                    || ieee::lt(current_pos.y, ieee::ZERO) || ieee::gt(current_pos.y, self.height) {
                    met = 1;
                } else if self.check_collision(current_pos, fpu) {
                    met = 2;
                } else {
                    let radius = ask(fpu, Op::Div, self.unit_size, ieee::TWO);
                    let collision_radius_sq = ask(fpu, Op::Mul, radius, radius);
                    let mut j: usize = 0;
                    while j < robots.len() && met == 0
                        invariant
                            is_unit(fpu),
                            j <= robots.len(),
                            met == 0 || met == 3,
                            met == 3 ==> struck < robots@.len() && state.robots[struck as int].status
                                != RobotStatus::Destroyed,
                            state.robots == robot_views(robots@),
                            radius == half_unit(fpu, arena.unit_size),
                            collision_radius_sq == answer(fpu, Op::Mul, radius, radius),
                            first_struck(
                                fpu,
                                state.robots,
                                current.source_robot,
                                current_pos,
                                arena.unit_size,
                                0,
                            ) == (if met == 3 {
                                Some(struck as int)
                            } else {
                                first_struck(
                                    fpu,
                                    state.robots,
                                    current.source_robot,
                                    current_pos,
                                    arena.unit_size,
                                    j as int,
                                )
                            }),
                        decreases robots.len() - j + (if met == 0 { 1int } else { 0int }),
                    {
                        assert(state.robots[j as int] == robots@[j as int]@);
                        let robot = &robots[j];
                        if robot.id != current.source_robot && robot.status
                            != RobotStatus::Destroyed {
                            let dx = ask(fpu, Op::Sub, robot.position.x, current_pos.x);
                            let dy = ask(fpu, Op::Sub, robot.position.y, current_pos.y);
                            let dist_sq = ask(
                                fpu,
                                Op::Add,
                                ask(fpu, Op::Mul, dx, dx),
                                ask(fpu, Op::Mul, dy, dy),
                            );
                            if ieee::lt(dist_sq, collision_radius_sq) {
                                met = 3;
                                struck = j;
                            }
                        }
                        if met == 0 {
                            j += 1;
                        }
                    }
                }
                done += 1;
            }
            if met == 0 {
                self.projectiles.set(i, current);
                i += 1;
            } else {
                let ghost fate = if met == 1 {
                    Fate::LeavesArena
                } else if met == 2 {
                    Fate::HitsObstacle
                } else {
                    Fate::HitsRobot(struck as int)
                };
                let kind = if met == 1 {
                    ImpactKind::Wall
                } else if met == 2 {
                    ImpactKind::Obstacle
                } else {
                    assert(state.robots[struck as int] == robots@[struck as int]@);
                    let damage = ask(fpu, Op::Mul, current.base_damage, current.power);
                    let health = ask(fpu, Op::Sub, robots[struck].health, damage);
                    let destroyed = ieee::le(health, ieee::ZERO);
                    if destroyed {
                        robots[struck].health = ieee::ZERO;
                        robots[struck].status = RobotStatus::Destroyed;
                    } else {
                        robots[struck].health = health;
                    }
                    assert(robot_views(robots@) =~= state.robots.update(
                        struck as int,
                        hit(fpu, state.robots[struck as int], current),
                    ));
                    ImpactKind::Robot { id: robots[struck].id, destroyed }
                };
                impacts.push(Impact { kind, position: current.position, power: current.power });
                let _ = self.projectiles.swap_remove(i);
                assert(impacts@ == state.impacts.push(impact_of(fpu, state.robots, current, fate)));
            }
        }
        impacts
    }

    /// Adds a projectile to those in flight.
    pub fn spawn_projectile(&mut self, projectile: Projectile)
        ensures
            final(self)@ == (ArenaView {
                projectiles: old(self)@.projectiles.push(projectile),
                ..old(self)@
            }),
    {
        self.projectiles.push(projectile);
    }

    /// Leaves an obstacle where a robot stands: its wreck.
    pub fn add_obstacle_at_robot(&mut self, robot: &Robot)
        ensures
            final(self)@ == (ArenaView {
                obstacles: old(self)@.obstacles.push(Obstacle { position: robot@.position }),
                ..old(self)@
            }),
    {
        self.obstacles.push(Obstacle { position: robot.position });
    }
}

impl Default for Arena {
    fn default() -> (arena: Self)
        ensures
            arena@.obstacles == Seq::<Obstacle>::empty(),
            arena@.projectiles == Seq::<Projectile>::empty(),
            arena@.unit_size == config::UNIT_SIZE,
    {
        Self::new()
    }
}

} // verus!
