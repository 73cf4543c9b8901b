//! The game: an arena, the robots in it, and the clock that drives them.
//!
//! A game goes on cycle by cycle. In each cycle every robot's body is updated
//! first, then every robot's machine runs for one cycle, then the commands
//! that the machines queued are carried out, then the projectiles fly. What
//! a robot does to another shows in the next cycle.
use crate::arena::{
    all_wf,
    flight,
    robot_views,
    with_neighbours,
    Arena,
    ArenaView,
    Flight,
    Impact,
    Obstacle,
};
use crate::config;
use crate::fpu::{answer, ask, is_reader, is_unit, Op};
use crate::ieee;
use crate::random;
use crate::robot::{after_cycle, cycled, refreshed, Robot, RobotInfo, RobotStatus, RobotView};
use crate::types::{ArenaCommand, Point, Projectile};
use crate::vm::parser::{
    assembled,
    builtin_of,
    parse_assembly,
    Constant,
    ParseError,
    ParseFault,
    ProgramView,
};
use crate::vm::state::{VMState, VMView};
use vstd::prelude::*;

verus! {

/// The largest number of robots in a game.
pub const MAX_ROBOTS: usize = 4;

/// The name and the text of a robot's program.
#[derive(Debug, Clone)]
pub struct RobotProgram {
    pub name: String,
    pub source: String,
}

/// Why a game cannot begin.
#[derive(Debug, Clone)]
pub enum GameError {
    /// More programs than robots can play.
    TooManyRobots,
    /// The program of the robot with this id is wrong.
    Program { robot: u32, error: ParseError },
}

/// What a cycle shows to whoever draws the game or plays its sounds.
#[derive(Debug, Clone, Copy, PartialEq, Eq, Structural)]
pub enum GameEvent {
    /// A robot fired, standing at `position`, its turret looking in `direction`.
    MuzzleFlash { position: Point, direction: u64 },
    Impact(Impact),
}

/// The state and the rules of the game.
#[derive(Debug)]
pub struct Game {
    pub arena: Arena,
    /// The robots still in the game, in the order in which they take their
    /// turn.
    pub robots: Vec<Robot>,
    pub current_turn: u32,
    pub current_cycle: u32,
    pub max_turns: u32,
    /// Whether the game is decided.
    pub game_over: bool,
    /// The id of the robot that has won, if one has.
    pub winner: Option<u32>,
}

/// What a game holds, as plain mathematics.
pub struct GameView {
    pub arena: ArenaView,
    pub robots: Seq<RobotView>,
    pub current_turn: u32,
    pub current_cycle: u32,
    pub max_turns: u32,
    pub game_over: bool,
    pub winner: Option<u32>,
}

impl View for Game {
    type V = GameView;

    open spec fn view(&self) -> GameView {
        GameView {
            arena: self.arena@,
            robots: robot_views(self.robots@),
            current_turn: self.current_turn,
            current_cycle: self.current_cycle,
            max_turns: self.max_turns,
            game_over: self.game_over,
            winner: self.winner,
        }
    }
}

/// Where the robots start: two grid units from the corners, in the order
/// top left, top right, bottom right, bottom left.
pub open spec fn start_position(i: int) -> Point {
    if i == 0 {
        Point { x: config::START_NEAR, y: config::START_NEAR }
    } else if i == 1 {
        Point { x: config::START_FAR, y: config::START_NEAR }
    } else if i == 2 {
        Point { x: config::START_FAR, y: config::START_FAR }
    } else {
        Point { x: config::START_NEAR, y: config::START_FAR }
    }
}

/// What one robot can know of each of the robots.
pub open spec fn infos_of(robots: Seq<RobotView>) -> Seq<RobotInfo> {
    Seq::new(
        robots.len(),
        |i: int| RobotInfo { id: robots[i].id, position: robots[i].position, status: robots[i].status },
    )
}

/// A robot that remembers where it is and where it looks.
pub open spec fn remembered(robot: RobotView) -> RobotView {
    RobotView {
        prev_position: robot.position,
        prev_drive_direction: robot.drive.direction,
        prev_turret_direction: robot.turret.direction,
        ..robot
    }
}

/// A robot after its machine's part of a cycle, and the commands it queues:
/// its registers are refreshed, with `random` as this cycle's random number,
/// and unless it is a wreck its machine runs for one cycle.
#[verifier::opaque]
pub open spec fn machine_turn<F: Fn(Op, u64, u64) -> u64>(
    fpu: &F,
    robot: RobotView,
    others: Seq<RobotInfo>,
    arena: ArenaView,
    random: u64,
) -> (RobotView, Seq<ArenaCommand>) {
    let ready = robot.with_vm(refreshed(fpu, robot, arena, random));
    if ready.status == RobotStatus::Destroyed {
        (ready, Seq::empty())
    } else {
        after_cycle(fpu, ready, others, arena)
    }
}

/// The commands that the first `upto` robots queue in their machines' part
/// of a cycle, in their order.
pub open spec fn queued<F: Fn(Op, u64, u64) -> u64>(
    fpu: &F,
    robots: Seq<RobotView>,
    arena: ArenaView,
    randoms: Seq<u64>,
    upto: int,
) -> Seq<ArenaCommand>
    decreases upto,
{
    if upto <= 0 {
        Seq::empty()
    } else {
        queued(fpu, robots, arena, randoms, upto - 1) + machine_turn(
            fpu,
            robots[upto - 1],
            infos_of(robots),
            arena,
            randoms[upto - 1],
        ).1
    }
}

/// The projectiles that the first `upto` commands spawn, in their order.
pub open spec fn spawned(commands: Seq<ArenaCommand>, upto: int) -> Seq<Projectile>
    decreases upto,
{
    if upto <= 0 {
        Seq::empty()
    } else {
        match commands[upto - 1] {
            ArenaCommand::SpawnProjectile(p) => spawned(commands, upto - 1).push(p),
            _ => spawned(commands, upto - 1),
        }
    }
}

/// The muzzle flashes that the first `upto` commands ask for, in their order.
pub open spec fn flashes(commands: Seq<ArenaCommand>, upto: int) -> Seq<GameEvent>
    decreases upto,
{
    if upto <= 0 {
        Seq::empty()
    } else {
        match commands[upto - 1] {
            ArenaCommand::SpawnMuzzleFlash { position, direction } => flashes(
                commands,
                upto - 1,
            ).push(GameEvent::MuzzleFlash { position, direction }),
            _ => flashes(commands, upto - 1),
        }
    }
}

/// The impacts as events.
pub open spec fn impact_events(impacts: Seq<Impact>) -> Seq<GameEvent> {
    Seq::new(impacts.len(), |i: int| GameEvent::Impact(impacts[i]))
}

/// Those of the first `upto` robots that are no wrecks, in their order.
pub open spec fn survivors(robots: Seq<RobotView>, upto: int) -> Seq<RobotView>
    decreases upto,
{
    if upto <= 0 {
        Seq::empty()
    } else if robots[upto - 1].status == RobotStatus::Destroyed {
        survivors(robots, upto - 1)
    } else {
        survivors(robots, upto - 1).push(robots[upto - 1])
    }
}

/// The obstacles that the wrecks among the first `upto` robots leave, in
/// their order.
pub open spec fn wrecks(robots: Seq<RobotView>, upto: int) -> Seq<Obstacle>
    decreases upto,
{
    if upto <= 0 {
        Seq::empty()
    } else if robots[upto - 1].status == RobotStatus::Destroyed {
        wrecks(robots, upto - 1).push(Obstacle { position: robots[upto - 1].position })
    } else {
        wrecks(robots, upto - 1)
    }
}

/// The clock after one more cycle: the turn, and the cycle within it.
pub open spec fn ticked(turn: u32, cycle: u32) -> (u32, u32) {
    if cycle + 1 >= config::CYCLES_PER_TURN {
        (
            if turn < u32::MAX {
                (turn + 1) as u32
            } else {
                turn
            },
            0,
        )
    } else {
        (turn, (cycle + 1) as u32)
    }
}

/// A robot whose machine knows the time.
pub open spec fn timed(robot: RobotView, turn: u32, cycle: u32) -> RobotView {
    robot.with_vm(VMView { turn, cycle, ..robot.vm })
}

/// The game after one cycle, with `randoms` as the random numbers that the
/// robots draw, and what the cycle shows.
///
/// In order: every robot remembers where it is; every robot's body is
/// updated; the areas of interest are made anew; every robot's machine takes
/// its turn, seeing the others as they were when the first machine began; the
/// projectiles fired join those in flight; the projectiles fly; the wrecks
/// become obstacles and leave the game; with one robot left the game is won,
/// with none it is drawn; the clock is moved on, and the robots are told the
/// time.
pub open spec fn after_tick<F: Fn(Op, u64, u64) -> u64>(
    fpu: &F,
    game: GameView,
    randoms: Seq<u64>,
) -> (GameView, Seq<GameEvent>) {
    let n = game.robots.len();
    let bodies = Seq::new(n, |i: int| cycled(fpu, remembered(game.robots[i]), game.arena));
    let aware = Seq::new(n, |i: int| with_neighbours(fpu, bodies, i));
    let run = Seq::new(
        n,
        |i: int| machine_turn(fpu, aware[i], infos_of(aware), game.arena, randoms[i]).0,
    );
    let commands = queued(fpu, aware, game.arena, randoms, n as int);
    let armed = ArenaView {
        projectiles: game.arena.projectiles + spawned(commands, commands.len() as int),
        ..game.arena
    };
    let flown = flight(
        fpu,
        armed,
        Flight { projectiles: armed.projectiles, robots: run, impacts: Seq::empty() },
        0,
        config::PROJECTILE_SUB_STEPS,
    );
    let left = survivors(flown.robots, flown.robots.len() as int);
    let clock = ticked(game.current_turn, game.current_cycle);
    (
        GameView {
            arena: ArenaView {
                projectiles: flown.projectiles,
                obstacles: armed.obstacles + wrecks(flown.robots, flown.robots.len() as int),
                ..armed
            },
            robots: Seq::new(left.len(), |i: int| timed(left[i], clock.0, clock.1)),
            current_turn: clock.0,
            current_cycle: clock.1,
            max_turns: game.max_turns,
            game_over: game.game_over || left.len() <= 1,
            winner: if left.len() == 1 {
                Some(left[0].id)
            } else if left.len() == 0 {
                None
            } else {
                game.winner
            },
        },
        flashes(commands, commands.len() as int) + impact_events(flown.impacts),
    )
}

/// The robot of a program, as it enters the game: the `i`-th robot has the
/// id `i + 1`, stands at its start position and looks at the centre of the
/// arena; it is a new robot but for its program.
pub open spec fn enters<F: Fn(Op, u64, u64) -> u64>(
    fpu: &F,
    robot: RobotView,
    i: int,
    name: Seq<char>,
    program: ProgramView,
    arena: ArenaView,
) -> bool {
    let centre = Point {
        x: answer(fpu, Op::Div, arena.width, ieee::TWO),
        y: answer(fpu, Op::Div, arena.height, ieee::TWO),
    };
    robot == (RobotView {
        program: program.instructions,
        ..Robot::fresh(fpu, (i + 1) as u32, name, start_position(i), centre)
    })
}

/// The `i`-th robot has entered the game with the program that its text
/// assembles to.
pub open spec fn entered<F: Fn(Op, u64, u64) -> u64, N: Fn(&Vec<char>) -> Option<u64>>(
    fpu: &F,
    reader: &N,
    robot: RobotView,
    i: int,
    program: RobotProgram,
    arena: ArenaView,
) -> bool {
    match assembled(program.source@, arena_constants(arena), fpu, reader) {
        Ok(assembled) => enters(fpu, robot, i, program.name@, assembled, arena),
        Err(_) => false,
    }
}

/// The constants that every program can use: the width and the height of
/// the arena in grid units.
pub open spec fn arena_constants(arena: ArenaView) -> Seq<(Seq<char>, u64)> {
    seq![
        ("ARENA_WIDTH"@, ieee::integer_word(arena.grid_width as nat)),
        ("ARENA_HEIGHT"@, ieee::integer_word(arena.grid_height as nat)),
    ]
}

impl Game {
    /// Every robot's machine is in order.
    pub open spec fn wf(&self) -> bool {
        all_wf(self.robots@)
    }

    /// A new game for the robots of the given programs, four at most, in an
    /// arena without obstacles, at cycle 0 of turn 1. The first program that
    /// does not assemble is an error.
    pub fn new<F: Fn(Op, u64, u64) -> u64, N: Fn(&Vec<char>) -> Option<u64>>(
        programs: &Vec<RobotProgram>,
        max_turns: u32,
        fpu: &F,
        reader: &N,
    ) -> (res: Result<Self, GameError>)
        requires
            is_unit(fpu),
            is_reader(reader),
        ensures
            programs@.len() > MAX_ROBOTS ==> res matches Err(GameError::TooManyRobots),
            programs@.len() <= MAX_ROBOTS ==> match res {
                Ok(game) => {
                    &&& game.wf()
                    &&& game@.arena == Arena::resting()
                    &&& game@.current_turn == 1
                    &&& game@.current_cycle == 0
                    &&& game@.max_turns == max_turns
                    &&& !game@.game_over
                    &&& game@.winner == None::<u32>
                    &&& game@.robots.len() == programs@.len()
                    &&& forall|i: int|
                        0 <= i < programs@.len() ==> entered(
                            fpu,
                            reader,
                            #[trigger] game@.robots[i],
                            i,
                            programs@[i],
                            Arena::resting(),
                        )
                },
                Err(GameError::Program { robot, error }) => {
                    &&& 1 <= robot <= programs@.len()
                    &&& assembled(
                        programs@[robot - 1].source@,
                        arena_constants(Arena::resting()),
                        fpu,
                        reader,
                    ) == Err::<ProgramView, ParseFault>(error@)
                    &&& forall|i: int|
                        0 <= i < robot - 1 ==> (#[trigger] assembled(
                            programs@[i].source@,
                            arena_constants(Arena::resting()),
                            fpu,
                            reader,
                        )) is Ok
                },
                Err(GameError::TooManyRobots) => false,
            },
    {
        let arena = Arena::new();
        if programs.len() > MAX_ROBOTS {
            return Err(GameError::TooManyRobots);
        }
        let mut predefined_constants: Vec<Constant> = Vec::new();
        predefined_constants.push(
            Constant {
                name: String::from_str("ARENA_WIDTH"),
                value: ieee::from_u32(arena.grid_width),
            },
        );
        predefined_constants.push(
            Constant {
                name: String::from_str("ARENA_HEIGHT"),
                value: ieee::from_u32(arena.grid_height),
            },
        );
        assert(builtin_of(Some(&predefined_constants)) =~= arena_constants(Arena::resting()));
        let centre = Point {
            x: ask(fpu, Op::Div, arena.width, ieee::TWO),
            y: ask(fpu, Op::Div, arena.height, ieee::TWO),
        };
        let mut robots: Vec<Robot> = Vec::new();
        let mut i: usize = 0;
        while i < programs.len()
            invariant
                is_unit(fpu),
                is_reader(reader),
                i <= programs.len() <= MAX_ROBOTS,
                robots@.len() == i,
                arena@ == Arena::resting(),
                all_wf(robots@),
                builtin_of(Some(&predefined_constants)) == arena_constants(Arena::resting()),
                centre == (Point {
                    x: answer(fpu, Op::Div, arena@.width, ieee::TWO),
                    y: answer(fpu, Op::Div, arena@.height, ieee::TWO),
                }),
                forall|k: int|
                    0 <= k < i ==> entered(
                        fpu,
                        reader,
                        #[trigger] robots@[k]@,
                        k,
                        programs@[k],
                        Arena::resting(),
                    ),
            decreases programs.len() - i,
        {
            let robot_id = (i + 1) as u32;
            let position = Self::start(i);
            let parsed = parse_assembly(
                programs[i].source.as_str(),
                Some(&predefined_constants),
                fpu,
                reader,
            );
            match parsed {
                Ok(parsed_program) => {
                    let mut robot = Robot::new(
                        robot_id,
                        programs[i].name.clone(),
                        position,
                        centre,
                        fpu,
                    );
                    let ghost program = parsed_program@;
                    robot.load_program(parsed_program);
                    let ghost before = robots@;
                    robots.push(robot);
                    proof {
                        assert(entered(
                            fpu,
                            reader,
                            robots@[i as int]@,
                            i as int,
                            programs@[i as int],
                            Arena::resting(),
                        ));
                        assert forall|k: int| 0 <= k < i + 1 implies entered(
                            fpu,
                            reader,
                            #[trigger] robots@[k]@,
                            k,
                            programs@[k],
                            Arena::resting(),
                        ) by {
                            if k < i {
                                assert(robots@[k] == before[k]);
                            }
                        }
                    }
                },
                Err(e) => {
                    proof {
                        assert forall|k: int| 0 <= k < robot_id - 1 implies (#[trigger] assembled(
                            programs@[k].source@,
                            arena_constants(Arena::resting()),
                            fpu,
                            reader,
                        )) is Ok by {
                            assert(entered(
                                fpu,
                                reader,
                                robots@[k]@,
                                k,
                                programs@[k],
                                Arena::resting(),
                            ));
                        }
                    }
                    return Err(GameError::Program { robot: robot_id, error: e });
                },
            }
            i += 1;
        }
        let game = Game {
            arena,
            robots,
            current_turn: 1,
            current_cycle: 0,
            max_turns,
            game_over: false,
            winner: None,
        };
        assert forall|k: int| 0 <= k < programs@.len() implies entered(
            fpu,
            reader,
            #[trigger] game@.robots[k],
            k,
            programs@[k],
            Arena::resting(),
        ) by {
            assert(game@.robots[k] == game.robots@[k]@);
        }
        Ok(game)
    }

    /// Where the robot at a place of the list starts.
    fn start(i: usize) -> (p: Point)
        ensures
            p == start_position(i as int),
    {
        if i == 0 {
            Point { x: config::START_NEAR, y: config::START_NEAR }
        } else if i == 1 {
            Point { x: config::START_FAR, y: config::START_NEAR }
        } else if i == 2 {
            Point { x: config::START_FAR, y: config::START_FAR }
        } else {
            Point { x: config::START_NEAR, y: config::START_FAR }
        }
    }

    /// Whether the game is decided.
    pub fn is_over(&self) -> (over: bool)
        ensures
            over == self@.game_over,
    {
        self.game_over
    }

    /// The id of the robot that has won, if one has.
    pub fn winner(&self) -> (winner: Option<u32>)
        ensures
            winner == self@.winner,
    {
        self.winner
    }

    /// Draws a random number, 0.0 or more and less than 1.0, for each robot,
    /// from the robot's own source, in the order of the list.
    pub fn draw_randoms(&mut self) -> (randoms: Vec<u64>)
        ensures
            final(self)@ == old(self)@,
            old(self).wf() ==> final(self).wf(),
            randoms@.len() == old(self)@.robots.len(),
            forall|i: int|
                0 <= i < randoms@.len() ==> ieee::spec_le(ieee::ZERO, #[trigger] randoms@[i])
                    && ieee::spec_lt(randoms@[i], ieee::ONE),
    {
        let mut randoms: Vec<u64> = Vec::new();
        let mut i: usize = 0;
        while i < self.robots.len()
            invariant
                i <= self.robots.len(),
                randoms@.len() == i,
                self.arena == old(self).arena,
                self.current_turn == old(self).current_turn,
                self.current_cycle == old(self).current_cycle,
                self.max_turns == old(self).max_turns,
                self.game_over == old(self).game_over,
                self.winner == old(self).winner,
                robot_views(self.robots@) =~= robot_views(old(self).robots@),
                all_wf(old(self).robots@) ==> all_wf(self.robots@),
                forall|k: int|
                    0 <= k < randoms@.len() ==> ieee::spec_le(ieee::ZERO, #[trigger] randoms@[k])
                        && ieee::spec_lt(randoms@[k], ieee::ONE),
            decreases self.robots.len() - i,
        {
            let ghost before = self.robots@;
            let raw = random::next_word(&mut self.robots[i].rng);
            randoms.push(ieee::unit_interval(raw));
            proof {
                assert(robot_views(self.robots@) =~= robot_views(before));
            }
            i += 1;
        }
        randoms
    }

    /// One cycle of the game. Gives what the cycle shows.
    pub fn update_simulation<F: Fn(Op, u64, u64) -> u64>(&mut self, fpu: &F) -> (events: Vec<
        GameEvent,
    >)
        requires
            old(self).wf(),
            old(self)@.arena.wf(),
            is_unit(fpu),
        ensures
            final(self).wf(),
            exists|randoms: Seq<u64>|
                {
                    &&& randoms.len() == old(self)@.robots.len()
                    &&& forall|i: int|
                        0 <= i < randoms.len() ==> ieee::spec_le(ieee::ZERO, #[trigger] randoms[i])
                            && ieee::spec_lt(randoms[i], ieee::ONE)
                    &&& (final(self)@, events@) == after_tick(fpu, old(self)@, randoms)
                },
    {
        let randoms = self.draw_randoms();
        self.update_simulation_with(&randoms, fpu)
    }

    /// One cycle of the game, with the random numbers that the robots draw
    /// given, one for each robot. Gives what the cycle shows.
    #[verifier::rlimit(60)]
    pub fn update_simulation_with<F: Fn(Op, u64, u64) -> u64>(
        &mut self,
        randoms: &Vec<u64>,
        fpu: &F,
    ) -> (events: Vec<GameEvent>)
        requires
            old(self).wf(),
            old(self)@.arena.wf(),
            randoms@.len() == old(self)@.robots.len(),
            is_unit(fpu),
        ensures
            final(self).wf(),
            (final(self)@, events@) == after_tick(fpu, old(self)@, randoms@),
    {
        let ghost game = self@;
        let ghost n = game.robots.len();
        Self::move_bodies(&mut self.robots, &self.arena, fpu);
        let ghost bodies = robot_views(self.robots@);
        assert(bodies =~= Seq::new(
            n,
            |i: int| cycled(fpu, remembered(game.robots[i]), game.arena),
        ));
        self.arena.update_all_robots_aoi(&mut self.robots, fpu);
        let ghost aware = robot_views(self.robots@);
        assert(aware =~= Seq::new(n, |i: int| with_neighbours(fpu, bodies, i)));
        let command_queue = Self::run_machines(&mut self.robots, &self.arena, randoms, fpu);
        let ghost run = robot_views(self.robots@);
        assert(run =~= Seq::new(
            n,
            |i: int| machine_turn(fpu, aware[i], infos_of(aware), game.arena, randoms@[i]).0,
        ));
        let mut events = Self::carry_out(&mut self.arena, &command_queue);
        let ghost armed = self.arena@;
        let impacts = self.arena.update_projectiles(&mut self.robots, fpu);
        let ghost flown = Flight {
            projectiles: self.arena@.projectiles,
            robots: robot_views(self.robots@),
            impacts: impacts@,
        };
        Self::show(&mut events, &impacts);
        Self::clear_wrecks(&mut self.arena, &mut self.robots);
        let ghost left = survivors(flown.robots, flown.robots.len() as int);

        if self.current_cycle >= config::CYCLES_PER_TURN - 1 {
            self.current_cycle = 0;
            if self.current_turn < u32::MAX {
                self.current_turn += 1;
            }
        } else {
            self.current_cycle += 1;
        }
        Self::tell_time(&mut self.robots, self.current_turn, self.current_cycle);
        if self.robots.len() == 1 {
            self.game_over = true;
            self.winner = Some(self.robots[0].id);
        } else if self.robots.len() == 0 {
            self.game_over = true;
            self.winner = None;
        }
        proof {
            let clock = ticked(game.current_turn, game.current_cycle);
            assert(robot_views(self.robots@) =~= Seq::new(
                left.len(),
                |i: int| timed(left[i], clock.0, clock.1),
            ));
            if left.len() == 1 {
                assert(self.robots@[0]@ == timed(left[0], clock.0, clock.1));
            }
        }
        events
    }

    /// Every robot remembers where it is, and its body is updated.
    fn move_bodies<F: Fn(Op, u64, u64) -> u64>(robots: &mut Vec<Robot>, arena: &Arena, fpu: &F)
        requires
            all_wf(old(robots)@),
            arena@.wf(),
            is_unit(fpu),
        ensures
            all_wf(final(robots)@),
            final(robots)@.len() == old(robots)@.len(),
            forall|k: int|
                0 <= k < old(robots)@.len() ==> (#[trigger] final(robots)@[k])@ == cycled(
                    fpu,
                    remembered(old(robots)@[k]@),
                    arena@,
                ),
    {
        let n = robots.len();
        let mut i: usize = 0;
        while i < n
            invariant
                is_unit(fpu),
                arena@.wf(),
                i <= n,
                n == robots.len(),
                n == old(robots)@.len(),
                all_wf(robots@),
                forall|k: int|
                    0 <= k < i ==> (#[trigger] robots@[k])@ == cycled(
                        fpu,
                        remembered(old(robots)@[k]@),
                        arena@,
                    ),
                forall|k: int| i <= k < n ==> (#[trigger] robots@[k]) == old(robots)@[k],
            decreases n - i,
        {
            robots[i].update_prev_state();
            robots[i].process_cycle_updates(arena, fpu);
            i += 1;
        }
    }

    /// Every robot's machine takes its turn. Each sees the robots as they
    /// are when the first machine begins.
    fn run_machines<F: Fn(Op, u64, u64) -> u64>(
        robots: &mut Vec<Robot>,
        arena: &Arena,
        randoms: &Vec<u64>,
        fpu: &F,
    ) -> (command_queue: Vec<ArenaCommand>)
        requires
            all_wf(old(robots)@),
            randoms@.len() == old(robots)@.len(),
            is_unit(fpu),
        ensures
            all_wf(final(robots)@),
            final(robots)@.len() == old(robots)@.len(),
            forall|k: int|
                0 <= k < old(robots)@.len() ==> (#[trigger] final(robots)@[k])@ == machine_turn(
                    fpu,
                    old(robots)@[k]@,
                    infos_of(robot_views(old(robots)@)),
                    arena@,
                    randoms@[k],
                ).0,
            command_queue@ == queued(
                fpu,
                robot_views(old(robots)@),
                arena@,
                randoms@,
                old(robots)@.len() as int,
            ),
    {
        let infos = Self::robot_infos(robots);
        let ghost aware = robot_views(robots@);
        let mut command_queue: Vec<ArenaCommand> = Vec::new();
        let n = robots.len();
        let mut i: usize = 0;
        while i < n
            invariant
                is_unit(fpu),
                i <= n,
                n == robots.len(),
                n == randoms@.len(),
                n == old(robots)@.len(),
                aware == robot_views(old(robots)@),
                infos@ == infos_of(aware),
                all_wf(robots@),
                command_queue@ == queued(fpu, aware, arena@, randoms@, i as int),
                forall|k: int|
                    0 <= k < i ==> (#[trigger] robots@[k])@ == machine_turn(
                        fpu,
                        old(robots)@[k]@,
                        infos_of(aware),
                        arena@,
                        randoms@[k],
                    ).0,
                forall|k: int| i <= k < n ==> (#[trigger] robots@[k]) == old(robots)@[k],
            decreases n - i,
        {
            assert(aware[i as int] == old(robots)@[i as int]@);
            Self::machine_step(&mut robots[i], &infos, arena, randoms[i], &mut command_queue, fpu);
            i += 1;
        }
        command_queue
    }

    /// One robot's machine takes its turn.
    fn machine_step<F: Fn(Op, u64, u64) -> u64>(
        robot: &mut Robot,
        infos: &Vec<RobotInfo>,
        arena: &Arena,
        random: u64,
        command_queue: &mut Vec<ArenaCommand>,
        fpu: &F,
    )
        requires
            old(robot).wf(),
            is_unit(fpu),
        ensures
            final(robot).wf(),
            final(robot)@ == machine_turn(fpu, old(robot)@, infos@, arena@, random).0,
            final(command_queue)@ == old(command_queue)@ + machine_turn(
                fpu,
                old(robot)@,
                infos@,
                arena@,
                random,
            ).1,
    {
        reveal(machine_turn);
        robot.refresh_registers(arena, random, fpu);
        if robot.status != RobotStatus::Destroyed {
            let _ = robot.execute_vm_cycle_with_provider(infos, arena, command_queue, fpu);
        } else {
            assert(command_queue@ + Seq::<ArenaCommand>::empty() =~= command_queue@);
        }
    }

    /// Carries out the commands of the machines: the projectiles fired join
    /// those in flight, the muzzle flashes are shown.
    fn carry_out(arena: &mut Arena, commands: &Vec<ArenaCommand>) -> (events: Vec<GameEvent>)
        ensures
            final(arena)@ == (ArenaView {
                projectiles: old(arena)@.projectiles + spawned(commands@, commands@.len() as int),
                ..old(arena)@
            }),
            events@ == flashes(commands@, commands@.len() as int),
    {
        let mut events: Vec<GameEvent> = Vec::new();
        let mut c: usize = 0;
        assert(old(arena)@.projectiles + spawned(commands@, 0) =~= old(arena)@.projectiles);
        while c < commands.len()
            invariant
                c <= commands.len(),
                arena@ == (ArenaView {
                    projectiles: old(arena)@.projectiles + spawned(commands@, c as int),
                    ..old(arena)@
                }),
                events@ == flashes(commands@, c as int),
            decreases commands.len() - c,
        {
            match commands[c] {
                ArenaCommand::SpawnProjectile(projectile) => {
                    arena.spawn_projectile(projectile);
                    assert(arena@.projectiles =~= old(arena)@.projectiles + spawned(
                        commands@,
                        c + 1,
                    ));
                },
                ArenaCommand::SpawnMuzzleFlash { position, direction } => {
                    events.push(GameEvent::MuzzleFlash { position, direction });
                },
            }
            c += 1;
        }
        events
    }

    /// Shows the impacts after what is shown already.
    fn show(events: &mut Vec<GameEvent>, impacts: &Vec<Impact>)
        ensures
            final(events)@ == old(events)@ + impact_events(impacts@),
    {
        let mut k: usize = 0;
        assert(old(events)@ + impact_events(impacts@).subrange(0, 0) =~= old(events)@);
        while k < impacts.len()
            invariant
                k <= impacts.len(),
                events@ == old(events)@ + impact_events(impacts@).subrange(0, k as int),
            decreases impacts.len() - k,
        {
            events.push(GameEvent::Impact(impacts[k]));
            k += 1;
            assert(events@ =~= old(events)@ + impact_events(impacts@).subrange(0, k as int));
        }
        assert(impact_events(impacts@).subrange(0, impacts@.len() as int) =~= impact_events(
            impacts@,
        ));
    }

    /// The wrecks become obstacles and leave the game.
    fn clear_wrecks(arena: &mut Arena, robots: &mut Vec<Robot>)
        requires
            all_wf(old(robots)@),
        ensures
            all_wf(final(robots)@),
            final(arena)@ == (ArenaView {
                obstacles: old(arena)@.obstacles + wrecks(
                    robot_views(old(robots)@),
                    old(robots)@.len() as int,
                ),
                ..old(arena)@
            }),
            robot_views(final(robots)@) == survivors(
                robot_views(old(robots)@),
                old(robots)@.len() as int,
            ),
    {
        let ghost all = robot_views(robots@);
        let total = robots.len();
        let mut r: usize = 0;
        assert(old(arena)@.obstacles + wrecks(all, 0) =~= old(arena)@.obstacles);
        while r < total
            invariant
                r <= total,
                total == robots.len(),
                robots@ == old(robots)@,
                all == robot_views(robots@),
                arena@ == (ArenaView {
                    obstacles: old(arena)@.obstacles + wrecks(all, r as int),
                    ..old(arena)@
                }),
            decreases total - r,
        {
            assert(all[r as int] == robots@[r as int]@);
            if robots[r].status == RobotStatus::Destroyed {
                arena.add_obstacle_at_robot(&robots[r]);
                assert(arena@.obstacles =~= old(arena)@.obstacles + wrecks(all, r + 1));
            }
            r += 1;
        }
        // The survivors, the last one first.
        let mut rest: Vec<Robot> = Vec::new();
        assert(robot_views(robots@) =~= all.subrange(0, total as int));
        assert(survivors(all, total as int) + robot_views(rest@).reverse() =~= survivors(
            all,
            total as int,
        ));
        while robots.len() > 0
            invariant
                robots.len() <= total,
                total == all.len(),
                robot_views(robots@) == all.subrange(0, robots.len() as int),
                survivors(all, robots.len() as int) + robot_views(rest@).reverse() == survivors(
                    all,
                    total as int,
                ),
                all_wf(robots@),
                all_wf(rest@),
            decreases robots.len(),
        {
            let ghost before = robots@;
            let ghost kept = rest@;
            let robot = robots.pop().unwrap();
            let ghost j = robots.len() as int;
            proof {
                assert(robot@ == all[j]) by {
                    assert(robot_views(before)[j] == all.subrange(0, j + 1)[j]);
                }
                assert(robot_views(robots@) =~= all.subrange(0, j)) by {
                    assert forall|k: int| 0 <= k < j implies robot_views(robots@)[k]
                        == all.subrange(0, j)[k] by {
                        assert(robots@[k] == before[k]);
                        assert(robot_views(before)[k] == all.subrange(0, j + 1)[k]);
                    }
                }
                assert(all_wf(robots@)) by {
                    assert forall|k: int| 0 <= k < robots@.len() implies (#[trigger] robots@[k]).wf() by {
                        assert(robots@[k] == before[k]);
                    }
                }
                assert(before[j].wf());
            }
            if robot.status != RobotStatus::Destroyed {
                rest.push(robot);
                proof {
                    assert(robot_views(rest@).reverse() =~= seq![robot@] + robot_views(
                        kept,
                    ).reverse());
                    assert(survivors(all, j) + robot_views(rest@).reverse() =~= survivors(
                        all,
                        j + 1,
                    ) + robot_views(kept).reverse());
                    assert(all_wf(rest@)) by {
                        assert forall|k: int| 0 <= k < rest@.len() implies (#[trigger] rest@[k]).wf() by {
                            if k < kept.len() {
                                assert(rest@[k] == kept[k]);
                            }
                        }
                    }
                }
            }
        }
        assert(survivors(all, 0) + robot_views(rest@).reverse() =~= robot_views(rest@).reverse());
        let ghost left = survivors(all, total as int);
        // Back in their order.
        assert(robot_views(robots@) + robot_views(rest@).reverse() =~= left);
        while rest.len() > 0
            invariant
                all_wf(robots@),
                all_wf(rest@),
                robot_views(robots@) + robot_views(rest@).reverse() == left,
            decreases rest.len(),
        {
            let ghost kept = rest@;
            let ghost before = robots@;
            let robot = rest.pop().unwrap();
            robots.push(robot);
            proof {
                assert(robot == kept[kept.len() - 1]);
                assert(kept[kept.len() - 1].wf());
                assert(robot_views(kept).reverse() =~= seq![robot@] + robot_views(rest@).reverse())
                    by {
                    assert forall|k: int| 0 <= k < rest@.len() implies rest@[k] == kept[k] by {}
                }
                assert(robot_views(robots@) =~= robot_views(before).push(robot@)) by {
                    assert forall|k: int| 0 <= k < before.len() implies robots@[k] == before[k] by {}
                }
                assert(robot_views(robots@) + robot_views(rest@).reverse() =~= robot_views(before)
                    + robot_views(kept).reverse());
                assert(all_wf(rest@)) by {
                    assert forall|k: int| 0 <= k < rest@.len() implies (#[trigger] rest@[k]).wf() by {
                        assert(rest@[k] == kept[k]);
                    }
                }
                assert(all_wf(robots@)) by {
                    assert forall|k: int| 0 <= k < robots@.len() implies (#[trigger] robots@[k]).wf() by {
                        if k < before.len() {
                            assert(robots@[k] == before[k]);
                        }
                    }
                }
            }
        }
        assert(robot_views(robots@) + robot_views(rest@).reverse() =~= robot_views(robots@));
    }

    /// Tells every robot's machine the time.
    fn tell_time(robots: &mut Vec<Robot>, turn: u32, cycle: u32)
        requires
            all_wf(old(robots)@),
        ensures
            all_wf(final(robots)@),
            final(robots)@.len() == old(robots)@.len(),
            forall|k: int|
                0 <= k < old(robots)@.len() ==> (#[trigger] final(robots)@[k])@ == timed(
                    old(robots)@[k]@,
                    turn,
                    cycle,
                ),
    {
        let n = robots.len();
        let mut i: usize = 0;
        while i < n
            invariant
                i <= n,
                n == robots.len(),
                n == old(robots)@.len(),
                all_wf(robots@),
                forall|k: int|
                    0 <= k < i ==> (#[trigger] robots@[k])@ == timed(old(robots)@[k]@, turn, cycle),
                forall|k: int| i <= k < n ==> (#[trigger] robots@[k]) == old(robots)@[k],
            decreases n - i,
        {
            robots[i].vm_state.turn = turn;
            robots[i].vm_state.cycle = cycle;
            i += 1;
        }
    }

    /// What one robot can know of each of the robots.
    fn robot_infos(robots: &Vec<Robot>) -> (infos: Vec<RobotInfo>)
        ensures
            infos@ == infos_of(robot_views(robots@)),
    {
        let mut infos: Vec<RobotInfo> = Vec::new();
        let mut i: usize = 0;
        while i < robots.len()
            invariant
                i <= robots.len(),
                infos@ == infos_of(robot_views(robots@)).subrange(0, i as int),
            decreases robots.len() - i,
        {
            infos.push(
                RobotInfo {
                    id: robots[i].id,
                    position: robots[i].position,
                    status: robots[i].status,
                },
            );
            i += 1;
            assert(infos@ =~= infos_of(robot_views(robots@)).subrange(0, i as int));
        }
        assert(infos@ =~= infos_of(robot_views(robots@)));
        infos
    }
}

} // verus!
