use bot_arena::arena::{Arena, ImpactKind};
use bot_arena::fpu::Op;
use bot_arena::game::{Game, GameError, GameEvent, RobotProgram};
use bot_arena::robot::{Robot, RobotInfo, RobotStatus};
use bot_arena::types::{Point, Projectile};
use bot_arena::vm::instruction::Instruction;
use bot_arena::vm::operand::Operand;
use bot_arena::vm::parser::ParseErrorKind;
use bot_arena::vm::registers::Register;

#[allow(dead_code)]
fn w(x: f64) -> u64 {
    x.to_bits()
}

#[allow(dead_code)]
fn v(bits: u64) -> f64 {
    f64::from_bits(bits)
}

#[allow(dead_code)]
fn fpu(op: Op, a: u64, b: u64) -> u64 {
    let x = f64::from_bits(a);
    let y = f64::from_bits(b);
    let r = match op {
        Op::Add => x + y,
        Op::Sub => x - y,
        Op::Mul => x * y,
        Op::Div => x / y,
        Op::Rem => x % y,
        Op::RemEuclid => x.rem_euclid(y),
        Op::Pow => x.powf(y),
        Op::Atan2 => x.atan2(y),
        Op::Sqrt => x.sqrt(),
        Op::Ln => x.ln(),
        Op::Sin => x.sin(),
        Op::Cos => x.cos(),
        Op::Tan => x.tan(),
        Op::Asin => x.asin(),
        Op::Acos => x.acos(),
        Op::Atan => x.atan(),
        Op::Floor => x.floor(),
        Op::Ceil => x.ceil(),
        Op::ToRadians => x.to_radians(),
        Op::ToDegrees => x.to_degrees(),
    };
    r.to_bits()
}

#[allow(dead_code)]
fn info(robot: &Robot) -> RobotInfo {
    RobotInfo { id: robot.id, position: robot.position, status: robot.status }
}

#[allow(dead_code)]
fn reader(text: &Vec<char>) -> Option<u64> {
    text.iter().collect::<String>().parse::<f64>().ok().map(f64::to_bits)
}

fn dummy_robot(id: u32, pos: Point, status: RobotStatus) -> Robot {
    let mut robot = Robot::new(id, format!("Robot{}", id), pos, Point { x: w(0.5), y: w(0.5) }, &fpu);
    robot.status = status;
    robot
}

fn game_of(robots: Vec<Robot>) -> Game {
    Game {
        arena: Arena::new(),
        robots,
        current_turn: 1,
        current_cycle: 0,
        max_turns: 10,
        game_over: false,
        winner: None,
    }
}

fn program(name: &str, source: &str) -> RobotProgram {
    RobotProgram { name: name.to_string(), source: source.to_string() }
}

#[test]
fn test_destroyed_robot_removal_and_obstacle_placement() {
    let mut game = game_of(vec![
        dummy_robot(1, Point { x: w(0.1), y: w(0.1) }, RobotStatus::Active),
        dummy_robot(2, Point { x: w(0.2), y: w(0.2) }, RobotStatus::Destroyed),
    ]);
    assert_eq!(game.robots.len(), 2);
    assert_eq!(game.arena.obstacles.len(), 0);
    game.update_simulation(&fpu);
    assert_eq!(game.robots.len(), 1);
    assert_eq!(game.arena.obstacles.len(), 1);
    let obs_pos = game.arena.obstacles[0].position;
    assert!((v(obs_pos.x) - 0.2).abs() < 1e-9 && (v(obs_pos.y) - 0.2).abs() < 1e-9);
}

#[test]
fn test_win_and_draw_logic() {
    let mut game = game_of(vec![dummy_robot(1, Point { x: w(0.1), y: w(0.1) }, RobotStatus::Active)]);
    game.update_simulation(&fpu);
    assert!(game.game_over);
    assert!(game.is_over());
    assert_eq!(game.winner, Some(1));
    assert_eq!(game.winner(), Some(1));

    let mut game = game_of(vec![]);
    game.update_simulation(&fpu);
    assert!(game.game_over);
    assert_eq!(game.winner, None);
}

#[test]
fn a_game_begins_with_its_robots_in_the_corners() {
    let programs = vec![
        program("one", "push ARENA_WIDTH\npush ARENA_HEIGHT"),
        program("two", "nop"),
        program("three", "nop"),
        program("four", "nop"),
    ];
    let game = Game::new(&programs, 50, &fpu, &reader).unwrap();
    assert_eq!(game.current_turn, 1);
    assert_eq!(game.current_cycle, 0);
    assert_eq!(game.max_turns, 50);
    assert!(!game.game_over);
    assert_eq!(game.winner, None);
    assert!(game.arena.obstacles.is_empty());
    assert_eq!(game.robots.len(), 4);
    let corners = [(0.1, 0.1, 45.0), (0.9, 0.1, 135.0), (0.9, 0.9, 225.0), (0.1, 0.9, 315.0)];
    for (i, robot) in game.robots.iter().enumerate() {
        assert_eq!(robot.id, i as u32 + 1);
        assert_eq!(robot.name, programs[i].name);
        assert_eq!((v(robot.position.x), v(robot.position.y)), (corners[i].0, corners[i].1));
        assert!((v(robot.drive.direction) - corners[i].2).abs() < 1e-9);
        assert!((v(robot.turret.direction) - corners[i].2).abs() < 1e-9);
        assert_eq!(robot.status, RobotStatus::Idle);
    }
    assert_eq!(
        game.robots[0].program,
        vec![
            Instruction::Push(Operand::Value(w(20.0))),
            Instruction::Push(Operand::Value(w(20.0))),
        ]
    );
}

#[test]
fn a_game_refuses_too_many_robots_and_wrong_programs() {
    let five: Vec<RobotProgram> = (0..5).map(|i| program(&format!("r{}", i), "nop")).collect();
    assert!(matches!(Game::new(&five, 10, &fpu, &reader), Err(GameError::TooManyRobots)));
    let wrong = vec![program("fine", "nop"), program("bad", "nop\nfrobnicate"), program("worse", "pop @nowhere")];
    match Game::new(&wrong, 10, &fpu, &reader) {
        Err(GameError::Program { robot, error }) => {
            assert_eq!(robot, 2);
            assert_eq!(error.line, 2);
            assert_eq!(error.kind, ParseErrorKind::UnknownInstruction);
            assert_eq!(error.message, "Unknown instruction: frobnicate");
        }
        other => panic!("unexpected {:?}", other.map(|g| g.robots.len())),
    }
    let redefined = vec![program("r", ".const ARENA_WIDTH 3")];
    match Game::new(&redefined, 10, &fpu, &reader) {
        Err(GameError::Program { robot: 1, error }) => {
            assert_eq!(error.kind, ParseErrorKind::RedefinedBuiltin)
        }
        _ => panic!("a constant of the host was defined anew"),
    }
    assert_eq!(Game::new(&vec![], 10, &fpu, &reader).unwrap().robots.len(), 0);
}

#[test]
fn the_clock_counts_cycles_and_turns() {
    let programs = vec![program("a", "loop_here: jmp loop_here"), program("b", "nop")];
    let mut game = Game::new(&programs, 10, &fpu, &reader).unwrap();
    for cycle in 1..100 {
        game.update_simulation(&fpu);
        assert_eq!((game.current_turn, game.current_cycle), (1, cycle));
        assert_eq!(game.robots[0].vm_state.cycle, cycle);
        assert_eq!(game.robots[1].vm_state.turn, 1);
    }
    game.update_simulation(&fpu);
    assert_eq!((game.current_turn, game.current_cycle), (2, 0));
    assert_eq!(game.robots[0].vm_state.turn, 2);
    assert_eq!(game.robots[0].vm_state.cycle, 0);
    assert!(!game.game_over);
    game.update_simulation(&fpu);
    assert_eq!(v(game.robots[0].vm_state.registers.get(Register::Turn).unwrap()), 2.0);
    assert_eq!(v(game.robots[0].vm_state.registers.get(Register::Cycle).unwrap()), 0.0);
    game.current_turn = u32::MAX;
    game.current_cycle = 99;
    game.update_simulation(&fpu);
    assert_eq!((game.current_turn, game.current_cycle), (u32::MAX, 0));
}

#[test]
fn a_shot_flies_in_the_cycle_in_which_it_is_fired() {
    // Robot 1 stands left of robot 2 and looks at it.
    let mut game = game_of(vec![
        dummy_robot(1, Point { x: w(0.3), y: w(0.5) }, RobotStatus::Idle),
        dummy_robot(2, Point { x: w(0.4), y: w(0.5) }, RobotStatus::Idle),
    ]);
    game.robots[0].program = vec![Instruction::Fire(Operand::Value(w(1.0)))];
    game.robots[1].health = w(5.0);
    let randoms = game.draw_randoms();
    assert_eq!(randoms.len(), 2);
    assert!(randoms.iter().all(|r| (0.0..1.0).contains(&v(*r))));
    let events = game.update_simulation_with(&vec![w(0.25), w(0.75)], &fpu);
    assert_eq!(v(game.robots[0].vm_state.registers.get(Register::Rand).unwrap()), 0.25);
    assert_eq!(v(game.robots[1].vm_state.registers.get(Register::Rand).unwrap()), 0.75);
    assert_eq!(game.robots[0].status, RobotStatus::Active);
    assert_eq!(game.robots[0].vm_state.instruction_cycles_remaining, 2);
    assert_eq!(game.robots[0].aoi, vec![2]);
    assert!(v(game.robots[0].power) < 0.02);
    assert_eq!(events.len(), 1);
    assert_eq!(
        events[0],
        GameEvent::MuzzleFlash { position: Point { x: w(0.3), y: w(0.5) }, direction: w(0.0) }
    );
    assert_eq!(game.arena.projectiles.len(), 1);
    let shot: Projectile = game.arena.projectiles[0];
    assert_eq!(shot.source_robot, 1);
    assert_eq!(v(shot.power), 1.0);
    // It started 0.04 ahead of robot 1 and has gone 0.2 grid units.
    assert!((v(shot.position.x) - (0.3 + 0.04 + 0.2 * 0.05)).abs() < 1e-9);
    let mut impacts = Vec::new();
    for _ in 0..10 {
        let randoms: Vec<u64> = vec![w(0.5); game.robots.len()];
        for event in game.update_simulation_with(&randoms, &fpu) {
            if let GameEvent::Impact(impact) = event {
                impacts.push(impact);
            }
        }
    }
    assert_eq!(impacts.len(), 1);
    assert_eq!(impacts[0].kind, ImpactKind::Robot { id: 2, destroyed: true });
    assert!(game.arena.projectiles.is_empty());
    assert_eq!(game.robots.len(), 1);
    assert_eq!(game.arena.obstacles.len(), 1);
    assert_eq!(game.arena.obstacles[0].position, Point { x: w(0.4), y: w(0.5) });
    assert!(game.game_over);
    assert_eq!(game.winner, Some(1));
}
