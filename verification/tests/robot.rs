use bot_arena::arena::Arena;
use bot_arena::config;
use bot_arena::fpu::Op;
use bot_arena::robot::{Robot, RobotInfo, RobotStatus};
use bot_arena::types::{ArenaCommand, Point};
use bot_arena::vm::executor::ComponentOperations;
use bot_arena::vm::instruction::Instruction;
use bot_arena::vm::operand::Operand;
use bot_arena::vm::parser::{parse_assembly, ParsedProgram};
use bot_arena::vm::registers::Register;

#[allow(dead_code)]
fn w(x: f64) -> u64 {
    x.to_bits()
}

#[allow(dead_code)]
fn v(bits: u64) -> f64 {
    f64::from_bits(bits)
}

#[allow(dead_code)]
fn fpu(op: Op, a: u64, b: u64) -> u64 {
    let x = f64::from_bits(a);
    let y = f64::from_bits(b);
    let r = match op {
        Op::Add => x + y,
        Op::Sub => x - y,
        Op::Mul => x * y,
        Op::Div => x / y,
        Op::Rem => x % y,
        Op::RemEuclid => x.rem_euclid(y),
        Op::Pow => x.powf(y),
        Op::Atan2 => x.atan2(y),
        Op::Sqrt => x.sqrt(),
        Op::Ln => x.ln(),
        Op::Sin => x.sin(),
        Op::Cos => x.cos(),
        Op::Tan => x.tan(),
        Op::Asin => x.asin(),
        Op::Acos => x.acos(),
        Op::Atan => x.atan(),
        Op::Floor => x.floor(),
        Op::Ceil => x.ceil(),
        Op::ToRadians => x.to_radians(),
        Op::ToDegrees => x.to_degrees(),
    };
    r.to_bits()
}

#[allow(dead_code)]
fn info(robot: &Robot) -> RobotInfo {
    RobotInfo { id: robot.id, position: robot.position, status: robot.status }
}

#[allow(dead_code)]
fn reader(text: &Vec<char>) -> Option<u64> {
    text.iter().collect::<String>().parse::<f64>().ok().map(f64::to_bits)
}

fn parse_program(source: &str) -> ParsedProgram {
    parse_assembly(source, None, &fpu, &reader)
        .unwrap_or_else(|_| panic!("Failed to parse program: {}", source))
}

fn simulate_cycle(
    robot: &mut Robot,
    all_robots: &Vec<RobotInfo>,
    arena: &Arena,
    command_queue: &mut Vec<ArenaCommand>,
) {
    robot.vm_state.instruction_cycles_remaining = 0; // Reset for test
    robot.execute_vm_cycle(all_robots, arena, command_queue, &fpu);
    robot.process_cycle_updates(arena, &fpu);
}

fn large_arena() -> Arena {
    let mut arena = Arena::new();
    arena.width = w(10.0);
    arena.height = w(10.0);
    arena.grid_width = 200;
    arena.grid_height = 200;
    arena.obstacles.clear();
    arena
}

#[test]
fn test_basic_movement() {
    let arena = large_arena();
    let center = Point { x: w(v(arena.width) / 2.0), y: w(v(arena.height) / 2.0) };
    let mut robot = Robot::new(0, String::new(), Point { x: w(1.0), y: w(1.0) }, center, &fpu);
    let mut command_queue = Vec::new();
    let none = Vec::new();

    let program = parse_program(
        r#"
        select 1      ; select drive
        drive 1.0     ; set velocity to 1.0 grid unit per turn
        rotate 0.0    ; set rotation to 0 degrees (east)
    "#,
    );
    robot.load_program(program);

    simulate_cycle(&mut robot, &none, &arena, &mut command_queue);
    simulate_cycle(&mut robot, &none, &arena, &mut command_queue);
    simulate_cycle(&mut robot, &none, &arena, &mut command_queue);

    // Explicitly set direction to 0 for this test, overriding center-facing default
    robot.drive.direction = w(0.0);

    let expected_velocity = v(config::UNIT_SIZE) / config::CYCLES_PER_TURN as f64;
    let start_collision_distance =
        v(arena.distance_to_collision(robot.position, robot.drive.direction, &fpu));
    let expected_move_distance = expected_velocity * config::CYCLES_PER_TURN as f64;
    assert!(start_collision_distance >= expected_move_distance);
    assert!(
        (v(robot.drive.velocity) - expected_velocity).abs() < 1e-9,
        "Drive velocity should be {}, but was {}",
        expected_velocity,
        v(robot.drive.velocity)
    );

    let start_x = v(robot.position.x);
    for _ in 0..config::CYCLES_PER_TURN {
        robot.process_cycle_updates(&arena, &fpu);
    }
    let distance_moved = v(robot.position.x) - start_x;
    assert!(
        (distance_moved - v(config::UNIT_SIZE)).abs() < 0.001,
        "Robot should move {} coordinate units (1 grid unit) per turn with drive 1.0, but moved {} coordinate units",
        v(config::UNIT_SIZE),
        distance_moved
    );
}

#[test]
fn test_fractional_movement() {
    let arena = large_arena();
    let center = Point { x: w(v(arena.width) / 2.0), y: w(v(arena.height) / 2.0) };
    let mut robot = Robot::new(0, String::new(), Point { x: w(1.0), y: w(1.0) }, center, &fpu);
    let mut command_queue = Vec::new();

    robot.vm_state.set_selected_component(1).unwrap();

    let drive_instruction = Instruction::Drive(Operand::Value(w(0.5)));
    let processor = ComponentOperations::new();
    processor
        .process(&mut robot, &Vec::new(), &arena, &drive_instruction, &mut command_queue, &fpu)
        .unwrap();

    let expected_velocity = 0.5 * v(config::UNIT_SIZE) / config::CYCLES_PER_TURN as f64;
    assert!(
        (v(robot.drive.velocity) - expected_velocity).abs() < 1e-9,
        "Drive velocity should be {}, but was {}",
        expected_velocity,
        v(robot.drive.velocity)
    );

    robot.drive.direction = w(0.0);
    let start_x = v(robot.position.x);
    for _ in 0..config::CYCLES_PER_TURN {
        robot.process_cycle_updates(&arena, &fpu);
    }
    let distance_moved = v(robot.position.x) - start_x;
    assert!(
        (distance_moved - 0.5 * v(config::UNIT_SIZE)).abs() < 0.001,
        "Robot should move {} coordinate units (0.5 grid units) per turn with drive 0.5, but moved {} coordinate units",
        0.5 * v(config::UNIT_SIZE),
        distance_moved
    );
}

#[test]
fn test_component_switching() {
    let mut robot = Robot::new(
        0,
        String::new(),
        Point { x: w(0.5), y: w(0.5) },
        Point { x: w(0.5), y: w(0.5) },
        &fpu,
    );
    let arena = Arena::default();
    let mut command_queue = Vec::new();
    let none = Vec::new();

    let program = parse_program(
        r#"
        select 1         ; select drive
        drive 0.5        ; set velocity
        select 2         ; select turret
        rotate 45.0      ; set turret rotation
    "#,
    );
    robot.load_program(program);

    simulate_cycle(&mut robot, &none, &arena, &mut command_queue);
    simulate_cycle(&mut robot, &none, &arena, &mut command_queue);
    assert!(
        v(robot.drive.velocity) > 0.0,
        "Drive velocity should be set after drive instruction"
    );
    simulate_cycle(&mut robot, &none, &arena, &mut command_queue);
    simulate_cycle(&mut robot, &none, &arena, &mut command_queue);
    assert_ne!(v(robot.turret.pending_rotation), 0.0, "Turret rotation should be set");
    assert!(
        command_queue.is_empty(),
        "No commands should be queued for these instructions"
    );
}

#[test]
fn test_program_errors() {
    let mut robot = Robot::new(
        0,
        String::new(),
        Point { x: w(0.5), y: w(0.5) },
        Point { x: w(0.5), y: w(0.5) },
        &fpu,
    );
    let arena = Arena::default();
    let mut command_queue = Vec::new();
    let none = Vec::new();

    let result = parse_assembly("invalid instruction", None, &fpu, &reader);
    assert!(result.is_err());

    let runtime_error_program = parse_program(
        r#"
        push 5.0
        push 0.0
        div       ; Division by zero error
    "#,
    );
    robot.load_program(runtime_error_program);

    simulate_cycle(&mut robot, &none, &arena, &mut command_queue);
    simulate_cycle(&mut robot, &none, &arena, &mut command_queue);

    robot.vm_state.instruction_cycles_remaining = 0; // Reset for test
    robot.execute_vm_cycle(&none, &arena, &mut command_queue, &fpu);

    assert!(
        robot.vm_state.fault.is_some(),
        "Expected VM fault for division by zero"
    );
}

#[test]
fn test_register_interaction() {
    let mut robot = Robot::new(
        0,
        String::new(),
        Point { x: w(0.5), y: w(0.5) },
        Point { x: w(0.5), y: w(0.5) },
        &fpu,
    );
    let arena = Arena::default();
    let none = Vec::new();

    let program = parse_program(
        r#"
        mov @d0 123.0     ; Set scratch register
        mov @result @d0   ; Copy to result
        push @result      ; Push result to stack
    "#,
    );
    robot.load_program(program);
    simulate_cycle(&mut robot, &none, &arena, &mut Vec::new());
    simulate_cycle(&mut robot, &none, &arena, &mut Vec::new());
    simulate_cycle(&mut robot, &none, &arena, &mut Vec::new());

    let val = v(robot.vm_state.stack.pop().unwrap());
    assert_eq!(val, 123.0);
}

#[test]
fn test_fire_weapon() {
    let arena = Arena::new();
    let center = Point { x: w(v(arena.width) / 2.0), y: w(v(arena.height) / 2.0) };
    let mut robot =
        Robot::new(0, "TestRobot".to_string(), Point { x: w(0.5), y: w(0.5) }, center, &fpu);
    let mut command_queue = Vec::new();
    let none = Vec::new();

    robot.power = w(0.5);

    let program = parse_program(
        r#"
        select 2          ; Select turret
        fire 0.5          ; Fire weapon with 0.5 power
    "#,
    );
    robot.load_program(program);

    simulate_cycle(&mut robot, &none, &arena, &mut command_queue);
    simulate_cycle(&mut robot, &none, &arena, &mut command_queue);

    assert_eq!(
        command_queue.len(),
        2,
        "Expected 2 commands (SpawnProjectile and SpawnMuzzleFlash)"
    );
    match command_queue.remove(0) {
        ArenaCommand::SpawnProjectile(proj) => {
            assert_eq!(proj.source_robot, 0);
            assert!(
                (v(proj.power) - 0.5).abs() < 0.001,
                "Projectile power should be ~0.5"
            );
        }
        _ => panic!("Expected SpawnProjectile command"),
    }
    match command_queue.remove(0) {
        ArenaCommand::SpawnMuzzleFlash { .. } => { /* Success */ }
        _ => panic!("Expected SpawnMuzzleFlash command"),
    }
}

#[test]
fn a_new_robot_looks_at_the_centre() {
    let robot = Robot::new(
        7,
        "Seven".to_string(),
        Point { x: w(0.1), y: w(0.1) },
        Point { x: w(0.5), y: w(0.5) },
        &fpu,
    );
    assert_eq!(robot.id, 7);
    assert_eq!(robot.name, "Seven");
    assert_eq!(robot.status, RobotStatus::Idle);
    assert_eq!(v(robot.health), 100.0);
    assert_eq!(v(robot.power), 1.0);
    assert!((v(robot.drive.direction) - 45.0).abs() < 1e-9);
    assert!((v(robot.turret.direction) - 45.0).abs() < 1e-9);
    assert_eq!(v(robot.turret.scanner.fov), 45.0);
    assert_eq!(v(robot.turret.scanner.range), 1.414);
    assert_eq!(v(robot.turret.ranged.projectile_speed), 0.2);
    assert_eq!(v(robot.turret.ranged.base_damage), 10.0);
    assert!(robot.program.is_empty());
    assert!(robot.current_instruction().is_none());
    let copy = robot.clone();
    assert_eq!(copy.id, 7);
    assert_eq!(copy.position, robot.position);
}

#[test]
fn power_comes_back_and_stops_at_one() {
    let arena = Arena::new();
    let mut robot = Robot::new(
        1,
        "R".to_string(),
        Point { x: w(0.5), y: w(0.5) },
        Point { x: w(0.5), y: w(0.5) },
        &fpu,
    );
    robot.power = w(0.5);
    robot.process_cycle_updates(&arena, &fpu);
    assert_eq!(v(robot.power), 0.5 + 0.01);
    robot.power = w(0.995);
    robot.process_cycle_updates(&arena, &fpu);
    assert_eq!(v(robot.power), 1.0);
    robot.power = w(f64::NAN);
    robot.process_cycle_updates(&arena, &fpu);
    assert_eq!(v(robot.power), 1.0);
}

#[test]
fn a_rotation_is_spread_over_cycles() {
    let arena = Arena::new();
    let mut robot = Robot::new(
        1,
        "R".to_string(),
        Point { x: w(0.5), y: w(0.5) },
        Point { x: w(0.6), y: w(0.5) },
        &fpu,
    );
    assert_eq!(v(robot.drive.direction), 0.0);
    robot.request_drive_rotation(w(90.0), &fpu);
    robot.request_turret_rotation(w(-3.0), &fpu);
    assert_eq!(v(robot.drive.pending_rotation), 90.0);
    assert_eq!(v(robot.turret.pending_rotation), -3.0);
    robot.process_cycle_updates(&arena, &fpu);
    assert_eq!(v(robot.drive.direction), 1.8);
    assert_eq!(v(robot.drive.pending_rotation), 90.0 - 1.8);
    assert_eq!(v(robot.turret.direction), (0.0f64 - 1.8).rem_euclid(360.0));
    assert_eq!(v(robot.turret.pending_rotation), -3.0 + 1.8);
    // 90 degrees at 1.8 degrees a cycle take 50 cycles.
    for _ in 0..49 {
        robot.process_cycle_updates(&arena, &fpu);
    }
    assert!(v(robot.drive.pending_rotation).abs() < 1e-6);
    assert!((v(robot.drive.direction) - 90.0).abs() < 1e-6);
    robot.process_cycle_updates(&arena, &fpu);
    assert_eq!(v(robot.drive.pending_rotation), 0.0);
    assert_eq!(v(robot.turret.pending_rotation), 0.0);
}

#[test]
fn the_registers_show_the_robot_to_its_program() {
    let arena = Arena::new();
    let mut robot = Robot::new(
        1,
        "R".to_string(),
        Point { x: w(0.25), y: w(0.5) },
        Point { x: w(0.5), y: w(0.5) },
        &fpu,
    );
    robot.health = w(73.0);
    robot.power = w(0.75);
    robot.vm_state.turn = 3;
    robot.vm_state.cycle = 42;
    robot.update_vm_state_registers(&arena, &fpu);
    let reg = |r: Register| v(robot.vm_state.registers.get(r).unwrap());
    assert_eq!(reg(Register::Turn), 3.0);
    assert_eq!(reg(Register::Cycle), 42.0);
    assert_eq!(reg(Register::Health), 73.0);
    assert_eq!(reg(Register::Power), 0.75);
    assert_eq!(reg(Register::WeaponPower), 0.75);
    assert_eq!(reg(Register::WeaponCooldown), 0.0);
    assert_eq!(reg(Register::PosX), 0.25);
    assert_eq!(reg(Register::PosY), 0.5);
    assert_eq!(reg(Register::DriveDirection), 0.0);
    assert_eq!(reg(Register::TurretDirection), 0.0);
    assert_eq!(reg(Register::DriveVelocity), 0.0);
    assert!((reg(Register::ForwardDistance) - (0.75 - 0.025)).abs() < 1e-9);
    assert!((reg(Register::BackwardDistance) - (0.25 - 0.025)).abs() < 1e-9);
    let first = reg(Register::Rand);
    assert!((0.0..1.0).contains(&first));
    let mut differs = false;
    for _ in 0..16 {
        robot.update_vm_state_registers(&arena, &fpu);
        let next = v(robot.vm_state.registers.get(Register::Rand).unwrap());
        assert!((0.0..1.0).contains(&next));
        differs = differs || next != first;
    }
    assert!(differs);

    robot.refresh_registers(&arena, w(0.125), &fpu);
    assert_eq!(v(robot.vm_state.registers.get(Register::Rand).unwrap()), 0.125);
}

#[test]
fn a_machine_halts_at_the_end_of_its_program() {
    let arena = Arena::new();
    let mut robot = Robot::new(
        1,
        "R".to_string(),
        Point { x: w(0.5), y: w(0.5) },
        Point { x: w(0.5), y: w(0.5) },
        &fpu,
    );
    robot.load_program(parse_program("nop"));
    let mut queue = Vec::new();
    let none = Vec::new();
    assert_eq!(robot.current_instruction(), Some(Instruction::Nop));
    assert_eq!(robot.execute_vm_cycle_with_provider(&none, &arena, &mut queue, &fpu), None);
    assert_eq!(robot.status, RobotStatus::Active);
    assert_eq!(robot.vm_state.ip, 1);
    assert_eq!(robot.current_instruction(), None);
    assert_eq!(robot.execute_vm_cycle_with_provider(&none, &arena, &mut queue, &fpu), None);
    assert_eq!(robot.vm_state.instruction_cycles_remaining, u32::MAX);
    assert_eq!(robot.vm_state.ip, 1);

    let mut wreck = Robot::new(
        2,
        "W".to_string(),
        Point { x: w(0.5), y: w(0.5) },
        Point { x: w(0.5), y: w(0.5) },
        &fpu,
    );
    wreck.load_program(parse_program("nop"));
    wreck.status = RobotStatus::Destroyed;
    wreck.execute_vm_cycle(&none, &arena, &mut queue, &fpu);
    assert_eq!(wreck.vm_state.ip, 0);
    assert_eq!(wreck.status, RobotStatus::Destroyed);
}
