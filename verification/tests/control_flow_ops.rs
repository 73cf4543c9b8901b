use bot_arena::arena::Arena;
use bot_arena::fpu::Op;
#[allow(unused_imports)]
use bot_arena::robot::{Robot, RobotInfo};
use bot_arena::types::{ArenaCommand, Point};
#[allow(unused_imports)]
use bot_arena::vm::error::VMFault;
#[allow(unused_imports)]
use bot_arena::vm::executor::InstructionExecutor;
use bot_arena::vm::instruction::Instruction;
use bot_arena::vm::operand::Operand;
#[allow(unused_imports)]
use bot_arena::vm::registers::Register;
use bot_arena::vm::executor::control_flow_ops::ControlFlowOperations;

#[allow(dead_code)]
fn w(x: f64) -> u64 {
    x.to_bits()
}

#[allow(dead_code)]
fn v(bits: u64) -> f64 {
    f64::from_bits(bits)
}

#[allow(dead_code)]
fn fpu(op: Op, a: u64, b: u64) -> u64 {
    let x = f64::from_bits(a);
    let y = f64::from_bits(b);
    let r = match op {
        Op::Add => x + y,
        Op::Sub => x - y,
        Op::Mul => x * y,
        Op::Div => x / y,
        Op::Rem => x % y,
        Op::RemEuclid => x.rem_euclid(y),
        Op::Pow => x.powf(y),
        Op::Atan2 => x.atan2(y),
        Op::Sqrt => x.sqrt(),
        Op::Ln => x.ln(),
        Op::Sin => x.sin(),
        Op::Cos => x.cos(),
        Op::Tan => x.tan(),
        Op::Asin => x.asin(),
        Op::Acos => x.acos(),
        Op::Atan => x.atan(),
        Op::Floor => x.floor(),
        Op::Ceil => x.ceil(),
        Op::ToRadians => x.to_radians(),
        Op::ToDegrees => x.to_degrees(),
    };
    r.to_bits()
}

#[allow(dead_code)]
fn info(robot: &Robot) -> RobotInfo {
    RobotInfo { id: robot.id, position: robot.position, status: robot.status }
}

#[allow(dead_code)]
fn reader(text: &Vec<char>) -> Option<u64> {
    text.iter().collect::<String>().parse::<f64>().ok().map(f64::to_bits)
}


fn setup() -> (Robot, Arena, Vec<ArenaCommand>) {
    let arena = Arena::new();
    let center = Point { x: w(v(arena.width) / 2.0), y: w(v(arena.height) / 2.0) };
    let mut robot = Robot::new(0, "TestRobot".to_string(), Point { x: w(0.5), y: w(0.5) }, center, &fpu);
    let command_queue = Vec::new();

    // Initialize the result register for conditional jumps
    robot.vm_state.registers.set(Register::Result, w(0.0)).unwrap();
    // Initialize IP for testing jumps and calls
    robot.vm_state.ip = 10;

    (robot, arena, command_queue)
}

fn setup_call_ret_vm() -> (Robot, Arena, Vec<ArenaCommand>) {
    // Initialize with default state
    let arena = Arena::new();
    let center = Point { x: w(v(arena.width) / 2.0), y: w(v(arena.height) / 2.0) };
    let robot = Robot::new(0, "TestRobot".to_string(), Point { x: w(0.0), y: w(0.0) }, center, &fpu);
    let command_queue = Vec::new();
    (robot, arena, command_queue)
}

#[test]
fn control_flow_ops_test_can_process() {
    let processor = ControlFlowOperations::new();

    assert!(processor.can_process(&Instruction::Jmp(0)));
    assert!(processor.can_process(&Instruction::Jz(0)));
    assert!(processor.can_process(&Instruction::Jnz(0)));
    assert!(processor.can_process(&Instruction::Jl(0)));
    assert!(processor.can_process(&Instruction::Jle(0)));
    assert!(processor.can_process(&Instruction::Jg(0)));
    assert!(processor.can_process(&Instruction::Jge(0)));
    assert!(processor.can_process(&Instruction::Call(0)));
    assert!(processor.can_process(&Instruction::Ret));
    assert!(processor.can_process(&Instruction::Loop(0)));

    // Should not process other operations
    assert!(!processor.can_process(&Instruction::Add));
    assert!(
        !processor.can_process(&Instruction::Push(Operand::Value(w(0.0))))
    );
}

// Unconditional jump tests

#[test]
fn test_jmp() {
    let (mut robot, arena, mut command_queue) = setup();
    let processor = ControlFlowOperations::new();
    let all_robots: Vec<RobotInfo> = vec![];

    let target_address = 42;

    let result = processor.process(
        &mut robot,
        &all_robots,
        &arena,
        &Instruction::Jmp(target_address),
        &mut command_queue,
    &fpu,
    );

    assert!(result.is_ok());
    assert_eq!(robot.vm_state.ip, target_address);
}

// Conditional jump tests

#[test]
fn test_jz_taken() {
    let (mut robot, arena, mut command_queue) = setup();
    let processor = ControlFlowOperations::new();
    let all_robots: Vec<RobotInfo> = vec![];

    // Set result register to 0 to ensure jump is taken
    robot.vm_state.registers.set(Register::Result, w(0.0)).unwrap();
    let target_address = 42;

    let result = processor.process(
        &mut robot,
        &all_robots,
        &arena,
        &Instruction::Jz(target_address),
        &mut command_queue,
    &fpu,
    );

    assert!(result.is_ok());
    assert_eq!(
        robot.vm_state.ip, target_address,
        "Jump should be taken when @result = 0"
    );
}

#[test]
fn test_jz_not_taken() {
    let (mut robot, arena, mut command_queue) = setup();
    let processor = ControlFlowOperations::new();
    let all_robots: Vec<RobotInfo> = vec![];

    // Set result register to non-zero to ensure jump is not taken
    robot.vm_state.registers.set(Register::Result, w(1.0)).unwrap();
    let initial_ip = robot.vm_state.ip;
    let target_address = 42;

    let result = processor.process(
        &mut robot,
        &all_robots,
        &arena,
        &Instruction::Jz(target_address),
        &mut command_queue,
    &fpu,
    );

    assert!(result.is_ok());
    assert_eq!(
        robot.vm_state.ip,
        initial_ip + 1,
        "Jump should not be taken when @result != 0"
    );
}

#[test]
fn test_jnz_taken() {
    let (mut robot, arena, mut command_queue) = setup();
    let processor = ControlFlowOperations::new();
    let all_robots: Vec<RobotInfo> = vec![];

    // Set result register to non-zero to ensure jump is taken
    robot.vm_state.registers.set(Register::Result, w(1.0)).unwrap();
    let target_address = 42;

    let result = processor.process(
        &mut robot,
        &all_robots,
        &arena,
        &Instruction::Jnz(target_address),
        &mut command_queue,
    &fpu,
    );

    assert!(result.is_ok());
    assert_eq!(
        robot.vm_state.ip, target_address,
        "Jump should be taken when @result != 0"
    );
}

#[test]
fn test_jnz_not_taken() {
    let (mut robot, arena, mut command_queue) = setup();
    let processor = ControlFlowOperations::new();
    let all_robots: Vec<RobotInfo> = vec![];

    // Set result register to zero to ensure jump is not taken
    robot.vm_state.registers.set(Register::Result, w(0.0)).unwrap();
    let initial_ip = robot.vm_state.ip;
    let target_address = 42;

    let result = processor.process(
        &mut robot,
        &all_robots,
        &arena,
        &Instruction::Jnz(target_address),
        &mut command_queue,
    &fpu,
    );

    assert!(result.is_ok());
    assert_eq!(
        robot.vm_state.ip,
        initial_ip + 1,
        "Jump should not be taken when @result = 0"
    );
}

#[test]
fn test_jl_taken() {
    let (mut robot, arena, mut command_queue) = setup();
    let processor = ControlFlowOperations::new();
    let all_robots: Vec<RobotInfo> = vec![];

    // Set result register to negative to ensure jump is taken
    robot
        .vm_state
        .registers
        .set(Register::Result, w(-1.0))
        .unwrap();
    let target_address = 42;

    let result = processor.process(
        &mut robot,
        &all_robots,
        &arena,
        &Instruction::Jl(target_address),
        &mut command_queue,
    &fpu,
    );

    assert!(result.is_ok());
    assert_eq!(
        robot.vm_state.ip, target_address,
        "Jump should be taken when @result < 0"
    );
}

#[test]
fn test_jl_not_taken() {
    let (mut robot, arena, mut command_queue) = setup();
    let processor = ControlFlowOperations::new();
    let all_robots: Vec<RobotInfo> = vec![];

    // Set result register to zero to ensure jump is not taken
    robot.vm_state.registers.set(Register::Result, w(0.0)).unwrap();
    let initial_ip = robot.vm_state.ip;
    let target_address = 42;

    let result = processor.process(
        &mut robot,
        &all_robots,
        &arena,
        &Instruction::Jl(target_address),
        &mut command_queue,
    &fpu,
    );

    assert!(result.is_ok());
    assert_eq!(
        robot.vm_state.ip,
        initial_ip + 1,
        "Jump should not be taken when @result >= 0"
    );
}

#[test]
fn test_jle_taken_negative() {
    let (mut robot, arena, mut command_queue) = setup();
    let processor = ControlFlowOperations::new();
    let all_robots: Vec<RobotInfo> = vec![];

    // Set result register to negative to ensure jump is taken
    robot
        .vm_state
        .registers
        .set(Register::Result, w(-1.0))
        .unwrap();
    let target_address = 42;

    let result = processor.process(
        &mut robot,
        &all_robots,
        &arena,
        &Instruction::Jle(target_address),
        &mut command_queue,
    &fpu,
    );

    assert!(result.is_ok());
    assert_eq!(
        robot.vm_state.ip, target_address,
        "Jump should be taken when @result < 0"
    );
}

#[test]
fn test_jle_taken_zero() {
    let (mut robot, arena, mut command_queue) = setup();
    let processor = ControlFlowOperations::new();
    let all_robots: Vec<RobotInfo> = vec![];

    // Set result register to zero to ensure jump is taken
    robot.vm_state.registers.set(Register::Result, w(0.0)).unwrap();
    let target_address = 42;

    let result = processor.process(
        &mut robot,
        &all_robots,
        &arena,
        &Instruction::Jle(target_address),
        &mut command_queue,
    &fpu,
    );

    assert!(result.is_ok());
    assert_eq!(
        robot.vm_state.ip, target_address,
        "Jump should be taken when @result = 0"
    );
}

#[test]
fn test_jle_not_taken() {
    let (mut robot, arena, mut command_queue) = setup();
    let processor = ControlFlowOperations::new();
    let all_robots: Vec<RobotInfo> = vec![];

    // Set result register to positive to ensure jump is not taken
    robot.vm_state.registers.set(Register::Result, w(1.0)).unwrap();
    let initial_ip = robot.vm_state.ip;
    let target_address = 42;

    let result = processor.process(
        &mut robot,
        &all_robots,
        &arena,
        &Instruction::Jle(target_address),
        &mut command_queue,
    &fpu,
    );

    assert!(result.is_ok());
    assert_eq!(
        robot.vm_state.ip,
        initial_ip + 1,
        "Jump should not be taken when @result > 0"
    );
}

#[test]
fn test_jg_taken() {
    let (mut robot, arena, mut command_queue) = setup();
    let processor = ControlFlowOperations::new();
    let all_robots: Vec<RobotInfo> = vec![];

    // Set result register to positive to ensure jump is taken
    robot.vm_state.registers.set(Register::Result, w(1.0)).unwrap();
    let target_address = 42;

    let result = processor.process(
        &mut robot,
        &all_robots,
        &arena,
        &Instruction::Jg(target_address),
        &mut command_queue,
    &fpu,
    );

    assert!(result.is_ok());
    assert_eq!(
        robot.vm_state.ip, target_address,
        "Jump should be taken when @result > 0"
    );
}

#[test]
fn test_jg_not_taken() {
    let (mut robot, arena, mut command_queue) = setup();
    let processor = ControlFlowOperations::new();
    let all_robots: Vec<RobotInfo> = vec![];

    // Set result register to zero to ensure jump is not taken
    robot.vm_state.registers.set(Register::Result, w(0.0)).unwrap();
    let initial_ip = robot.vm_state.ip;
    let target_address = 42;

    let result = processor.process(
        &mut robot,
        &all_robots,
        &arena,
        &Instruction::Jg(target_address),
        &mut command_queue,
    &fpu,
    );

    assert!(result.is_ok());
    assert_eq!(
        robot.vm_state.ip,
        initial_ip + 1,
        "Jump should not be taken when @result <= 0"
    );
}

#[test]
fn test_jge_taken_positive() {
    let (mut robot, arena, mut command_queue) = setup();
    let processor = ControlFlowOperations::new();
    let all_robots: Vec<RobotInfo> = vec![];

    // Set result register to positive to ensure jump is taken
    robot.vm_state.registers.set(Register::Result, w(1.0)).unwrap();
    let target_address = 42;

    let result = processor.process(
        &mut robot,
        &all_robots,
        &arena,
        &Instruction::Jge(target_address),
        &mut command_queue,
    &fpu,
    );

    assert!(result.is_ok());
    assert_eq!(
        robot.vm_state.ip, target_address,
        "Jump should be taken when @result > 0"
    );
}

#[test]
fn test_jge_taken_zero() {
    let (mut robot, arena, mut command_queue) = setup();
    let processor = ControlFlowOperations::new();
    let all_robots: Vec<RobotInfo> = vec![];

    // Set result register to zero to ensure jump is taken
    robot.vm_state.registers.set(Register::Result, w(0.0)).unwrap();
    let target_address = 42;

    let result = processor.process(
        &mut robot,
        &all_robots,
        &arena,
        &Instruction::Jge(target_address),
        &mut command_queue,
    &fpu,
    );

    assert!(result.is_ok());
    assert_eq!(
        robot.vm_state.ip, target_address,
        "Jump should be taken when @result = 0"
    );
}

#[test]
fn test_jge_not_taken() {
    let (mut robot, arena, mut command_queue) = setup();
    let processor = ControlFlowOperations::new();
    let all_robots: Vec<RobotInfo> = vec![];

    // Set result register to negative to ensure jump is not taken
    robot
        .vm_state
        .registers
        .set(Register::Result, w(-1.0))
        .unwrap();
    let initial_ip = robot.vm_state.ip;
    let target_address = 42;

    let result = processor.process(
        &mut robot,
        &all_robots,
        &arena,
        &Instruction::Jge(target_address),
        &mut command_queue,
    &fpu,
    );

    assert!(result.is_ok());
    assert_eq!(
        robot.vm_state.ip,
        initial_ip + 1,
        "Jump should not be taken when @result < 0"
    );
}

// Call and return tests

#[test]
fn test_call() {
    let (mut robot, arena, mut command_queue) = setup();
    let processor = ControlFlowOperations::new();
    let all_robots: Vec<RobotInfo> = vec![];

    let initial_ip = robot.vm_state.ip;
    let target_address = 42;

    let result = processor.process(
        &mut robot,
        &all_robots,
        &arena,
        &Instruction::Call(target_address),
        &mut command_queue,
    &fpu,
    );

    assert!(result.is_ok());
    assert_eq!(
        robot.vm_state.ip, target_address,
        "Call should set IP to target address"
    );

    // The call stack should contain the return address (initial_ip + 1)
    assert_eq!(
        robot.vm_state.call_stack.len(),
        1,
        "Call stack should have one entry"
    );
    assert_eq!(
        robot.vm_state.call_stack[0],
        initial_ip + 1,
        "Return address should be IP + 1"
    );
}

#[test]
fn test_call_stack_overflow() {
    let (mut robot, arena, mut command_queue) = setup();
    let processor = ControlFlowOperations::new();
    let all_robots: Vec<RobotInfo> = vec![];

    // Fill the call stack to capacity
    for i in 0..16 {
        // If push fails due to overflow, that's fine for this test
        let _ = robot.vm_state.push_call_stack(i);
    }

    let initial_ip = robot.vm_state.ip;
    let target_address = 42;

    let result = processor.process(
        &mut robot,
        &all_robots,
        &arena,
        &Instruction::Call(target_address),
        &mut command_queue,
    &fpu,
    );

    assert_eq!(result, Err(VMFault::CallStackOverflow));
    assert_eq!(
        robot.vm_state.ip,
        initial_ip + 1,
        "IP should be incremented on call stack overflow"
    );
}

#[test]
fn test_ret() {
    let (mut robot, arena, mut command_queue) = setup();
    let processor = ControlFlowOperations::new();
    let all_robots: Vec<RobotInfo> = vec![];

    let return_address = 42;

    // Push a return address onto the call stack
    robot.vm_state.push_call_stack(return_address).unwrap();

    let result = processor.process(
        &mut robot,
        &all_robots,
        &arena,
        &Instruction::Ret,
        &mut command_queue,
    &fpu,
    );

    assert!(result.is_ok());
    assert_eq!(
        robot.vm_state.ip, return_address,
        "Ret should set IP to return address"
    );
    assert_eq!(
        robot.vm_state.call_stack.len(),
        0,
        "Call stack should be empty after return"
    );
}

#[test]
fn test_ret_stack_underflow() {
    let (mut robot, arena, mut command_queue) = setup();
    let processor = ControlFlowOperations::new();
    let all_robots: Vec<RobotInfo> = vec![];

    let initial_ip = robot.vm_state.ip;

    // Call stack is empty
    let result = processor.process(
        &mut robot,
        &all_robots,
        &arena,
        &Instruction::Ret,
        &mut command_queue,
    &fpu,
    );

    assert_eq!(result, Err(VMFault::CallStackUnderflow));
    assert_eq!(
        robot.vm_state.ip,
        initial_ip + 1,
        "IP should be incremented on call stack underflow"
    );
}

// Loop tests

#[test]
fn test_loop_continue() {
    let (mut robot, arena, mut command_queue) = setup();
    let processor = ControlFlowOperations::new();
    let all_robots: Vec<RobotInfo> = vec![];

    // Set the loop counter to 3
    robot.vm_state.registers.set(Register::C, w(3.0)).unwrap();

    let target_address = 5;

    let result = processor.process(
        &mut robot,
        &all_robots,
        &arena,
        &Instruction::Loop(target_address),
        &mut command_queue,
    &fpu,
    );

    assert!(result.is_ok());
    // Loop counter should be decremented
    assert_eq!(v(robot.vm_state.registers.get(Register::C).unwrap()), 2.0);
    // IP should be set to target address
    assert_eq!(robot.vm_state.ip, target_address);
}

#[test]
fn test_loop_end() {
    let (mut robot, arena, mut command_queue) = setup();
    let processor = ControlFlowOperations::new();
    let all_robots: Vec<RobotInfo> = vec![];

    // Set the loop counter to 1 (will decrement to 0)
    robot.vm_state.registers.set(Register::C, w(1.0)).unwrap();

    let initial_ip = robot.vm_state.ip;
    let target_address = 5;

    let result = processor.process(
        &mut robot,
        &all_robots,
        &arena,
        &Instruction::Loop(target_address),
        &mut command_queue,
    &fpu,
    );

    assert!(result.is_ok());
    // Loop counter should be decremented to 0
    assert_eq!(v(robot.vm_state.registers.get(Register::C).unwrap()), 0.0);
    // IP should NOT be modified (the loop falls through)
    assert_eq!(robot.vm_state.ip, initial_ip);
}

#[test]
fn test_call_ret_integration() {
    let (mut robot, arena, mut command_queue) = setup_call_ret_vm();
    let processor = ControlFlowOperations::new();

    let target_addr = 100.0;
    let ip_before = robot.vm_state.ip;

    let call_instruction = Instruction::Call(target_addr as usize);
    let result = processor.process(
        &mut robot,
        &Vec::new(),
        &arena,
        &call_instruction,
        &mut command_queue,
    &fpu,
    );
    assert!(result.is_ok());
    assert_eq!(robot.vm_state.ip, target_addr as usize);
    assert_eq!(robot.vm_state.call_stack.len(), 1);
    assert_eq!(robot.vm_state.call_stack[0], ip_before + 1);

    robot.vm_state.ip = 105; // Simulate execution at target
    let ret_instruction = Instruction::Ret;
    let result = processor.process(
        &mut robot,
        &Vec::new(),
        &arena,
        &ret_instruction,
        &mut command_queue,
    &fpu,
    );
    assert!(result.is_ok(), "Ret instruction failed");
    assert_eq!(robot.vm_state.ip, ip_before + 1);
    assert!(robot.vm_state.call_stack.is_empty());
}
