use bot_arena::arena::Arena;
use bot_arena::fpu::Op;
#[allow(unused_imports)]
use bot_arena::robot::{Robot, RobotInfo};
use bot_arena::types::{ArenaCommand, Point};
#[allow(unused_imports)]
use bot_arena::vm::error::VMFault;
#[allow(unused_imports)]
use bot_arena::vm::executor::InstructionExecutor;
use bot_arena::vm::instruction::Instruction;
use bot_arena::vm::operand::Operand;
#[allow(unused_imports)]
use bot_arena::vm::registers::Register;
use bot_arena::vm::executor::bitwise_ops::BitwiseOperations;

#[allow(dead_code)]
fn w(x: f64) -> u64 {
    x.to_bits()
}

#[allow(dead_code)]
fn v(bits: u64) -> f64 {
    f64::from_bits(bits)
}

#[allow(dead_code)]
fn fpu(op: Op, a: u64, b: u64) -> u64 {
    let x = f64::from_bits(a);
    let y = f64::from_bits(b);
    let r = match op {
        Op::Add => x + y,
        Op::Sub => x - y,
        Op::Mul => x * y,
        Op::Div => x / y,
        Op::Rem => x % y,
        Op::RemEuclid => x.rem_euclid(y),
        Op::Pow => x.powf(y),
        Op::Atan2 => x.atan2(y),
        Op::Sqrt => x.sqrt(),
        Op::Ln => x.ln(),
        Op::Sin => x.sin(),
        Op::Cos => x.cos(),
        Op::Tan => x.tan(),
        Op::Asin => x.asin(),
        Op::Acos => x.acos(),
        Op::Atan => x.atan(),
        Op::Floor => x.floor(),
        Op::Ceil => x.ceil(),
        Op::ToRadians => x.to_radians(),
        Op::ToDegrees => x.to_degrees(),
    };
    r.to_bits()
}

#[allow(dead_code)]
fn info(robot: &Robot) -> RobotInfo {
    RobotInfo { id: robot.id, position: robot.position, status: robot.status }
}

#[allow(dead_code)]
fn reader(text: &Vec<char>) -> Option<u64> {
    text.iter().collect::<String>().parse::<f64>().ok().map(f64::to_bits)
}


fn setup() -> (Robot, Arena, Vec<ArenaCommand>) {
    let mut robot = Robot::new(0, "TestRobot".to_string(), Point { x: w(0.5), y: w(0.5) }, Point { x: w(0.5), y: w(0.5) }, &fpu);
    let arena = Arena::new();
    let command_queue = Vec::new();
    
    // Initialize registers for testing
    robot.vm_state.registers.set(Register::D0, w(5.0)).unwrap(); // 0101 in binary
    robot.vm_state.registers.set(Register::D1, w(3.0)).unwrap(); // 0011 in binary
    
    (robot, arena, command_queue)
}

#[test]
fn bitwise_ops_test_can_process() {
    let processor = BitwiseOperations::new();

    // Stack-based operations
    assert!(processor.can_process(&Instruction::And));
    assert!(processor.can_process(&Instruction::Or));
    assert!(processor.can_process(&Instruction::Xor));
    assert!(processor.can_process(&Instruction::Not));
    assert!(processor.can_process(&Instruction::Shl));
    assert!(processor.can_process(&Instruction::Shr));
    
    // Operand-based operations
    assert!(processor.can_process(&Instruction::AndOp(
        Operand::Value(w(1.0)),
        Operand::Value(w(2.0))
    )));
    assert!(processor.can_process(&Instruction::OrOp(
        Operand::Value(w(1.0)),
        Operand::Value(w(2.0))
    )));
    assert!(processor.can_process(&Instruction::XorOp(
        Operand::Value(w(1.0)),
        Operand::Value(w(2.0))
    )));
    assert!(processor.can_process(&Instruction::NotOp(Operand::Value(w(1.0)))));
    assert!(processor.can_process(&Instruction::ShlOp(
        Operand::Value(w(1.0)),
        Operand::Value(w(2.0))
    )));
    assert!(processor.can_process(&Instruction::ShrOp(
        Operand::Value(w(1.0)),
        Operand::Value(w(2.0))
    )));

    // Should not process other operations
    assert!(!processor.can_process(&Instruction::Add));
    assert!(
        !processor.can_process(&Instruction::Push(Operand::Value(w(0.0))))
    );
}

// Tests for operand-based bitwise operations

#[test]
fn test_and_op() {
    let (mut robot, arena, mut command_queue) = setup();
    let processor = BitwiseOperations::new();
    let all_robots: Vec<RobotInfo> = vec![];

    // 5 & 3 = 1
    // 0101 & 0011 = 0001
    let result = processor.process(
        &mut robot,
        &all_robots,
        &arena,
        &Instruction::AndOp(Operand::Register(Register::D0), Operand::Register(Register::D1)),
        &mut command_queue,
    &fpu,
    );

    assert!(result.is_ok());
    assert_eq!(v(robot.vm_state.registers.get(Register::Result).unwrap()), 1.0);
}

#[test]
fn test_or_op() {
    let (mut robot, arena, mut command_queue) = setup();
    let processor = BitwiseOperations::new();
    let all_robots: Vec<RobotInfo> = vec![];

    // 5 | 3 = 7
    // 0101 | 0011 = 0111
    let result = processor.process(
        &mut robot,
        &all_robots,
        &arena,
        &Instruction::OrOp(Operand::Register(Register::D0), Operand::Register(Register::D1)),
        &mut command_queue,
    &fpu,
    );

    assert!(result.is_ok());
    assert_eq!(v(robot.vm_state.registers.get(Register::Result).unwrap()), 7.0);
}

#[test]
fn test_xor_op() {
    let (mut robot, arena, mut command_queue) = setup();
    let processor = BitwiseOperations::new();
    let all_robots: Vec<RobotInfo> = vec![];

    // 5 ^ 3 = 6
    // 0101 ^ 0011 = 0110
    let result = processor.process(
        &mut robot,
        &all_robots,
        &arena,
        &Instruction::XorOp(Operand::Register(Register::D0), Operand::Register(Register::D1)),
        &mut command_queue,
    &fpu,
    );

    assert!(result.is_ok());
    assert_eq!(v(robot.vm_state.registers.get(Register::Result).unwrap()), 6.0);
}

#[test]
fn test_not_op() {
    let (mut robot, arena, mut command_queue) = setup();
    let processor = BitwiseOperations::new();
    let all_robots: Vec<RobotInfo> = vec![];

    // ~5 = 4294967290
    // ~00000000 00000000 00000000 00000101 = 11111111 11111111 11111111 11111010
    let result = processor.process(
        &mut robot,
        &all_robots,
        &arena,
        &Instruction::NotOp(Operand::Register(Register::D0)),
        &mut command_queue,
    &fpu,
    );

    assert!(result.is_ok());
    assert_eq!(v(robot.vm_state.registers.get(Register::Result).unwrap()), (!5u32) as f64);
}

#[test]
fn test_shl_op() {
    let (mut robot, arena, mut command_queue) = setup();
    let processor = BitwiseOperations::new();
    let all_robots: Vec<RobotInfo> = vec![];

    // 5 << 1 = 10
    // 0101 << 1 = 1010
    let result = processor.process(
        &mut robot,
        &all_robots,
        &arena,
        &Instruction::ShlOp(Operand::Register(Register::D0), Operand::Value(w(1.0))),
        &mut command_queue,
    &fpu,
    );

    assert!(result.is_ok());
    assert_eq!(v(robot.vm_state.registers.get(Register::Result).unwrap()), 10.0);
}

#[test]
fn test_shr_op() {
    let (mut robot, arena, mut command_queue) = setup();
    let processor = BitwiseOperations::new();
    let all_robots: Vec<RobotInfo> = vec![];

    // 5 >> 1 = 2
    // 0101 >> 1 = 0010
    let result = processor.process(
        &mut robot,
        &all_robots,
        &arena,
        &Instruction::ShrOp(Operand::Register(Register::D0), Operand::Value(w(1.0))),
        &mut command_queue,
    &fpu,
    );

    assert!(result.is_ok());
    assert_eq!(v(robot.vm_state.registers.get(Register::Result).unwrap()), 2.0);
}

#[test]
fn test_negative_shift_op() {
    let (mut robot, arena, mut command_queue) = setup();
    let processor = BitwiseOperations::new();
    let all_robots: Vec<RobotInfo> = vec![];

    // Attempt to shift by a negative amount should fail
    let result = processor.process(
        &mut robot,
        &all_robots,
        &arena,
        &Instruction::ShlOp(Operand::Register(Register::D0), Operand::Value(w(-1.0))),
        &mut command_queue,
    &fpu,
    );

    assert!(result.is_err());
    assert!(matches!(result.unwrap_err(), VMFault::DivisionByZero));
}

#[test]
fn test_overflow_shift_op() {
    let (mut robot, arena, mut command_queue) = setup();
    let processor = BitwiseOperations::new();
    let all_robots: Vec<RobotInfo> = vec![];

    // Shift by more than 31 bits should be clamped to 31
    let result = processor.process(
        &mut robot,
        &all_robots,
        &arena,
        &Instruction::ShlOp(Operand::Register(Register::D0), Operand::Value(w(100.0))),
        &mut command_queue,
    &fpu,
    );

    assert!(result.is_ok());
    // 5 << 31 (not 100) = 10737418240
    assert_eq!(v(robot.vm_state.registers.get(Register::Result).unwrap()), (5u32 << 31) as f64);
}

// Stack-based operation tests

#[test]
fn test_and() {
    let (mut robot, arena, mut command_queue) = setup();
    let processor = BitwiseOperations::new();
    let all_robots: Vec<RobotInfo> = vec![];

    // 5 & 3 = 1
    // 0101 & 0011 = 0001
    robot.vm_state.stack.push(w(5.0)).unwrap();
    robot.vm_state.stack.push(w(3.0)).unwrap();

    let result = processor.process(
        &mut robot,
        &all_robots,
        &arena,
        &Instruction::And,
        &mut command_queue,
    &fpu,
    );

    assert!(result.is_ok());
    assert_eq!(v(robot.vm_state.stack.pop().unwrap()), 1.0);
}

#[test]
fn test_or() {
    let (mut robot, arena, mut command_queue) = setup();
    let processor = BitwiseOperations::new();
    let all_robots: Vec<RobotInfo> = vec![];

    // 5 | 3 = 7
    // 0101 | 0011 = 0111
    robot.vm_state.stack.push(w(5.0)).unwrap();
    robot.vm_state.stack.push(w(3.0)).unwrap();

    let result = processor.process(
        &mut robot,
        &all_robots,
        &arena,
        &Instruction::Or,
        &mut command_queue,
    &fpu,
    );

    assert!(result.is_ok());
    assert_eq!(v(robot.vm_state.stack.pop().unwrap()), 7.0);
}

#[test]
fn test_xor() {
    let (mut robot, arena, mut command_queue) = setup();
    let processor = BitwiseOperations::new();
    let all_robots: Vec<RobotInfo> = vec![];

    // 5 ^ 3 = 6
    // 0101 ^ 0011 = 0110
    robot.vm_state.stack.push(w(5.0)).unwrap();
    robot.vm_state.stack.push(w(3.0)).unwrap();

    let result = processor.process(
        &mut robot,
        &all_robots,
        &arena,
        &Instruction::Xor,
        &mut command_queue,
    &fpu,
    );

    assert!(result.is_ok());
    assert_eq!(v(robot.vm_state.stack.pop().unwrap()), 6.0);
}

#[test]
fn test_not() {
    let (mut robot, arena, mut command_queue) = setup();
    let processor = BitwiseOperations::new();
    let all_robots: Vec<RobotInfo> = vec![];

    // NOTE: Bitwise NOT in Rust works on the entire representation of the number
    // For a u32, ~5 would be all 1's except the 3 least significant bits (101)
    robot.vm_state.stack.push(w(5.0)).unwrap();

    let result = processor.process(
        &mut robot,
        &all_robots,
        &arena,
        &Instruction::Not,
        &mut command_queue,
    &fpu,
    );

    assert!(result.is_ok());

    // The expected value can be either -6 (when interpreted as signed) or 4294967290 (when unsigned)
    // For consistency with the integration test, we'll expect the unsigned value
    assert_eq!(v(robot.vm_state.stack.pop().unwrap()), (!5u32) as f64);
}

#[test]
fn test_shl() {
    let (mut robot, arena, mut command_queue) = setup();
    let processor = BitwiseOperations::new();
    let all_robots: Vec<RobotInfo> = vec![];

    // 1 << 2 = 4
    // 01 << 2 = 0100
    robot.vm_state.stack.push(w(1.0)).unwrap();
    robot.vm_state.stack.push(w(2.0)).unwrap();

    let result = processor.process(
        &mut robot,
        &all_robots,
        &arena,
        &Instruction::Shl,
        &mut command_queue,
    &fpu,
    );

    assert!(result.is_ok());
    assert_eq!(v(robot.vm_state.stack.pop().unwrap()), 4.0);
}

#[test]
fn test_shr() {
    let (mut robot, arena, mut command_queue) = setup();
    let processor = BitwiseOperations::new();
    let all_robots: Vec<RobotInfo> = vec![];

    // 8 >> 2 = 2
    // 1000 >> 2 = 0010
    robot.vm_state.stack.push(w(8.0)).unwrap();
    robot.vm_state.stack.push(w(2.0)).unwrap();

    let result = processor.process(
        &mut robot,
        &all_robots,
        &arena,
        &Instruction::Shr,
        &mut command_queue,
    &fpu,
    );

    assert!(result.is_ok());
    assert_eq!(v(robot.vm_state.stack.pop().unwrap()), 2.0);
}

#[test]
fn test_negative_shift() {
    let (mut robot, arena, mut command_queue) = setup();
    let processor = BitwiseOperations::new();
    let all_robots: Vec<RobotInfo> = vec![];

    // Attempt to shift by a negative amount
    robot.vm_state.stack.push(w(8.0)).unwrap();
    robot.vm_state.stack.push(w(-2.0)).unwrap();

    let result = processor.process(
        &mut robot,
        &all_robots,
        &arena,
        &Instruction::Shl,
        &mut command_queue,
    &fpu,
    );

    assert_eq!(result, Err(VMFault::DivisionByZero));
}

#[test]
fn test_overflow_shift() {
    let (mut robot, arena, mut command_queue) = setup();
    let processor = BitwiseOperations::new();
    let all_robots: Vec<RobotInfo> = vec![];

    // Attempt to shift by too many bits
    robot.vm_state.stack.push(w(8.0)).unwrap();
    robot.vm_state.stack.push(w(64.0)).unwrap();

    let result = processor.process(
        &mut robot,
        &all_robots,
        &arena,
        &Instruction::Shr,
        &mut command_queue,
    &fpu,
    );

    // For consistency with the integration test, we should expect this to succeed
    // with the shift amount clamped to 31
    assert!(result.is_ok());
    assert_eq!(v(robot.vm_state.stack.pop().unwrap()), 0.0); // 8 >> 31 = 0
}

#[test]
fn test_stack_underflow() {
    let (mut robot, arena, mut command_queue) = setup();
    let processor = BitwiseOperations::new();
    let all_robots: Vec<RobotInfo> = vec![];

    // AND requires two operands, but the stack is empty
    let result = processor.process(
        &mut robot,
        &all_robots,
        &arena,
        &Instruction::And,
        &mut command_queue,
    &fpu,
    );

    assert_eq!(result, Err(VMFault::StackUnderflow));
}
