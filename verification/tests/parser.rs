use bot_arena::fpu::Op;
#[allow(unused_imports)]
use bot_arena::robot::{Robot, RobotInfo};
use bot_arena::vm::instruction::Instruction;
use bot_arena::vm::operand::Operand;
use bot_arena::vm::parser::{parse_assembly, Constant};
#[allow(unused_imports)]
use bot_arena::vm::registers::Register;
use std::f64::consts::PI;

#[allow(dead_code)]
fn w(x: f64) -> u64 {
    x.to_bits()
}

#[allow(dead_code)]
fn v(bits: u64) -> f64 {
    f64::from_bits(bits)
}

#[allow(dead_code)]
fn fpu(op: Op, a: u64, b: u64) -> u64 {
    let x = f64::from_bits(a);
    let y = f64::from_bits(b);
    let r = match op {
        Op::Add => x + y,
        Op::Sub => x - y,
        Op::Mul => x * y,
        Op::Div => x / y,
        Op::Rem => x % y,
        Op::RemEuclid => x.rem_euclid(y),
        Op::Pow => x.powf(y),
        Op::Atan2 => x.atan2(y),
        Op::Sqrt => x.sqrt(),
        Op::Ln => x.ln(),
        Op::Sin => x.sin(),
        Op::Cos => x.cos(),
        Op::Tan => x.tan(),
        Op::Asin => x.asin(),
        Op::Acos => x.acos(),
        Op::Atan => x.atan(),
        Op::Floor => x.floor(),
        Op::Ceil => x.ceil(),
        Op::ToRadians => x.to_radians(),
        Op::ToDegrees => x.to_degrees(),
    };
    r.to_bits()
}

#[allow(dead_code)]
fn info(robot: &Robot) -> RobotInfo {
    RobotInfo { id: robot.id, position: robot.position, status: robot.status }
}

#[allow(dead_code)]
fn reader(text: &Vec<char>) -> Option<u64> {
    text.iter().collect::<String>().parse::<f64>().ok().map(f64::to_bits)
}

// Make sure Register is imported

#[test]
fn test_basic_program() {
    let source = r#"
    start:          ; Label definition
        push 1.0    ; Push a value
        pop @d1     ; Pop into register
        mov @d2 5.0 ; Move value to register
        jmp start   ; Jump to label
    "#;
    let result = parse_assembly(source, None, &fpu, &reader);
    assert!(
        result.is_ok(),
        "Basic program test failed: {:?}",
        result.err()
    );
    let program = result.unwrap();
    assert_eq!(program.instructions.len(), 4);
    assert_eq!(program.label("start").unwrap(), 0);
    assert!(matches!(program.instructions[3], Instruction::Jmp(0)));
}

#[test]
fn test_constant_expression_simple_arithmetic() {
    let source = r#"
    .const SIMPLE_ADD 5 + 3
    .const SIMPLE_SUB 10 - 4 
    .const SIMPLE_MUL 2 * 3
    .const SIMPLE_DIV 10 / 2
    .const SIMPLE_MOD 10 % 3
    push SIMPLE_ADD
    push SIMPLE_SUB
    push SIMPLE_MUL
    push SIMPLE_DIV
    push SIMPLE_MOD
    "#;

    let result = parse_assembly(source, None, &fpu, &reader);
    assert!(
        result.is_ok(),
        "Simple arithmetic test failed: {:?}",
        result.err()
    );
    let program = result.unwrap();

    // Check each instruction has the correct value
    match &program.instructions[0] {
        Instruction::Push(Operand::Value(v)) => assert_eq!(f64::from_bits(*v), 8.0), // 5 + 3
        _ => panic!("Expected Push instruction with value 8.0"),
    }
    match &program.instructions[1] {
        Instruction::Push(Operand::Value(v)) => assert_eq!(f64::from_bits(*v), 6.0), // 10 - 4
        _ => panic!("Expected Push instruction with value 6.0"),
    }
    match &program.instructions[2] {
        Instruction::Push(Operand::Value(v)) => assert_eq!(f64::from_bits(*v), 6.0), // 2 * 3
        _ => panic!("Expected Push instruction with value 6.0"),
    }
    match &program.instructions[3] {
        Instruction::Push(Operand::Value(v)) => assert_eq!(f64::from_bits(*v), 5.0), // 10 / 2
        _ => panic!("Expected Push instruction with value 5.0"),
    }
    match &program.instructions[4] {
        Instruction::Push(Operand::Value(v)) => assert_eq!(f64::from_bits(*v), 1.0), // 10 % 3
        _ => panic!("Expected Push instruction with value 1.0"),
    }
}

#[test]
fn test_constant_expression_operator_precedence() {
    let source = r#"
    .const PRECEDENCE_1 2 + 3 * 4       ; Should be 14, not 20
    .const PRECEDENCE_2 (2 + 3) * 4     ; Should be 20
    .const PRECEDENCE_3 10 - 6 / 2      ; Should be 7, not 2
    .const PRECEDENCE_4 (10 - 6) / 2    ; Should be 2
    .const COMPLEX 2 * (3 + 4) - 5 / (2 + 3)  ; Should be 13
    push PRECEDENCE_1
    push PRECEDENCE_2
    push PRECEDENCE_3
    push PRECEDENCE_4
    push COMPLEX
    "#;

    let result = parse_assembly(source, None, &fpu, &reader);
    assert!(
        result.is_ok(),
        "Operator precedence test failed: {:?}",
        result.err()
    );
    let program = result.unwrap();

    match &program.instructions[0] {
        Instruction::Push(Operand::Value(v)) => assert_eq!(f64::from_bits(*v), 14.0), // 2 + 3 * 4
        _ => panic!("Expected Push instruction with value 14.0"),
    }
    match &program.instructions[1] {
        Instruction::Push(Operand::Value(v)) => assert_eq!(f64::from_bits(*v), 20.0), // (2 + 3) * 4
        _ => panic!("Expected Push instruction with value 20.0"),
    }
    match &program.instructions[2] {
        Instruction::Push(Operand::Value(v)) => assert_eq!(f64::from_bits(*v), 7.0), // 10 - 6 / 2
        _ => panic!("Expected Push instruction with value 7.0"),
    }
    match &program.instructions[3] {
        Instruction::Push(Operand::Value(v)) => assert_eq!(f64::from_bits(*v), 2.0), // (10 - 6) / 2
        _ => panic!("Expected Push instruction with value 2.0"),
    }
    match &program.instructions[4] {
        Instruction::Push(Operand::Value(v)) => assert_eq!(f64::from_bits(*v), 14.0 - 1.0), // 2 * (3 + 4) - 5 / (2 + 3)
        _ => panic!("Expected Push instruction with value 13.0"),
    }
}

#[test]
fn test_constant_expression_referencing_other_constants() {
    let source = r#"
    .const BASE 10
    .const DERIVED BASE * 2
    .const LEVEL_2 DERIVED + 5
    .const COMBINED BASE + DERIVED + LEVEL_2  ; Should be 10 + 20 + 25 = 55
    push BASE
    push DERIVED
    push LEVEL_2
    push COMBINED
    "#;

    let result = parse_assembly(source, None, &fpu, &reader);
    assert!(
        result.is_ok(),
        "Referencing other constants test failed: {:?}",
        result.err()
    );
    let program = result.unwrap();

    match &program.instructions[0] {
        Instruction::Push(Operand::Value(v)) => assert_eq!(f64::from_bits(*v), 10.0),
        _ => panic!("Expected Push instruction with value 10.0"),
    }
    match &program.instructions[1] {
        Instruction::Push(Operand::Value(v)) => assert_eq!(f64::from_bits(*v), 20.0),
        _ => panic!("Expected Push instruction with value 20.0"),
    }
    match &program.instructions[2] {
        Instruction::Push(Operand::Value(v)) => assert_eq!(f64::from_bits(*v), 25.0),
        _ => panic!("Expected Push instruction with value 25.0"),
    }
    match &program.instructions[3] {
        Instruction::Push(Operand::Value(v)) => assert_eq!(f64::from_bits(*v), 55.0),
        _ => panic!("Expected Push instruction with value 55.0"),
    }
}

#[test]
fn test_constant_expression_with_predefined_constants() {
    let mut predefined: Vec<Constant> = Vec::new();
    predefined.push(Constant { name: "ARENA_WIDTH".to_string(), value: w(20.0) });
    predefined.push(Constant { name: "ARENA_HEIGHT".to_string(), value: w(15.0) });
    predefined.push(Constant { name: "PI".to_string(), value: w(PI) });

    let source = r#"
    .const CENTER_X ARENA_WIDTH / 2
    .const CENTER_Y ARENA_HEIGHT / 2
    .const AREA ARENA_WIDTH * ARENA_HEIGHT
    push CENTER_X
    push CENTER_Y
    push AREA
    "#;

    let result = parse_assembly(source, Some(&predefined), &fpu, &reader);
    assert!(
        result.is_ok(),
        "Using predefined constants test failed: {:?}",
        result.err()
    );
    let program = result.unwrap();

    match &program.instructions[0] {
        Instruction::Push(Operand::Value(v)) => assert_eq!(f64::from_bits(*v), 10.0), // 20 / 2
        _ => panic!("Expected Push instruction with value 10.0"),
    }
    match &program.instructions[1] {
        Instruction::Push(Operand::Value(v)) => assert_eq!(f64::from_bits(*v), 7.5), // 15 / 2
        _ => panic!("Expected Push instruction with value 7.5"),
    }
    match &program.instructions[2] {
        Instruction::Push(Operand::Value(v)) => assert_eq!(f64::from_bits(*v), 300.0), // 20 * 15
        _ => panic!("Expected Push instruction with value 300.0"),
    }
}

#[test]
fn test_constant_expression_errors() {
    // Test division by zero
    let source1 = ".const DIV_ZERO 5 / 0";
    let result1 = parse_assembly(source1, None, &fpu, &reader);
    assert!(result1.is_err());
    let err1 = result1.err().unwrap();
    assert!(err1.message.contains("Division by zero"));

    // Test modulo by zero
    let source2 = ".const MOD_ZERO 5 % 0";
    let result2 = parse_assembly(source2, None, &fpu, &reader);
    assert!(result2.is_err());
    let err2 = result2.err().unwrap();
    assert!(err2.message.contains("Modulo by zero"));

    // Test undefined constant
    let source3 = ".const UNDEFINED NONEXISTENT + 5";
    let result3 = parse_assembly(source3, None, &fpu, &reader);
    assert!(result3.is_err());
    let err3 = result3.err().unwrap();
    assert!(err3.message.contains("Unknown token"));

    // Test unbalanced parentheses
    let source4 = ".const UNBALANCED (5 + 3 * 2";
    let result4 = parse_assembly(source4, None, &fpu, &reader);
    assert!(result4.is_err());
    let err4 = result4.err().unwrap();
    assert!(err4.message.contains("Missing closing parenthesis"));

    // Test unexpected token
    let source5 = ".const UNEXPECTED 5 + * 3";
    let result5 = parse_assembly(source5, None, &fpu, &reader);
    assert!(result5.is_err());
}

#[test]
fn test_backward_compatibility() {
    // Make sure the old style constants still work
    let source = r#"
    .const OLD_STYLE 42.5
    push OLD_STYLE
    "#;

    let result = parse_assembly(source, None, &fpu, &reader);
    assert!(
        result.is_ok(),
        "Backward compatibility test failed: {:?}",
        result.err()
    );
    let program = result.unwrap();

    match &program.instructions[0] {
        Instruction::Push(Operand::Value(v)) => assert_eq!(f64::from_bits(*v), 42.5),
        _ => panic!("Expected Push instruction with value 42.5"),
    }
}

#[test]
fn test_labels_and_jumps() {
    let source = r#"
        jmp target
    target: 
        add
        jz target
    "#;
    let result = parse_assembly(source, None, &fpu, &reader);
    assert!(
        result.is_ok(),
        "Labels and jumps test failed: {:?}",
        result.err()
    );
    let program = result.unwrap();
    assert_eq!(program.instructions.len(), 3);
    assert_eq!(program.label("target").unwrap(), 1); // target label points to 'add'
    assert!(matches!(program.instructions[0], Instruction::Jmp(1)));
    assert!(matches!(program.instructions[1], Instruction::Add));
    assert!(matches!(program.instructions[2], Instruction::Jz(1)));
}

#[test]
fn test_user_constants() {
    let source = ".const MY_VAL 10.5\n push MY_VAL";
    let result = parse_assembly(source, None, &fpu, &reader);
    assert!(
        result.is_ok(),
        "User constants test failed: {:?}",
        result.err()
    );
    let program = result.unwrap();
    assert_eq!(program.instructions.len(), 1);
    assert_eq!(
        program.instructions[0],
        Instruction::Push(Operand::Value(w(10.5))));
    // Constants are no longer stored in ParsedProgram
    // assert_eq!(*program.constants.get("MY_VAL").unwrap(), 10.5);
}

#[test]
fn test_predefined_constants() {
    let mut predefined: Vec<Constant> = Vec::new();
    predefined.push(Constant { name: "ARENA_W".to_string(), value: w(20.0) });
    predefined.push(Constant { name: "ARENA_H".to_string(), value: w(15.0) });

    let source = "push ARENA_W\nmov @d1 ARENA_H";
    let result = parse_assembly(source, Some(&predefined), &fpu, &reader);
    assert!(
        result.is_ok(),
        "Predefined constants test failed: {:?}",
        result.err()
    );
    let program = result.unwrap();
    assert_eq!(program.instructions.len(), 2);
    assert_eq!(
        program.instructions[0],
        Instruction::Push(Operand::Value(w(20.0))));
    assert_eq!(
        program.instructions[1],
        Instruction::Mov(Register::D1, Operand::Value(w(15.0))));
}

#[test]
fn test_mixed_constants() {
    let mut predefined: Vec<Constant> = Vec::new();
    predefined.push(Constant { name: "GRAVITY".to_string(), value: w(9.81) });

    let source = ".const SPEED_LIMIT 100.0\npush GRAVITY\npush SPEED_LIMIT";
    let result = parse_assembly(source, Some(&predefined), &fpu, &reader);
    assert!(
        result.is_ok(),
        "Mixed constants test failed: {:?}",
        result.err()
    );
    let program = result.unwrap();
    assert_eq!(program.instructions.len(), 2);
    assert_eq!(
        program.instructions[0],
        Instruction::Push(Operand::Value(w(9.81))));
    assert_eq!(
        program.instructions[1],
        Instruction::Push(Operand::Value(w(100.0))));
}

#[test]
fn test_redefine_predefined_constant_error() {
    let mut predefined: Vec<Constant> = Vec::new();
    predefined.push(Constant { name: "BUILT_IN".to_string(), value: w(1.0) });

    let source = ".const BUILT_IN 2.0\npush BUILT_IN";
    let result = parse_assembly(source, Some(&predefined), &fpu, &reader);
    assert!(result.is_err());
    let err = result.err().unwrap();
    assert!(
        err.message
            .contains("Attempted to redefine built-in constant: BUILT_IN")
    );
}

#[test]
fn test_duplicate_user_constant_error() {
    let source = ".const MY_CONST 1.0\n.const MY_CONST 2.0";
    let result = parse_assembly(source, None, &fpu, &reader);
    assert!(result.is_err());
    let err = result.err().unwrap();
    assert!(
        err.message
            .contains("Duplicate constant definition: MY_CONST")
    );
}

#[test]
fn test_parse_errors() {
    assert!(parse_assembly("invalid_instruction", None, &fpu, &reader).is_err());
    assert!(parse_assembly("push", None, &fpu, &reader).is_err()); // Missing operand
    assert!(parse_assembly("pop @invalid", None, &fpu, &reader).is_err()); // Invalid register
    assert!(parse_assembly("jmp non_existent_label", None, &fpu, &reader).is_err()); // Unknown label
    assert!(parse_assembly("label1:\nlabel1:", None, &fpu, &reader).is_err()); // Duplicate label
    assert!(parse_assembly(".const B", None, &fpu, &reader).is_err()); // Invalid const format
    assert!(parse_assembly(":", None, &fpu, &reader).is_err()); // Empty label
    assert!(parse_assembly("mov @d1", None, &fpu, &reader).is_err()); // Missing operand
    assert!(parse_assembly("cmp @d1", None, &fpu, &reader).is_err()); // Missing operand
}

#[test]
fn test_parse_all_instructions() {
    // More comprehensive test touching most instructions
    let source = r#"
    .const VAL 99.0
    start:
        push 1.0
        push @d1
        pop @d2
        pop
        dup
        swap
        mov @d3 VAL
        mov @index 0
        lod @d4
        sto 42.0
        cmp @d3 100.0
        add 
        sub
        mul
        div 
        mod
        divmod
        and
        or
        xor
        shl
        shr
        jmp start
        jz start
        jnz start
        je start    ; alias for jz
        jne start   ; alias for jnz
        jl start
        jle start
        jg start
        jge start
        select 1
        deselect
        rotate 45.0
        drive 0.5
    "#;
    let result = parse_assembly(source, None, &fpu, &reader);
    assert!(
        result.is_ok(),
        "Parse all instructions failed: {:?}",
        result.err()
    );
    let program = result.unwrap();
    // Count instructions manually: 38 (including divmod, lod, sto)
    assert_eq!(
        program.instructions.len(),
        35,
        "Parsed instruction count mismatch"
    );
}

#[test]
fn test_parse_rotate_register() {
    let source = "rotate @d1";
    let result = parse_assembly(source, None, &fpu, &reader);
    assert!(result.is_ok());
    let program = result.unwrap();
    assert_eq!(program.instructions.len(), 1);
    assert!(matches!(
        program.instructions[0],
        Instruction::Rotate(Operand::Register(Register::D1))
    ));
}

#[test]
fn test_parse_memory_ops() {
    let source = r#"
        mov @index 0  ; Set memory index to 0
        sto 42        ; Store 42 at memory[0] and increment @index
        sto @d1       ; Store value of @d1 at memory[1] and increment @index
        mov @index 0  ; Reset index to 0
        lod @d2       ; Load memory[0] into @d2 and increment @index
        lod @d3       ; Load memory[1] into @d3 and increment @index
    "#;

    let result = parse_assembly(source, None, &fpu, &reader);
    assert!(
        result.is_ok(),
        "Memory ops parsing failed: {:?}",
        result.err()
    );

    let program = result.unwrap();
    assert_eq!(program.instructions.len(), 6, "Should have 6 instructions");

    // Check the instructions
    match &program.instructions[0] {
        Instruction::Mov(Register::Index, Operand::Value(val)) => {
            assert_eq!(f64::from_bits(*val), 0.0);
        }
        _ => panic!("Expected Mov @index 0 instruction"),
    }

    match &program.instructions[1] {
        Instruction::Sto(Operand::Value(val)) => {
            assert_eq!(f64::from_bits(*val), 42.0);
        }
        _ => panic!("Expected Sto 42 instruction"),
    }

    match &program.instructions[2] {
        Instruction::Sto(Operand::Register(reg)) => {
            assert_eq!(*reg, Register::D1);
        }
        _ => panic!("Expected Sto @d1 instruction"),
    }

    match &program.instructions[3] {
        Instruction::Mov(Register::Index, Operand::Value(val)) => {
            assert_eq!(f64::from_bits(*val), 0.0);
        }
        _ => panic!("Expected Mov @index 0 instruction"),
    }

    match &program.instructions[4] {
        Instruction::Lod(reg) => {
            assert_eq!(*reg, Register::D2);
        }
        _ => panic!("Expected Lod @d2 instruction"),
    }

    match &program.instructions[5] {
        Instruction::Lod(reg) => {
            assert_eq!(*reg, Register::D3);
        }
        _ => panic!("Expected Lod @d3 instruction"),
    }
}

#[test]
fn test_parse_arithmetic_stack_ops() {
    // Test parsing of stack-based arithmetic operations
    let source = r#"
        add     ; Stack based add
        sub     ; Stack based subtract
        mul     ; Stack based multiply
        div     ; Stack based divide
        mod     ; Stack based modulo
        divmod  ; Stack based divmod
        pow     ; Stack based power
        sqrt    ; Stack based square root
        log     ; Stack based logarithm
        sin     ; Stack based sine
        cos     ; Stack based cosine
        tan     ; Stack based tangent
        asin    ; Stack based arcsine
        acos    ; Stack based arccosine
        atan    ; Stack based arctangent
        atan2   ; Stack based arctangent2
        abs     ; Stack based absolute value
    "#;

    let result = parse_assembly(source, None, &fpu, &reader);
    assert!(
        result.is_ok(),
        "Parsing stack arithmetic operations failed: {:?}",
        result.err()
    );
    let program = result.unwrap();
    
    // Check all 17 instructions
    assert_eq!(program.instructions.len(), 17, "Expected 17 stack arithmetic instructions");
    
    // Verify each instruction type
    assert!(matches!(program.instructions[0], Instruction::Add));
    assert!(matches!(program.instructions[1], Instruction::Sub));
    assert!(matches!(program.instructions[2], Instruction::Mul));
    assert!(matches!(program.instructions[3], Instruction::Div));
    assert!(matches!(program.instructions[4], Instruction::Mod));
    assert!(matches!(program.instructions[5], Instruction::Divmod));
    assert!(matches!(program.instructions[6], Instruction::Pow));
    assert!(matches!(program.instructions[7], Instruction::Sqrt));
    assert!(matches!(program.instructions[8], Instruction::Log));
    assert!(matches!(program.instructions[9], Instruction::Sin));
    assert!(matches!(program.instructions[10], Instruction::Cos));
    assert!(matches!(program.instructions[11], Instruction::Tan));
    assert!(matches!(program.instructions[12], Instruction::Asin));
    assert!(matches!(program.instructions[13], Instruction::Acos));
    assert!(matches!(program.instructions[14], Instruction::Atan));
    assert!(matches!(program.instructions[15], Instruction::Atan2));
    assert!(matches!(program.instructions[16], Instruction::Abs));
}

#[test]
fn test_parse_arithmetic_operand_ops() {
    // Test parsing of operand-based arithmetic operations
    let source = r#"
        add 5.0 10.0       ; Operand based add
        sub @d0 2.0        ; Operand based subtract
        mul 3.0 @d1        ; Operand based multiply
        div @d2 @d3        ; Operand based divide
        mod 10.0 3.0       ; Operand based modulo
        pow 2.0 3.0        ; Operand based power
        sqrt 16.0          ; Operand based square root
        log 2.718          ; Operand based logarithm
        sin 90.0           ; Operand based sine
        cos 0.0            ; Operand based cosine
        tan 45.0           ; Operand based tangent
        asin 0.5           ; Operand based arcsine
        acos 0.0           ; Operand based arccosine
        atan 1.0           ; Operand based arctangent
        atan2 1.0 1.0      ; Operand based arctangent2
        abs -5.0           ; Operand based absolute value
    "#;

    let result = parse_assembly(source, None, &fpu, &reader);
    assert!(
        result.is_ok(),
        "Parsing operand arithmetic operations failed: {:?}",
        result.err()
    );
    let program = result.unwrap();
    
    // Check all 16 instructions (no operand form for divmod)
    assert_eq!(program.instructions.len(), 16, "Expected 16 operand arithmetic instructions");
    
    // Verify each instruction type and its operands
    match &program.instructions[0] {
        Instruction::AddOp(left, right) => {
            assert_eq!(left, &Operand::Value(w(5.0)));
            assert_eq!(right, &Operand::Value(w(10.0)));
        },
        _ => panic!("Expected AddOp instruction"),
    }
    
    match &program.instructions[1] {
        Instruction::SubOp(left, right) => {
            assert!(matches!(left, &Operand::Register(Register::D0)));
            assert_eq!(right, &Operand::Value(w(2.0)));
        },
        _ => panic!("Expected SubOp instruction"),
    }
    
    match &program.instructions[2] {
        Instruction::MulOp(left, right) => {
            assert_eq!(left, &Operand::Value(w(3.0)));
            assert!(matches!(right, &Operand::Register(Register::D1)));
        },
        _ => panic!("Expected MulOp instruction"),
    }
    
    match &program.instructions[3] {
        Instruction::DivOp(left, right) => {
            assert!(matches!(left, &Operand::Register(Register::D2)));
            assert!(matches!(right, &Operand::Register(Register::D3)));
        },
        _ => panic!("Expected DivOp instruction"),
    }
    
    match &program.instructions[4] {
        Instruction::ModOp(left, right) => {
            assert_eq!(left, &Operand::Value(w(10.0)));
            assert_eq!(right, &Operand::Value(w(3.0)));
        },
        _ => panic!("Expected ModOp instruction"),
    }
    
    match &program.instructions[5] {
        Instruction::PowOp(left, right) => {
            assert_eq!(left, &Operand::Value(w(2.0)));
            assert_eq!(right, &Operand::Value(w(3.0)));
        },
        _ => panic!("Expected PowOp instruction"),
    }
    
    match &program.instructions[6] {
        Instruction::SqrtOp(op) => {
            assert_eq!(op, &Operand::Value(w(16.0)));
        },
        _ => panic!("Expected SqrtOp instruction"),
    }
    
    match &program.instructions[7] {
        Instruction::LogOp(op) => {
            assert_eq!(op, &Operand::Value(w(2.718)));
        },
        _ => panic!("Expected LogOp instruction"),
    }
    
    match &program.instructions[8] {
        Instruction::SinOp(op) => {
            assert_eq!(op, &Operand::Value(w(90.0)));
        },
        _ => panic!("Expected SinOp instruction"),
    }
    
    match &program.instructions[9] {
        Instruction::CosOp(op) => {
            assert_eq!(op, &Operand::Value(w(0.0)));
        },
        _ => panic!("Expected CosOp instruction"),
    }
    
    match &program.instructions[10] {
        Instruction::TanOp(op) => {
            assert_eq!(op, &Operand::Value(w(45.0)));
        },
        _ => panic!("Expected TanOp instruction"),
    }
    
    match &program.instructions[11] {
        Instruction::AsinOp(op) => {
            assert_eq!(op, &Operand::Value(w(0.5)));
        },
        _ => panic!("Expected AsinOp instruction"),
    }
    
    match &program.instructions[12] {
        Instruction::AcosOp(op) => {
            assert_eq!(op, &Operand::Value(w(0.0)));
        },
        _ => panic!("Expected AcosOp instruction"),
    }
    
    match &program.instructions[13] {
        Instruction::AtanOp(op) => {
            assert_eq!(op, &Operand::Value(w(1.0)));
        },
        _ => panic!("Expected AtanOp instruction"),
    }
    
    match &program.instructions[14] {
        Instruction::Atan2Op(left, right) => {
            assert_eq!(left, &Operand::Value(w(1.0)));
            assert_eq!(right, &Operand::Value(w(1.0)));
        },
        _ => panic!("Expected Atan2Op instruction"),
    }
    
    match &program.instructions[15] {
        Instruction::AbsOp(op) => {
            assert_eq!(op, &Operand::Value(w(-5.0)));
        },
        _ => panic!("Expected AbsOp instruction"),
    }
}

#[test]
fn test_parse_bitwise_stack_ops() {
    // Test parsing of stack-based bitwise operations
    let source = r#"
        and     ; Stack based AND
        or      ; Stack based OR
        xor     ; Stack based XOR
        not     ; Stack based NOT
        shl     ; Stack based shift left
        shr     ; Stack based shift right
    "#;

    let result = parse_assembly(source, None, &fpu, &reader);
    assert!(
        result.is_ok(),
        "Parsing stack bitwise operations failed: {:?}",
        result.err()
    );
    let program = result.unwrap();
    
    // Check all 6 instructions
    assert_eq!(program.instructions.len(), 6, "Expected 6 stack bitwise instructions");
    
    // Verify each instruction type
    assert!(matches!(program.instructions[0], Instruction::And));
    assert!(matches!(program.instructions[1], Instruction::Or));
    assert!(matches!(program.instructions[2], Instruction::Xor));
    assert!(matches!(program.instructions[3], Instruction::Not));
    assert!(matches!(program.instructions[4], Instruction::Shl));
    assert!(matches!(program.instructions[5], Instruction::Shr));
}

#[test]
fn test_parse_bitwise_operand_ops() {
    // Test parsing of operand-based bitwise operations
    let source = r#"
        and 5 10        ; Operand based AND
        or @d0 2        ; Operand based OR
        xor 3 @d1       ; Operand based XOR
        not 15          ; Operand based NOT
        shl @d2 4       ; Operand based shift left
        shr 16 2        ; Operand based shift right
    "#;

    let result = parse_assembly(source, None, &fpu, &reader);
    assert!(
        result.is_ok(),
        "Parsing operand bitwise operations failed: {:?}",
        result.err()
    );
    let program = result.unwrap();
    
    // Check all 6 instructions
    assert_eq!(program.instructions.len(), 6, "Expected 6 operand bitwise instructions");
    
    // Verify each instruction type and its operands
    match &program.instructions[0] {
        Instruction::AndOp(left, right) => {
            assert_eq!(left, &Operand::Value(w(5.0)));
            assert_eq!(right, &Operand::Value(w(10.0)));
        },
        _ => panic!("Expected AndOp instruction"),
    }
    
    match &program.instructions[1] {
        Instruction::OrOp(left, right) => {
            assert!(matches!(left, &Operand::Register(Register::D0)));
            assert_eq!(right, &Operand::Value(w(2.0)));
        },
        _ => panic!("Expected OrOp instruction"),
    }
    
    match &program.instructions[2] {
        Instruction::XorOp(left, right) => {
            assert_eq!(left, &Operand::Value(w(3.0)));
            assert!(matches!(right, &Operand::Register(Register::D1)));
        },
        _ => panic!("Expected XorOp instruction"),
    }
    
    match &program.instructions[3] {
        Instruction::NotOp(op) => {
            assert_eq!(op, &Operand::Value(w(15.0)));
        },
        _ => panic!("Expected NotOp instruction"),
    }
    
    match &program.instructions[4] {
        Instruction::ShlOp(left, right) => {
            assert!(matches!(left, &Operand::Register(Register::D2)));
            assert_eq!(right, &Operand::Value(w(4.0)));
        },
        _ => panic!("Expected ShlOp instruction"),
    }
    
    match &program.instructions[5] {
        Instruction::ShrOp(left, right) => {
            assert_eq!(left, &Operand::Value(w(16.0)));
            assert_eq!(right, &Operand::Value(w(2.0)));
        },
        _ => panic!("Expected ShrOp instruction"),
    }
}

#[test]
fn test_parse_control_flow_ops() {
    // Test parsing of control flow operations
    let source = r#"
    start:
        jmp start
        jz start
        jnz start
        je start    ; alias for jz
        jne start   ; alias for jnz
        jl start
        jle start
        jg start
        jge start
        call start
        ret
        loop start
    "#;

    let result = parse_assembly(source, None, &fpu, &reader);
    assert!(
        result.is_ok(),
        "Parsing control flow operations failed: {:?}",
        result.err()
    );
    let program = result.unwrap();
    
    // Check 12 instructions
    assert_eq!(program.instructions.len(), 12, "Expected 12 control flow instructions");
    
    // Verify each instruction type
    assert!(matches!(program.instructions[0], Instruction::Jmp(0)));
    assert!(matches!(program.instructions[1], Instruction::Jz(0)));
    assert!(matches!(program.instructions[2], Instruction::Jnz(0)));
    assert!(matches!(program.instructions[3], Instruction::Jz(0))); // je alias
    assert!(matches!(program.instructions[4], Instruction::Jnz(0))); // jne alias
    assert!(matches!(program.instructions[5], Instruction::Jl(0)));
    assert!(matches!(program.instructions[6], Instruction::Jle(0)));
    assert!(matches!(program.instructions[7], Instruction::Jg(0)));
    assert!(matches!(program.instructions[8], Instruction::Jge(0)));
    assert!(matches!(program.instructions[9], Instruction::Call(0)));
    assert!(matches!(program.instructions[10], Instruction::Ret));
    assert!(matches!(program.instructions[11], Instruction::Loop(0)));
}

#[test]
fn test_parse_component_ops() {
    // Test parsing of component operations
    let source = r#"
        select 1       ; Select component 1 (drive)
        deselect       ; Deselect current component
        rotate 45.0    ; Rotate component
        drive 0.5      ; Set drive velocity
    "#;

    let result = parse_assembly(source, None, &fpu, &reader);
    assert!(
        result.is_ok(),
        "Parsing component operations failed: {:?}",
        result.err()
    );
    let program = result.unwrap();
    
    // Check 4 instructions
    assert_eq!(program.instructions.len(), 4, "Expected 4 component instructions");
    
    // Verify each instruction type and its operands
    match &program.instructions[0] {
        Instruction::Select(op) => {
            assert_eq!(op, &Operand::Value(w(1.0)));
        },
        _ => panic!("Expected Select instruction"),
    }
    
    assert!(matches!(program.instructions[1], Instruction::Deselect));
    
    match &program.instructions[2] {
        Instruction::Rotate(op) => {
            assert_eq!(op, &Operand::Value(w(45.0)));
        },
        _ => panic!("Expected Rotate instruction"),
    }
    
    match &program.instructions[3] {
        Instruction::Drive(op) => {
            assert_eq!(op, &Operand::Value(w(0.5)));
        },
        _ => panic!("Expected Drive instruction"),
    }
}

#[test]
fn test_parse_stack_and_register_ops() {
    // Test parsing of stack and register operations
    let source = r#"
        push 42.0      ; Push value to stack
        push @d0       ; Push register value to stack
        pop @d1        ; Pop from stack to register
        pop            ; Pop and discard
        dup            ; Duplicate top stack value
        swap           ; Swap top two stack values
        mov @d2 10.0   ; Move value to register
        mov @d3 @d4    ; Move register to register
        lod @d5        ; Load from memory to register
        sto 3.14       ; Store value to memory
        sto @d6        ; Store register value to memory
        cmp @d7 @d8    ; Compare registers
    "#;

    let result = parse_assembly(source, None, &fpu, &reader);
    assert!(
        result.is_ok(),
        "Parsing stack and register operations failed: {:?}",
        result.err()
    );
    let program = result.unwrap();
    
    // Check 12 instructions
    assert_eq!(program.instructions.len(), 12, "Expected 12 stack/register instructions");
    
    // Verify each instruction type and its operands
    match &program.instructions[0] {
        Instruction::Push(op) => {
            assert_eq!(op, &Operand::Value(w(42.0)));
        },
        _ => panic!("Expected Push instruction with value"),
    }
    
    match &program.instructions[1] {
        Instruction::Push(op) => {
            assert!(matches!(op, &Operand::Register(Register::D0)));
        },
        _ => panic!("Expected Push instruction with register"),
    }
    
    match &program.instructions[2] {
        Instruction::Pop(reg) => {
            assert_eq!(*reg, Register::D1);
        },
        _ => panic!("Expected Pop instruction to register"),
    }
    
    assert!(matches!(program.instructions[3], Instruction::PopDiscard));
    assert!(matches!(program.instructions[4], Instruction::Dup));
    assert!(matches!(program.instructions[5], Instruction::Swap));
    
    match &program.instructions[6] {
        Instruction::Mov(reg, op) => {
            assert_eq!(*reg, Register::D2);
            assert_eq!(op, &Operand::Value(w(10.0)));
        },
        _ => panic!("Expected Mov instruction with value"),
    }
    
    match &program.instructions[7] {
        Instruction::Mov(reg, op) => {
            assert_eq!(*reg, Register::D3);
            assert!(matches!(op, &Operand::Register(Register::D4)));
        },
        _ => panic!("Expected Mov instruction with registers"),
    }
    
    match &program.instructions[8] {
        Instruction::Lod(reg) => {
            assert_eq!(*reg, Register::D5);
        },
        _ => panic!("Expected Lod instruction"),
    }
    
    match &program.instructions[9] {
        Instruction::Sto(op) => {
            assert_eq!(op, &Operand::Value(w(3.14)));
        },
        _ => panic!("Expected Sto instruction with value"),
    }
    
    match &program.instructions[10] {
        Instruction::Sto(op) => {
            assert!(matches!(op, &Operand::Register(Register::D6)));
        },
        _ => panic!("Expected Sto instruction with register"),
    }
    
    match &program.instructions[11] {
        Instruction::Cmp(left, right) => {
            assert!(matches!(left, &Operand::Register(Register::D7)));
            assert!(matches!(right, &Operand::Register(Register::D8)));
        },
        _ => panic!("Expected Cmp instruction"),
    }
}

#[test]
fn test_parse_misc_ops() {
    // Test parsing of miscellaneous operations
    let source = r#"
        nop            ; No operation
        dbg 123.456    ; Debug value
        dbg @d0        ; Debug register value
    "#;

    let result = parse_assembly(source, None, &fpu, &reader);
    assert!(
        result.is_ok(),
        "Parsing miscellaneous operations failed: {:?}",
        result.err()
    );
    let program = result.unwrap();
    
    // Check 3 instructions
    assert_eq!(program.instructions.len(), 3, "Expected 3 misc instructions");
    
    // Verify each instruction type
    assert!(matches!(program.instructions[0], Instruction::Nop));
    
    match &program.instructions[1] {
        Instruction::Dbg(op) => {
            assert_eq!(op, &Operand::Value(w(123.456)));
        },
        _ => panic!("Expected Dbg instruction with value"),
    }
    
    match &program.instructions[2] {
        Instruction::Dbg(op) => {
            assert!(matches!(op, &Operand::Register(Register::D0)));
        },
        _ => panic!("Expected Dbg instruction with register"),
    }
}
