use bot_arena::fpu::Op;
use bot_arena::robot::{Robot, RobotInfo};
use bot_arena::vm::expression::{find, parse_constant_expression, tokenize, ExpressionError};
use bot_arena::vm::operand::Operand;
use bot_arena::vm::parser::{find_register, parse_operand, parse_register, ParseErrorKind};
use bot_arena::vm::registers::Register;
use bot_arena::vm::text;

#[allow(dead_code)]
fn w(x: f64) -> u64 {
    x.to_bits()
}

#[allow(dead_code)]
fn v(bits: u64) -> f64 {
    f64::from_bits(bits)
}

#[allow(dead_code)]
fn fpu(op: Op, a: u64, b: u64) -> u64 {
    let x = f64::from_bits(a);
    let y = f64::from_bits(b);
    let r = match op {
        Op::Add => x + y,
        Op::Sub => x - y,
        Op::Mul => x * y,
        Op::Div => x / y,
        Op::Rem => x % y,
        Op::RemEuclid => x.rem_euclid(y),
        Op::Pow => x.powf(y),
        Op::Atan2 => x.atan2(y),
        Op::Sqrt => x.sqrt(),
        Op::Ln => x.ln(),
        Op::Sin => x.sin(),
        Op::Cos => x.cos(),
        Op::Tan => x.tan(),
        Op::Asin => x.asin(),
        Op::Acos => x.acos(),
        Op::Atan => x.atan(),
        Op::Floor => x.floor(),
        Op::Ceil => x.ceil(),
        Op::ToRadians => x.to_radians(),
        Op::ToDegrees => x.to_degrees(),
    };
    r.to_bits()
}

#[allow(dead_code)]
fn info(robot: &Robot) -> RobotInfo {
    RobotInfo { id: robot.id, position: robot.position, status: robot.status }
}

#[allow(dead_code)]
fn reader(text: &Vec<char>) -> Option<u64> {
    text.iter().collect::<String>().parse::<f64>().ok().map(f64::to_bits)
}

fn chars(s: &str) -> Vec<char> {
    s.chars().collect()
}

fn strings(parts: Vec<Vec<char>>) -> Vec<String> {
    parts.into_iter().map(|p| p.into_iter().collect()).collect()
}

#[test]
fn text_is_cut_at_white_space() {
    assert_eq!(text::chars_of("a\u{e9}\u{1F600}b"), chars("a\u{e9}\u{1F600}b"));
    assert_eq!(text::trimmed(&chars("  \t push 1 \r\n")), chars("push 1"));
    assert_eq!(text::trimmed(&chars("\u{a0}\u{3000}x\u{2003}")), chars("x"));
    assert_eq!(text::trimmed(&chars(" \t ")), chars(""));
    assert_eq!(text::trimmed(&chars("")), chars(""));
    assert_eq!(
        strings(text::split_words(&chars("  mov\t@d1   5.0 \u{2028} x"))),
        vec!["mov", "@d1", "5.0", "x"]
    );
    assert!(text::split_words(&chars(" \n ")).is_empty());
    for c in ['\t', '\n', '\u{b}', '\u{c}', '\r', ' ', '\u{85}', '\u{a0}', '\u{1680}', '\u{2000}', '\u{200a}', '\u{2028}', '\u{2029}', '\u{202f}', '\u{205f}', '\u{3000}'] {
        assert!(text::is_whitespace(c), "{:?}", c);
    }
    for code in 0..0x3100u32 {
        if let Some(c) = char::from_u32(code) {
            assert_eq!(text::is_whitespace(c), c.is_whitespace(), "{:?}", c);
        }
    }
    assert_eq!(text::slice(&chars("abcdef"), 2, 4), chars("cd"));
    assert!(text::same(&chars("abc"), &chars("abc")));
    assert!(!text::same(&chars("abc"), &chars("abd")));
    assert!(!text::same(&chars("abc"), &chars("ab")));
    assert_eq!(text::after_spaces(&chars("  ab"), 0), 2);
    assert_eq!(text::after_spaces(&chars("  "), 1), 2);
    assert_eq!(text::end_of_word(&chars("ab cd"), 0), 2);
    assert_eq!(text::end_of_word(&chars("ab cd"), 3), 5);
    assert_eq!(text::position(&chars("a;b;c"), ';', 0), 1);
    assert_eq!(text::position(&chars("a;b;c"), ';', 2), 3);
    assert_eq!(text::position(&chars("abc"), ';', 0), 3);
    assert_eq!(text::position_of_slashes(&chars("a/b//c")), 3);
    assert_eq!(text::position_of_slashes(&chars("a/b/")), 4);
}

#[test]
fn keywords_are_matched_without_regard_to_case() {
    assert!(text::matches_word(&chars("push"), "push"));
    assert!(text::matches_word(&chars("PuSh"), "push"));
    assert!(!text::matches_word(&chars("pushh"), "push"));
    assert!(!text::matches_word(&chars("pus"), "push"));
    assert!(!text::matches_word(&chars("posh"), "push"));
    // the Kelvin sign is no k, and the dotted capital I no i
    assert!(!text::matches_word(&chars("\u{212a}"), "k"));
    assert!(!text::matches_word(&chars("\u{130}"), "i"));
    assert!(text::starts_with(&chars(".const A 1"), ".const"));
    assert!(text::starts_with(&chars(".constant"), ".const"));
    assert!(!text::starts_with(&chars(".cons"), ".const"));
    assert!(!text::starts_with(&chars(".CONST A 1"), ".const"));
    assert_eq!(find_register(&chars("@D17")), Some(Register::D17));
    assert_eq!(find_register(&chars("@Turret_Direction")), Some(Register::TurretDirection));
    assert_eq!(find_register(&chars("@turretdirection")), Some(Register::TurretDirection));
    assert_eq!(find_register(&chars("@pos_x")), Some(Register::PosX));
    assert_eq!(find_register(&chars("@POSY")), Some(Register::PosY));
    assert_eq!(find_register(&chars("d1")), None);
    assert_eq!(find_register(&chars("@d19")), None);
    let names = [
        "@d0", "@d1", "@d2", "@d3", "@d4", "@d5", "@d6", "@d7", "@d8", "@d9", "@d10", "@d11",
        "@d12", "@d13", "@d14", "@d15", "@d16", "@d17", "@d18", "@c", "@result", "@fault",
        "@index", "@turn", "@cycle", "@rand", "@health", "@power", "@component",
        "@turretdirection", "@drivedirection", "@drivevelocity", "@posx", "@posy",
        "@forwarddistance", "@backwarddistance", "@weaponpower", "@weaponcooldown",
        "@targetdistance", "@targetdirection",
    ];
    let mut seen = Vec::new();
    for name in names {
        let reg = find_register(&chars(name)).unwrap();
        assert!(!seen.contains(&reg));
        seen.push(reg);
    }
    assert_eq!(seen.len(), 40);
}

#[test]
fn registers_and_operands_are_read_from_words() {
    assert_eq!(parse_register(Some(&chars("@Result")), 4).unwrap(), Register::Result);
    let missing = parse_register(None, 4).unwrap_err();
    assert_eq!((missing.line, missing.kind, missing.message.as_str()), (4, ParseErrorKind::MissingRegister, "Missing register"));
    let unknown = parse_register(Some(&chars("@x")), 9).unwrap_err();
    assert_eq!((unknown.line, unknown.kind, unknown.message.as_str()), (9, ParseErrorKind::UnknownRegister, "Unknown register: @x"));

    let constants = vec![(chars("SPEED"), w(2.5)), (chars("@d1"), w(9.0)), (chars("7"), w(8.0)), (chars("SPEED"), w(3.5))];
    assert_eq!(parse_operand(Some(&chars("1.25")), &constants, 1, &reader).unwrap(), Operand::Value(w(1.25)));
    assert_eq!(parse_operand(Some(&chars("SPEED")), &constants, 1, &reader).unwrap(), Operand::Value(w(2.5)));
    // a number comes before a register, a register before a constant
    assert_eq!(parse_operand(Some(&chars("7")), &constants, 1, &reader).unwrap(), Operand::Value(w(7.0)));
    assert_eq!(parse_operand(Some(&chars("@d1")), &constants, 1, &reader).unwrap(), Operand::Register(Register::D1));
    let missing = parse_operand(None, &constants, 2, &reader).unwrap_err();
    assert_eq!((missing.line, missing.kind, missing.message.as_str()), (2, ParseErrorKind::MissingOperand, "Missing operand"));
    let invalid = parse_operand(Some(&chars("speed")), &constants, 3, &reader).unwrap_err();
    assert_eq!(invalid.kind, ParseErrorKind::InvalidOperand);
    assert_eq!(find(&constants, &chars("SPEED")), Some(w(2.5)));
    assert_eq!(find(&constants, &chars("speed")), None);
}

#[test]
fn expressions_are_cut_into_tokens_and_evaluated() {
    assert_eq!(
        strings(tokenize(&chars(" (A+2.5)*-3%x /  7 "))),
        vec!["(", "A", "+", "2.5", ")", "*", "-", "3", "%", "x", "/", "7"]
    );
    assert!(tokenize(&chars("   ")).is_empty());
    let constants = vec![(chars("A"), w(4.0)), (chars("ZERO"), w(0.0))];
    let eval = |text: &str| parse_constant_expression(&chars(text), &constants, &fpu, &reader);
    assert_eq!(eval("42.5").map(v).unwrap(), 42.5);
    assert_eq!(eval("-1e-3").map(v).unwrap(), -0.001);
    assert_eq!(eval("A").map(v).unwrap(), 4.0);
    assert_eq!(eval("1 + 2 * 3").map(v).unwrap(), 7.0);
    assert_eq!(eval("(1 + 2) * 3").map(v).unwrap(), 9.0);
    assert_eq!(eval("10 - 4 - 3").map(v).unwrap(), 3.0);
    assert_eq!(eval("64 / 4 / 2").map(v).unwrap(), 8.0);
    assert_eq!(eval("7 % 4 * 2").map(v).unwrap(), 6.0);
    assert_eq!(eval("--A").map(v).unwrap(), 4.0);
    assert_eq!(eval("-(A + 1) * 2").map(v).unwrap(), -10.0);
    assert_eq!(eval("2*(3+(4-1))").map(v).unwrap(), 12.0);
    assert_eq!(eval("0.1 + 0.2").map(v).unwrap(), 0.1 + 0.2);
    assert_eq!(eval("-7.5 % 2").map(v).unwrap(), -7.5 % 2.0);
    let kind = |text: &str| {
        let e = eval(text).unwrap_err();
        (e.kind, e.token.iter().collect::<String>())
    };
    assert_eq!(kind("1 / ZERO"), (ExpressionError::DivisionByZero, String::new()));
    assert_eq!(kind("1 / -0.0"), (ExpressionError::DivisionByZero, String::new()));
    assert_eq!(kind("1 % (A - 4)"), (ExpressionError::ModuloByZero, String::new()));
    assert_eq!(kind("(1 + 2"), (ExpressionError::UnbalancedParentheses, String::new()));
    assert_eq!(kind("(1 + 2 3)"), (ExpressionError::UnbalancedParentheses, String::new()));
    assert_eq!(kind("1 + B"), (ExpressionError::UnknownToken, "B".to_string()));
    assert_eq!(kind(")"), (ExpressionError::UnknownToken, ")".to_string()));
    assert_eq!(kind("1 +"), (ExpressionError::UnexpectedEnd, String::new()));
    assert_eq!(kind(""), (ExpressionError::UnexpectedEnd, String::new()));
    assert_eq!(kind("1 2"), (ExpressionError::TrailingToken, "2".to_string()));
    assert_eq!(kind("1 )"), (ExpressionError::TrailingToken, ")".to_string()));
    // a literal with an exponent sign is one number only as a whole
    assert_eq!(kind("2 * 1e-3"), (ExpressionError::UnknownToken, "1e".to_string()));
}
