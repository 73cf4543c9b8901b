use bot_arena::fpu::Op;
use bot_arena::robot::{Robot, RobotInfo};
use bot_arena::types::Point;
use bot_arena::utils::{clamp, deg_to_rad, lerp_f64, lerp_point, rad_to_deg};

#[allow(dead_code)]
fn w(x: f64) -> u64 {
    x.to_bits()
}

#[allow(dead_code)]
fn v(bits: u64) -> f64 {
    f64::from_bits(bits)
}

#[allow(dead_code)]
fn fpu(op: Op, a: u64, b: u64) -> u64 {
    let x = f64::from_bits(a);
    let y = f64::from_bits(b);
    let r = match op {
        Op::Add => x + y,
        Op::Sub => x - y,
        Op::Mul => x * y,
        Op::Div => x / y,
        Op::Rem => x % y,
        Op::RemEuclid => x.rem_euclid(y),
        Op::Pow => x.powf(y),
        Op::Atan2 => x.atan2(y),
        Op::Sqrt => x.sqrt(),
        Op::Ln => x.ln(),
        Op::Sin => x.sin(),
        Op::Cos => x.cos(),
        Op::Tan => x.tan(),
        Op::Asin => x.asin(),
        Op::Acos => x.acos(),
        Op::Atan => x.atan(),
        Op::Floor => x.floor(),
        Op::Ceil => x.ceil(),
        Op::ToRadians => x.to_radians(),
        Op::ToDegrees => x.to_degrees(),
    };
    r.to_bits()
}

#[allow(dead_code)]
fn info(robot: &Robot) -> RobotInfo {
    RobotInfo { id: robot.id, position: robot.position, status: robot.status }
}

#[allow(dead_code)]
fn reader(text: &Vec<char>) -> Option<u64> {
    text.iter().collect::<String>().parse::<f64>().ok().map(f64::to_bits)
}

fn assert_approx_eq(a: f64, b: f64) {
    assert!((a - b).abs() < 1.0e-6, "{} is not approximately {}", a, b);
}

#[test]
fn test_lerp_f64() {
    assert_approx_eq(v(lerp_f64(w(0.0), w(10.0), w(0.5), &fpu)), 5.0);
    assert_approx_eq(v(lerp_f64(w(0.0), w(10.0), w(0.0), &fpu)), 0.0);
    assert_approx_eq(v(lerp_f64(w(0.0), w(10.0), w(1.0), &fpu)), 10.0);
    assert_approx_eq(v(lerp_f64(w(5.0), w(10.0), w(0.5), &fpu)), 7.5);
}

#[test]
fn test_lerp_point() {
    let start = Point { x: w(0.0), y: w(0.0) };
    let end = Point { x: w(10.0), y: w(20.0) };
    let result = lerp_point(start, end, w(0.5), &fpu);
    assert_approx_eq(v(result.x), 5.0);
    assert_approx_eq(v(result.y), 10.0);
}

#[test]
fn test_clamp() {
    assert_eq!(clamp(5, 0, 10), 5);
    assert_eq!(clamp(-5, 0, 10), 0);
    assert_eq!(clamp(15, 0, 10), 10);

    assert!((clamp(5.0f32, 0.0f32, 10.0f32) - 5.0f32).abs() < 1.0e-6);
    assert!((clamp(-5.0f32, 0.0f32, 10.0f32) - 0.0f32).abs() < 1.0e-6);
    assert!((clamp(15.0f32, 0.0f32, 10.0f32) - 10.0f32).abs() < 1.0e-6);
}

#[test]
fn clamp_keeps_the_bounds_themselves() {
    assert_eq!(clamp(0u8, 0, 10), 0);
    assert_eq!(clamp(10u8, 0, 10), 10);
    assert_eq!(clamp("m", "a", "k"), "k");
    assert!(clamp(f64::NAN, 0.0, 1.0).is_nan());
}

#[test]
fn interpolation_is_exact_at_its_ends_and_angles_convert() {
    assert_eq!(v(lerp_f64(w(3.0), w(-9.0), w(0.25), &fpu)), 3.0 + (-9.0 - 3.0) * 0.25);
    assert_eq!(v(lerp_f64(w(0.1), w(0.7), w(0.3), &fpu)), 0.1 + (0.7 - 0.1) * 0.3);
    assert_eq!(v(deg_to_rad(w(180.0), &fpu)), std::f64::consts::PI);
    assert_eq!(v(rad_to_deg(w(std::f64::consts::PI), &fpu)), 180.0);
    assert_eq!(v(deg_to_rad(w(45.0), &fpu)), 45.0f64.to_radians());
}
