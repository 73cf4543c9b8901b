use bot_arena::config;
use bot_arena::ieee;

fn w(x: f64) -> u64 {
    x.to_bits()
}

fn v(bits: u64) -> f64 {
    f64::from_bits(bits)
}

fn samples() -> Vec<f64> {
    let mut all = vec![
        0.0,
        -0.0,
        1.0,
        -1.0,
        0.5,
        -0.5,
        0.999_999_999_999,
        1.000_000_000_001,
        1.5,
        2.0,
        2.5,
        31.0,
        31.9,
        32.0,
        45.0,
        255.0,
        255.5,
        256.0,
        1023.0,
        1023.999,
        1024.0,
        65535.7,
        4294967295.0,
        4294967295.5,
        4294967296.0,
        4294967297.0,
        9007199254740992.0,
        1e19,
        1e300,
        1e-300,
        5e-324,
        f64::MIN_POSITIVE,
        f64::EPSILON,
        f64::MAX,
        f64::MIN,
        f64::INFINITY,
        f64::NEG_INFINITY,
        f64::NAN,
        -f64::NAN,
        1e-6,
        1e-9,
        std::f64::consts::PI,
    ];
    let more: Vec<f64> = all.iter().map(|x| -x).collect();
    all.extend(more);
    let mut seed: u64 = 0x9E37_79B9_7F4A_7C15;
    for _ in 0..2000 {
        seed ^= seed << 13;
        seed ^= seed >> 7;
        seed ^= seed << 17;
        all.push(f64::from_bits(seed));
        all.push((seed % 10_000_000) as f64 / 1000.0 - 5000.0);
    }
    all
}

fn same(a: f64, b: f64) -> bool {
    (a.is_nan() && b.is_nan()) || a == b
}

#[test]
fn the_constants_are_the_numbers_they_stand_for() {
    assert_eq!(v(ieee::ZERO), 0.0);
    assert_eq!(v(ieee::ONE), 1.0);
    assert_eq!(v(ieee::TWO), 2.0);
    assert_eq!(v(ieee::FORTY_FIVE), 45.0);
    assert_eq!(v(ieee::HALF_TURN), 180.0);
    assert_eq!(v(ieee::FULL_TURN), 360.0);
    assert_eq!(v(ieee::EPSILON), f64::EPSILON);
    assert_eq!(v(ieee::MICRO), 1e-6);
    assert_eq!(v(ieee::NANO), 1e-9);
    assert_eq!(v(ieee::INFINITY), f64::INFINITY);
    assert_eq!(ieee::SIGN_BIT, w(-0.0));
    assert_eq!(ieee::HIDDEN_BIT, 1u64 << 52);
    assert_eq!(v(config::UNIT_SIZE), 0.05);
    assert_eq!(v(config::POWER_REGEN_RATE), 0.01);
    assert_eq!(v(config::SCAN_DISTANCE), 1.0);
    assert_eq!(v(config::ARENA_WIDTH), config::ARENA_WIDTH_UNITS as f64 * 0.05);
    assert_eq!(v(config::ARENA_HEIGHT), config::ARENA_HEIGHT_UNITS as f64 * 0.05);
    assert_eq!(v(config::HALF), 0.5);
    assert_eq!(v(config::START_NEAR), 2.0 * 0.05);
    assert_eq!(v(config::START_FAR), 1.0 - 2.0 * 0.05);
    assert_eq!(v(config::DEFAULT_INITIAL_HEALTH), 100.0);
    assert_eq!(v(config::DEFAULT_INITIAL_POWER), 1.0);
    assert_eq!(v(config::DEFAULT_SCANNER_FOV), 45.0);
    assert_eq!(v(config::DEFAULT_SCANNER_RANGE), 1.414);
    assert_eq!(v(config::DEFAULT_RANGED_DAMAGE), 10.0);
    assert_eq!(v(config::DEFAULT_PROJECTILE_SPEED), 0.2);
    assert_eq!(v(config::MAX_DRIVE_UNITS_PER_TURN), 5.0);
    assert_eq!(v(config::DRIVE_VELOCITY_FACTOR), 0.05 / config::CYCLES_PER_TURN as f64);
    assert_eq!(v(config::MAX_DRIVE_VELOCITY), 5.0 * (0.05 / 100.0));
    assert_eq!(v(config::MAX_ROTATION_PER_CYCLE), 180.0 / config::CYCLES_PER_TURN as f64);
    assert_eq!(v(config::MUZZLE_OFFSET), 0.05 * 0.8);
    assert_eq!(v(config::SAFETY_MARGIN), 0.05 * 0.01);
    assert_eq!(v(config::PI), std::f64::consts::PI);
    assert_eq!(v(config::TWO_PI), 2.0 * std::f64::consts::PI);
    assert_eq!(config::OBSTACLE_DENSITY_PERCENT, 1);
    assert_eq!(config::PROJECTILE_SUB_STEPS, 1);
    assert_eq!(config::MAX_TURNS, 1000);
    assert_eq!(config::MAX_CALL_STACK_SIZE, 10);
    assert_eq!(config::STACK_SIZE, 32);
    assert_eq!(config::MEMORY_SIZE, 1024);
}

#[test]
fn words_are_ordered_as_their_numbers() {
    let all = samples();
    for &a in &all {
        assert_eq!(ieee::is_nan(w(a)), a.is_nan(), "{}", a);
        assert_eq!(ieee::is_zero(w(a)), a == 0.0, "{}", a);
        assert!(same(v(ieee::abs(w(a))), a.abs()), "{}", a);
        assert_eq!(ieee::neg(w(a)), w(-a), "{}", a);
        assert_eq!(ieee::abs(w(a)), w(a.abs()), "{}", a);
        for &b in all.iter().step_by(37) {
            assert_eq!(ieee::lt(w(a), w(b)), a < b, "{} < {}", a, b);
            assert_eq!(ieee::le(w(a), w(b)), a <= b, "{} <= {}", a, b);
            assert_eq!(ieee::gt(w(a), w(b)), a > b, "{} > {}", a, b);
            assert_eq!(ieee::ge(w(a), w(b)), a >= b, "{} >= {}", a, b);
            assert_eq!(ieee::eq(w(a), w(b)), a == b, "{} == {}", a, b);
            assert!(same(v(ieee::min(w(a), w(b))), a.min(b)), "min {} {}", a, b);
            assert!(same(v(ieee::max(w(a), w(b))), a.max(b)), "max {} {}", a, b);
        }
        assert!(same(v(ieee::clamp(w(a), w(0.0), w(1.0))), a.clamp(0.0, 1.0)), "{}", a);
        assert!(same(v(ieee::clamp(w(a), w(-1.8), w(1.8))), a.clamp(-1.8, 1.8)), "{}", a);
    }
}

#[test]
fn words_are_cast_as_their_numbers() {
    for a in samples() {
        assert_eq!(ieee::to_u32(w(a)), a as u32, "{}", a);
        assert_eq!(ieee::to_u8(w(a)), a as u8, "{}", a);
        assert_eq!(ieee::is_cast_negative(w(a)), (a as i64) < 0, "{}", a);
    }
    assert_eq!(ieee::to_u32(w(3.99)), 3);
    assert_eq!(ieee::to_u32(w(-3.99)), 0);
    assert_eq!(ieee::to_u32(w(f64::NAN)), 0);
    assert_eq!(ieee::to_u32(w(1e10)), u32::MAX);
    assert_eq!(ieee::to_u8(w(300.0)), 255);
    assert!(!ieee::is_cast_negative(w(-0.75)));
    assert!(ieee::is_cast_negative(w(-1.0)));
}

#[test]
fn integers_have_their_words() {
    let mut n: u32 = 0;
    loop {
        assert_eq!(ieee::from_u32(n), w(n as f64), "{}", n);
        assert_eq!(ieee::to_u32(ieee::from_u32(n)), n);
        if n > u32::MAX / 3 {
            break;
        }
        n = n * 3 + 1;
    }
    for n in [0u32, 1, 2, 3, 4, 99, 1023, 1024, u32::MAX - 1, u32::MAX] {
        assert_eq!(ieee::from_u32(n), w(n as f64), "{}", n);
    }
    for shift in 0..32 {
        assert_eq!(ieee::from_u32(1 << shift), w((1u32 << shift) as f64));
        assert_eq!(ieee::from_u32(u32::MAX >> shift), w((u32::MAX >> shift) as f64));
    }
}

#[test]
fn random_words_become_numbers_below_one() {
    let scale = 1.0 / ((1u64 << 53) as f64);
    let mut seed: u64 = 0x0123_4567_89AB_CDEF;
    for raw in [0u64, 1, 2047, 2048, 2049, u64::MAX, u64::MAX - 2047, 1 << 63, (1 << 63) - 1] {
        let x = v(ieee::unit_interval(raw));
        assert_eq!(x, scale * (raw >> 11) as f64, "{}", raw);
        assert!((0.0..1.0).contains(&x));
    }
    for _ in 0..5000 {
        seed ^= seed << 13;
        seed ^= seed >> 7;
        seed ^= seed << 17;
        let x = v(ieee::unit_interval(seed));
        assert_eq!(x, scale * (seed >> 11) as f64);
        assert!((0.0..1.0).contains(&x));
    }
    assert_eq!(v(ieee::unit_interval(0)), 0.0);
    assert_eq!(v(ieee::unit_interval(u64::MAX)), 1.0 - f64::EPSILON / 2.0);
}
