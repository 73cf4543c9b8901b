//! The numbers of the machine.
//!
//! Every number that a program, a robot or the arena handles is an IEEE-754
//! binary64 value, held as its 64-bit pattern in a `u64`: one sign bit, eleven
//! exponent bits, fifty-two fraction bits. This module reads such words with
//! integer arithmetic alone: order, sign, the whole part of a value, and the
//! words of small integers. Rounded arithmetic is not done here; it is asked of
//! the arithmetic unit (see `crate::fpu`).
use vstd::arithmetic::power2::*;
use vstd::prelude::*;

verus! {

/// The sign bit of a word.
pub const SIGN_BIT: u64 = 0x8000_0000_0000_0000;

/// Positive infinity. A magnitude above this one is not a number.
pub const INFINITY: u64 = 0x7FF0_0000_0000_0000;

/// Two to the power 52: the bit that a normal significand has above its fraction.
pub const HIDDEN_BIT: u64 = 0x0010_0000_0000_0000;

/// The biased exponent of one.
pub const EXPONENT_BIAS: u64 = 1023;

/// The biased exponent of a significand that counts units.
pub const EXPONENT_UNITS: u64 = 1075;

/// 0.0
pub const ZERO: u64 = 0;

/// 1.0
pub const ONE: u64 = 0x3FF0_0000_0000_0000;

/// 2.0
pub const TWO: u64 = 0x4000_0000_0000_0000;

/// 45.0
pub const FORTY_FIVE: u64 = 0x4046_8000_0000_0000;

/// 180.0
pub const HALF_TURN: u64 = 0x4066_8000_0000_0000;

/// 360.0
pub const FULL_TURN: u64 = 0x4076_8000_0000_0000;

/// The difference between 1.0 and the next larger number, two to the power -52.
pub const EPSILON: u64 = 0x3CB0_0000_0000_0000;

/// 1e-6
pub const MICRO: u64 = 0x3EB0_C6F7_A0B5_ED8D;

/// 1e-9
pub const NANO: u64 = 0x3E11_2E0B_E826_D695;

/// The word without its sign bit.
pub open spec fn magnitude(x: u64) -> u64 {
    if x >= SIGN_BIT {
        (x - SIGN_BIT) as u64
    } else {
        x
    }
}

/// The sign bit is set (it may be set on a zero and on a NaN too).
pub open spec fn sign_negative(x: u64) -> bool {
    x >= SIGN_BIT
}

pub open spec fn spec_is_nan(x: u64) -> bool {
    magnitude(x) > INFINITY
}

/// Neither infinite nor NaN.
pub open spec fn is_finite(x: u64) -> bool {
    magnitude(x) < INFINITY
}

pub open spec fn spec_is_zero(x: u64) -> bool {
    magnitude(x) == 0
}

/// The place of a number in the order of all numbers: binary64 orders its
/// magnitudes as it orders their bit patterns, and both zeros share a place.
pub open spec fn rank(x: u64) -> int {
    if sign_negative(x) {
        -(magnitude(x) as int)
    } else {
        magnitude(x) as int
    }
}

/// `a < b` as IEEE-754 has it: false as soon as one side is NaN.
pub open spec fn spec_lt(a: u64, b: u64) -> bool {
    !spec_is_nan(a) && !spec_is_nan(b) && rank(a) < rank(b)
}

/// `a <= b` as IEEE-754 has it.
pub open spec fn spec_le(a: u64, b: u64) -> bool {
    !spec_is_nan(a) && !spec_is_nan(b) && rank(a) <= rank(b)
}

/// `a > b` as IEEE-754 has it.
pub open spec fn spec_gt(a: u64, b: u64) -> bool {
    spec_lt(b, a)
}

/// `a >= b` as IEEE-754 has it.
pub open spec fn spec_ge(a: u64, b: u64) -> bool {
    spec_le(b, a)
}

/// `a == b` as IEEE-754 has it: NaN equals nothing, the two zeros are equal.
pub open spec fn spec_eq(a: u64, b: u64) -> bool {
    !spec_is_nan(a) && !spec_is_nan(b) && rank(a) == rank(b)
}

pub open spec fn spec_abs(x: u64) -> u64 {
    magnitude(x)
}

pub open spec fn spec_neg(x: u64) -> u64 {
    if x >= SIGN_BIT {
        (x - SIGN_BIT) as u64
    } else {
        (x + SIGN_BIT) as u64
    }
}

/// The smaller of two numbers; where one is NaN, the other.
pub open spec fn spec_min(a: u64, b: u64) -> u64 {
    if spec_is_nan(a) {
        b
    } else if spec_is_nan(b) {
        a
    } else if spec_lt(b, a) {
        b
    } else {
        a
    }
}

/// The larger of two numbers; where one is NaN, the other.
pub open spec fn spec_max(a: u64, b: u64) -> u64 {
    if spec_is_nan(a) {
        b
    } else if spec_is_nan(b) {
        a
    } else if spec_lt(a, b) {
        b
    } else {
        a
    }
}

/// `x` held between `lo` and `hi`; a NaN stays what it is.
pub open spec fn spec_clamp(x: u64, lo: u64, hi: u64) -> u64 {
    if spec_lt(x, lo) {
        lo
    } else if spec_lt(hi, x) {
        hi
    } else {
        x
    }
}

/// The eleven exponent bits.
pub open spec fn biased_exponent(x: u64) -> int {
    (magnitude(x) / HIDDEN_BIT) as int
}

/// The fifty-two fraction bits.
pub open spec fn fraction(x: u64) -> int {
    (magnitude(x) % HIDDEN_BIT) as int
}

/// The significand of a finite number as an integer: its magnitude is
/// `significand * 2^(max(biased_exponent, 1) - 1075)`.
pub open spec fn significand(x: u64) -> int {
    if biased_exponent(x) == 0 {
        fraction(x)
    } else {
        HIDDEN_BIT + fraction(x)
    }
}

/// The whole part of the magnitude of a finite number.
pub open spec fn integer_part(x: u64) -> nat {
    let e = biased_exponent(x);
    if e < EXPONENT_BIAS {
        0
    } else if e <= EXPONENT_UNITS {
        (significand(x) / (pow2((EXPONENT_UNITS - e) as nat) as int)) as nat
    } else {
        (significand(x) * pow2((e - EXPONENT_UNITS) as nat)) as nat
    }
}

/// What a cast of the number to `u32` gives: NaN and negative numbers give 0,
/// what lies above the type's range gives its maximum, the rest loses its
/// fractional part.
pub open spec fn spec_to_u32(x: u64) -> u32 {
    if spec_is_nan(x) || sign_negative(x) {
        0
    } else if !is_finite(x) || integer_part(x) > u32::MAX {
        u32::MAX
    } else {
        integer_part(x) as u32
    }
}

/// What a cast of the number to `u8` gives.
pub open spec fn spec_to_u8(x: u64) -> u8 {
    if spec_to_u32(x) > u8::MAX {
        u8::MAX
    } else {
        spec_to_u32(x) as u8
    }
}

/// The number is -1.0 or below: a cast to a signed integer gives a negative one.
pub open spec fn casts_negative(x: u64) -> bool {
    !spec_is_nan(x) && sign_negative(x) && biased_exponent(x) >= EXPONENT_BIAS
}

/// `w` is the word of `n * 2^(top - 1075)`, for `n` below two to the power 53.
pub open spec fn encodes(w: u64, n: nat, top: int) -> bool {
    if n == 0 {
        w == 0
    } else {
        &&& !sign_negative(w)
        &&& top - 52 <= biased_exponent(w) <= top
        &&& significand(w) == n * pow2((top - biased_exponent(w)) as nat)
    }
}

/// `w` is the word of the integer `n`.
pub open spec fn holds_integer(w: u64, n: nat) -> bool {
    encodes(w, n, EXPONENT_UNITS as int)
}

/// The word of the integer `n`, for `n` below two to the power 53.
pub open spec fn integer_word(n: nat) -> u64 {
    choose|w: u64| holds_integer(w, n)
}

/// `w` is the word of `n / 2^53`.
pub open spec fn holds_unit_fraction(w: u64, n: nat) -> bool {
    encodes(w, n, EXPONENT_BIAS - 1)
}

#[verifier::when_used_as_spec(spec_is_nan)]
pub fn is_nan(x: u64) -> (r: bool)
    ensures
        r == spec_is_nan(x),
{
    if x >= SIGN_BIT {
        x - SIGN_BIT > INFINITY
    } else {
        x > INFINITY
    }
}

/// `x == 0.0`
#[verifier::when_used_as_spec(spec_is_zero)]
pub fn is_zero(x: u64) -> (r: bool)
    ensures
        r == spec_is_zero(x),
{
    x == 0 || x == SIGN_BIT
}

#[verifier::when_used_as_spec(spec_abs)]
pub fn abs(x: u64) -> (r: u64)
    ensures
        r == spec_abs(x),
{
    if x >= SIGN_BIT {
        x - SIGN_BIT
    } else {
        x
    }
}

#[verifier::when_used_as_spec(spec_neg)]
pub fn neg(x: u64) -> (r: u64)
    ensures
        r == spec_neg(x),
{
    if x >= SIGN_BIT {
        x - SIGN_BIT
    } else {
        x + SIGN_BIT
    }
}

#[verifier::when_used_as_spec(spec_lt)]
pub fn lt(a: u64, b: u64) -> (r: bool)
    ensures
        r == spec_lt(a, b),
{
    if is_nan(a) || is_nan(b) {
        return false;
    }
    let ma = abs(a);
    let mb = abs(b);
    if a >= SIGN_BIT {
        if b >= SIGN_BIT {
            mb < ma
        } else {
            ma > 0 || mb > 0
        }
    } else {
        if b >= SIGN_BIT {
            false
        } else {
            ma < mb
        }
    }
}

#[verifier::when_used_as_spec(spec_eq)]
pub fn eq(a: u64, b: u64) -> (r: bool)
    ensures
        r == spec_eq(a, b),
{
    if is_nan(a) || is_nan(b) {
        return false;
    }
    a == b || (is_zero(a) && is_zero(b))
}

#[verifier::when_used_as_spec(spec_le)]
pub fn le(a: u64, b: u64) -> (r: bool)
    ensures
        r == spec_le(a, b),
{
    lt(a, b) || eq(a, b)
}

#[verifier::when_used_as_spec(spec_gt)]
pub fn gt(a: u64, b: u64) -> (r: bool)
    ensures
        r == spec_gt(a, b),
{
    lt(b, a)
}

#[verifier::when_used_as_spec(spec_ge)]
pub fn ge(a: u64, b: u64) -> (r: bool)
    ensures
        r == spec_ge(a, b),
{
    le(b, a)
}

#[verifier::when_used_as_spec(spec_min)]
pub fn min(a: u64, b: u64) -> (r: u64)
    ensures
        r == spec_min(a, b),
{
    if is_nan(a) {
        b
    } else if is_nan(b) {
        a
    } else if lt(b, a) {
        b
    } else {
        a
    }
}

#[verifier::when_used_as_spec(spec_max)]
pub fn max(a: u64, b: u64) -> (r: u64)
    ensures
        r == spec_max(a, b),
{
    if is_nan(a) {
        b
    } else if is_nan(b) {
        a
    } else if lt(a, b) {
        b
    } else {
        a
    }
}

/// Holds `x` between `lo` and `hi`.
#[verifier::when_used_as_spec(spec_clamp)]
pub fn clamp(x: u64, lo: u64, hi: u64) -> (r: u64)
    requires
        spec_le(lo, hi),
    ensures
        r == spec_clamp(x, lo, hi),
{
    if lt(x, lo) {
        lo
    } else if lt(hi, x) {
        hi
    } else {
        x
    }
}

/// The number cast to `u32`.
#[verifier::when_used_as_spec(spec_to_u32)]
pub fn to_u32(x: u64) -> (r: u32)
    ensures
        r == spec_to_u32(x),
{
    if x >= SIGN_BIT || x > INFINITY {
        return 0;
    }
    let e = x / HIDDEN_BIT;
    if e < EXPONENT_BIAS {
        return 0;
    }
    let m = HIDDEN_BIT + x % HIDDEN_BIT;
    if e >= EXPONENT_BIAS + 32 {
        proof {
            lemma2_to64();
        lemma2_to64_rest();
            if e <= EXPONENT_UNITS {
                let k = (EXPONENT_UNITS - e) as nat;
                let d = pow2(k) as int;
                if k < 20 {
                    lemma_pow2_strictly_increases(k, 20);
                }
                assert(m as int >= 0x1_0000_0000 * d);
                assert(m as int / d >= 0x1_0000_0000) by (nonlinear_arith)
                    requires
                        d > 0,
                        m as int >= 0x1_0000_0000 * d,
                ;
            } else if e < 2047 {
                let d = pow2((e - EXPONENT_UNITS) as nat) as int;
                lemma_pow2_pos((e - EXPONENT_UNITS) as nat);
                assert(m as int * d >= m as int) by (nonlinear_arith)
                    requires
                        d >= 1,
                        m >= 0,
                ;
            }
        }
        return u32::MAX;
    }
    let shift = EXPONENT_UNITS - e;
    let r = m >> shift;
    proof {
        lemma2_to64();
        lemma2_to64_rest();
        vstd::bits::lemma_u64_shr_is_div(m, shift);
        let d = pow2(shift as nat) as int;
        if shift > 21 {
            lemma_pow2_strictly_increases(21, shift as nat);
        }
        assert(m as int / d < 0x1_0000_0000) by (nonlinear_arith)
            requires
                d >= 0x20_0000,
                0 <= m as int,
                (m as int) < 0x1_0000_0000 * 0x20_0000,
        ;
    }
    r as u32
}

/// The number cast to `u8`.
#[verifier::when_used_as_spec(spec_to_u8)]
pub fn to_u8(x: u64) -> (r: u8)
    ensures
        r == spec_to_u8(x),
{
    let wide = to_u32(x);
    if wide > 255 {
        255
    } else {
        wide as u8
    }
}

/// Whether a cast of the number to a signed integer gives a negative one.
#[verifier::when_used_as_spec(casts_negative)]
pub fn is_cast_negative(x: u64) -> (r: bool)
    ensures
        r == casts_negative(x),
{
    if x < SIGN_BIT {
        return false;
    }
    let m = x - SIGN_BIT;
    m <= INFINITY && m / HIDDEN_BIT >= EXPONENT_BIAS
}

/// The word of `n * 2^(top - 1075)`: the significand is doubled, and the
/// exponent lowered, until the hidden bit is set.
fn encode(n: u64, top: u64) -> (w: u64)
    requires
        n < 2 * HIDDEN_BIT,
        52 < top < 2047,
    ensures
        encodes(w, n as nat, top as int),
{
    if n == 0 {
        return 0;
    }
    let mut m: u64 = n;
    let mut e: u64 = top;
    proof {
        lemma2_to64();
        lemma2_to64_rest();
        assert(n * pow2(0) == n) by (nonlinear_arith)
            requires
                pow2(0) == 1,
        ;
    }
    while m < HIDDEN_BIT
        invariant
            n > 0,
            m > 0,
            52 < top < 2047,
            e <= top,
            m == n * pow2((top - e) as nat),
            pow2((top - e) as nat) <= m < 2 * HIDDEN_BIT,
            top - e <= 52,
        decreases e,
    {
        proof {
            let k = (top - e) as nat;
            lemma_pow2_unfold(k + 1);
            lemma2_to64();
        lemma2_to64_rest();
            if k > 52 {
                lemma_pow2_strictly_increases(52, k);
            }
            assert(k < 52);
            assert(n * (2 * pow2(k)) == 2 * (n * pow2(k))) by (nonlinear_arith);
        }
        m = m * 2;
        e = e - 1;
    }
    let w = e * HIDDEN_BIT + (m - HIDDEN_BIT);
    assert(w / HIDDEN_BIT == e && w % HIDDEN_BIT == m - HIDDEN_BIT) by {
        vstd::arithmetic::div_mod::lemma_fundamental_div_mod_converse(
            w as int,
            HIDDEN_BIT as int,
            e as int,
            (m - HIDDEN_BIT) as int,
        );
    }
    w
}

/// The word of an integer.
pub fn from_u32(n: u32) -> (w: u64)
    ensures
        holds_integer(w, n as nat),
        w == integer_word(n as nat),
{
    let w = encode(n as u64, EXPONENT_UNITS);
    proof {
        assert(holds_integer(w, n as nat));
        assert(holds_integer(integer_word(n as nat), n as nat));
        lemma_encoding_unique(w, integer_word(n as nat), n as nat, EXPONENT_UNITS as int);
    }
    w
}

/// A number has one word: two words that encode the same number are equal.
pub proof fn lemma_encoding_unique(w1: u64, w2: u64, n: nat, top: int)
    requires
        encodes(w1, n, top),
        encodes(w2, n, top),
        52 < top < 2047,
    ensures
        w1 == w2,
{
    if n != 0 {
        lemma2_to64();
        lemma2_to64_rest();
        let e1 = biased_exponent(w1);
        let e2 = biased_exponent(w2);
        let k1 = (top - e1) as nat;
        let k2 = (top - e2) as nat;
        let s1 = significand(w1);
        let s2 = significand(w2);
        assert(HIDDEN_BIT <= s1 < 2 * HIDDEN_BIT);
        assert(HIDDEN_BIT <= s2 < 2 * HIDDEN_BIT);
        if k1 < k2 {
            lemma_doubling(n, k1, k2);
        } else if k2 < k1 {
            lemma_doubling(n, k2, k1);
        }
        assert(k1 == k2);
        assert(w1 == e1 * HIDDEN_BIT + fraction(w1)) by {
            vstd::arithmetic::div_mod::lemma_fundamental_div_mod(w1 as int, HIDDEN_BIT as int);
        }
        assert(w2 == e2 * HIDDEN_BIT + fraction(w2)) by {
            vstd::arithmetic::div_mod::lemma_fundamental_div_mod(w2 as int, HIDDEN_BIT as int);
        }
    }
}

/// A larger power of two at least doubles the product.
proof fn lemma_doubling(n: nat, k1: nat, k2: nat)
    requires
        k1 < k2,
    ensures
        n * pow2(k2) >= 2 * (n * pow2(k1)),
{
    lemma_pow2_adds(k1, (k2 - k1) as nat);
    lemma_pow2_pos(k1);
    let d = pow2((k2 - k1) as nat);
    if k2 - k1 > 1 {
        lemma_pow2_strictly_increases(1, (k2 - k1) as nat);
    }
    lemma2_to64();
    assert(d >= 2);
    let p = pow2(k1);
    assert(n * (p * d) >= 2 * (n * p)) by (nonlinear_arith)
        requires
            d >= 2,
            p >= 0,
            n >= 0,
    ;
}

/// The number in [0, 1) that the upper 53 bits of `raw` stand for, in steps of
/// two to the power -53.
pub fn unit_interval(raw: u64) -> (w: u64)
    ensures
        holds_unit_fraction(w, (raw / 2048) as nat),
        spec_le(ZERO, w),
        spec_lt(w, ONE),
{
    let w = encode(raw / 2048, EXPONENT_BIAS - 1);
    w
}

/// The whole part of the word of an integer is that integer, and the cast
/// gives it back.
pub proof fn lemma_integer_round_trip(w: u64, n: u32)
    requires
        holds_integer(w, n as nat),
    ensures
        spec_to_u32(w) == n,
        !spec_is_nan(w),
        !sign_negative(w),
{
    lemma2_to64();
    lemma2_to64_rest();
    if n != 0 {
        let e = biased_exponent(w);
        let k = (EXPONENT_UNITS - e) as nat;
        let d = pow2(k) as int;
        lemma_pow2_pos(k);
        assert(significand(w) == n * d);
        assert((n * d) / d == n) by (nonlinear_arith)
            requires
                d > 0,
        ;
        assert(e >= EXPONENT_BIAS) by {
            if k > 52 {
                lemma_pow2_strictly_increases(52, k);
            }
        }
    }
}

} // verus!
