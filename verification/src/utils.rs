//! Small helpers.
use crate::fpu::{answer, answer1, ask, ask1, is_unit, Op};
use crate::types::Point;
use core::cmp::Ordering;
use vstd::prelude::*;
use vstd::std_specs::cmp::PartialOrdSpec;

verus! {

/// Holds a value between `min` and `max`: what lies below `min` becomes
/// `min`, what lies above `max` becomes `max`.
pub fn clamp<T: PartialOrd>(value: T, min: T, max: T) -> (r: T)
    ensures
        T::obeys_partial_cmp_spec() ==> r == (if value.partial_cmp_spec(&min) == Some(
            Ordering::Less,
        ) {
            min
        } else if value.partial_cmp_spec(&max) == Some(Ordering::Greater) {
            max
        } else {
            value
        }),
{
    if value < min {
        min
    } else if value > max {
        max
    } else {
        value
    }
}

/// The number that lies `alpha` of the way from `start` to `end`.
pub open spec fn spec_lerp<F: Fn(Op, u64, u64) -> u64>(
    fpu: &F,
    start: u64,
    end: u64,
    alpha: u64,
) -> u64 {
    answer(
        fpu,
        Op::Add,
        start,
        answer(fpu, Op::Mul, answer(fpu, Op::Sub, end, start), alpha),
    )
}

/// The number that lies `alpha` of the way from `start` to `end`:
/// `start + (end - start) * alpha`.
pub fn lerp_f64<F: Fn(Op, u64, u64) -> u64>(start: u64, end: u64, alpha: u64, fpu: &F) -> (r: u64)
    requires
        is_unit(fpu),
    ensures
        r == spec_lerp(fpu, start, end, alpha),
{
    let span = ask(fpu, Op::Sub, end, start);
    ask(fpu, Op::Add, start, ask(fpu, Op::Mul, span, alpha))
}

/// The point that lies `alpha` of the way from `start` to `end`.
pub fn lerp_point<F: Fn(Op, u64, u64) -> u64>(start: Point, end: Point, alpha: u64, fpu: &F) -> (p:
    Point)
    requires
        is_unit(fpu),
    ensures
        p == (Point {
            x: spec_lerp(fpu, start.x, end.x, alpha),
            y: spec_lerp(fpu, start.y, end.y, alpha),
        }),
{
    Point {
        x: lerp_f64(start.x, end.x, alpha, fpu),
        y: lerp_f64(start.y, end.y, alpha, fpu),
    }
}

/// An angle in degrees, in radians.
pub fn deg_to_rad<F: Fn(Op, u64, u64) -> u64>(degrees: u64, fpu: &F) -> (radians: u64)
    requires
        is_unit(fpu),
    ensures
        radians == answer1(fpu, Op::ToRadians, degrees),
{
    ask1(fpu, Op::ToRadians, degrees)
}

/// An angle in radians, in degrees.
pub fn rad_to_deg<F: Fn(Op, u64, u64) -> u64>(radians: u64, fpu: &F) -> (degrees: u64)
    requires
        is_unit(fpu),
    ensures
        degrees == answer1(fpu, Op::ToDegrees, radians),
{
    ask1(fpu, Op::ToDegrees, radians)
}

} // verus!
