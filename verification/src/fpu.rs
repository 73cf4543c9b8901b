//! The arithmetic unit.
//!
//! The machine moves and compares numbers by itself (see `crate::ieee`), but it
//! does no rounded arithmetic: sums, products, roots and the like are asked of
//! an arithmetic unit that its host hands in, a function from an operation and
//! two words to a word. Everything here is proved for every such unit; what
//! a contract says of a computed number, it says through `answer`.
use vstd::prelude::*;

verus! {

/// An operation of the arithmetic unit. The operations of one operand take it
/// first and ignore the second.
#[derive(Debug, Clone, Copy, PartialEq, Eq, Structural)]
pub enum Op {
    /// `a + b`
    Add,
    /// `a - b`
    Sub,
    /// `a * b`
    Mul,
    /// `a / b`
    Div,
    /// The remainder of `a / b`, with the sign of `a`.
    Rem,
    /// The least non-negative remainder of `a / b`.
    RemEuclid,
    /// `a` to the power `b`.
    Pow,
    /// The angle of the point `(b, a)` in radians, `a` being its ordinate.
    Atan2,
    /// The square root of `a`.
    Sqrt,
    /// The natural logarithm of `a`.
    Ln,
    /// The sine of `a` radians.
    Sin,
    /// The cosine of `a` radians.
    Cos,
    /// The tangent of `a` radians.
    Tan,
    /// The arcsine of `a`, in radians.
    Asin,
    /// The arccosine of `a`, in radians.
    Acos,
    /// The arctangent of `a`, in radians.
    Atan,
    /// The largest integer not above `a`.
    Floor,
    /// The smallest integer not below `a`.
    Ceil,
    /// `a` degrees in radians.
    ToRadians,
    /// `a` radians in degrees.
    ToDegrees,
}

/// What the unit gives for a request.
pub open spec fn answer<F: Fn(Op, u64, u64) -> u64>(fpu: &F, op: Op, a: u64, b: u64) -> u64 {
    choose|r: u64| fpu.ensures((op, a, b), r)
}

/// The unit takes every request, and gives one answer to equal requests.
pub open spec fn is_unit<F: Fn(Op, u64, u64) -> u64>(fpu: &F) -> bool {
    &&& forall|op: Op, a: u64, b: u64| #[trigger] fpu.requires((op, a, b))
    &&& forall|op: Op, a: u64, b: u64, r: u64| #[trigger]
        fpu.ensures((op, a, b), r) ==> r == answer(fpu, op, a, b)
}

/// The answer to an operation of one operand.
pub open spec fn answer1<F: Fn(Op, u64, u64) -> u64>(fpu: &F, op: Op, a: u64) -> u64 {
    answer(fpu, op, a, 0)
}

/// A function of an angle in degrees: the angle goes to radians first.
pub open spec fn of_degrees<F: Fn(Op, u64, u64) -> u64>(fpu: &F, op: Op, a: u64) -> u64 {
    answer1(fpu, op, answer1(fpu, Op::ToRadians, a))
}

/// A function whose result is an angle: it comes out in degrees.
pub open spec fn in_degrees<F: Fn(Op, u64, u64) -> u64>(fpu: &F, op: Op, a: u64, b: u64) -> u64 {
    answer1(fpu, Op::ToDegrees, answer(fpu, op, a, b))
}

/// Asks the unit.
pub fn ask<F: Fn(Op, u64, u64) -> u64>(fpu: &F, op: Op, a: u64, b: u64) -> (r: u64)
    requires
        is_unit(fpu),
    ensures
        r == answer(fpu, op, a, b),
{
    fpu(op, a, b)
}

/// Asks the unit for an operation of one operand.
pub fn ask1<F: Fn(Op, u64, u64) -> u64>(fpu: &F, op: Op, a: u64) -> (r: u64)
    requires
        is_unit(fpu),
    ensures
        r == answer1(fpu, op, a),
{
    fpu(op, a, 0)
}

/// Asks the unit for a function of an angle in degrees.
pub fn ask_of_degrees<F: Fn(Op, u64, u64) -> u64>(fpu: &F, op: Op, a: u64) -> (r: u64)
    requires
        is_unit(fpu),
    ensures
        r == of_degrees(fpu, op, a),
{
    let radians = ask1(fpu, Op::ToRadians, a);
    ask1(fpu, op, radians)
}

/// Asks the unit for a function whose result is an angle, in degrees.
pub fn ask_in_degrees<F: Fn(Op, u64, u64) -> u64>(fpu: &F, op: Op, a: u64, b: u64) -> (r: u64)
    requires
        is_unit(fpu),
    ensures
        r == in_degrees(fpu, op, a, b),
{
    let radians = ask(fpu, op, a, b);
    ask1(fpu, Op::ToDegrees, radians)
}

} // verus!

verus! {

/// The reader can give `r` for the text.
pub open spec fn reads_as<N: Fn(&Vec<char>) -> Option<u64>>(
    reader: &N,
    text: Seq<char>,
    r: Option<u64>,
) -> bool {
    exists|t: &Vec<char>| t@ == text && #[trigger] reader.ensures((t,), r)
}

/// What the reader of numbers makes of a text: the number that the text is a
/// literal of, or nothing where it is none.
pub open spec fn reading<N: Fn(&Vec<char>) -> Option<u64>>(reader: &N, text: Seq<char>) -> Option<
    u64,
> {
    choose|r: Option<u64>| reads_as(reader, text, r)
}

/// The reader takes every text, and gives one answer to equal texts.
pub open spec fn is_reader<N: Fn(&Vec<char>) -> Option<u64>>(reader: &N) -> bool {
    &&& forall|t: &Vec<char>| #[trigger] reader.requires((t,))
    &&& forall|t1: &Vec<char>, t2: &Vec<char>, r1: Option<u64>, r2: Option<u64>|
        #[trigger] reader.ensures((t1,), r1) && #[trigger] reader.ensures((t2,), r2) && t1@ == t2@
            ==> r1 == r2
}

/// Asks the reader of numbers.
pub fn read_number<N: Fn(&Vec<char>) -> Option<u64>>(reader: &N, text: &Vec<char>) -> (r: Option<
    u64,
>)
    requires
        is_reader(reader),
    ensures
        r == reading(reader, text@),
{
    let r = reader(text);
    proof {
        let chosen = reading(reader, text@);
        assert(reads_as(reader, text@, r));
        assert(reads_as(reader, text@, chosen));
        let t = choose|t: &Vec<char>| t@ == text@ && #[trigger] reader.ensures((t,), chosen);
        assert(reader.ensures((t,), chosen));
    }
    r
}

} // verus!
