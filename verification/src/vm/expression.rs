//! Constant expressions: numbers and names of constants, joined by
//! `+ - * / %`, with a minus sign before an operand and parentheses. `* / %`
//! bind tighter than `+ -`; operators of one rank are taken from the left.
use super::text::{after_spaces, is_space, is_whitespace, lemma_skip_spaces_bounds, same, skip_spaces, slice, texts};
use crate::fpu::{answer, ask, is_reader, is_unit, read_number, reading, Op};
use crate::ieee;
use vstd::prelude::*;

verus! {

/// What can be wrong with a constant expression.
#[derive(Debug, Clone, Copy, PartialEq, Eq, Structural)]
pub enum ExpressionError {
    DivisionByZero,
    ModuloByZero,
    /// An opening parenthesis is not closed.
    UnbalancedParentheses,
    /// A token is neither a number nor the name of a constant.
    UnknownToken,
    /// The expression ends where an operand is due.
    UnexpectedEnd,
    /// The expression is complete, and something follows.
    TrailingToken,
}

/// An error in a constant expression, as plain mathematics: its kind, and the
/// token it is about, if it is about one.
pub struct ExpressionFault {
    pub kind: ExpressionError,
    pub token: Seq<char>,
}

/// An error in a constant expression.
#[derive(Debug, Clone)]
pub struct ExpressionFailure {
    pub kind: ExpressionError,
    /// The token that the error is about; empty where it is about none.
    pub token: Vec<char>,
}

impl View for ExpressionFailure {
    type V = ExpressionFault;

    open spec fn view(&self) -> ExpressionFault {
        ExpressionFault { kind: self.kind, token: self.token@ }
    }
}

/// An error that is about no token.
pub open spec fn fault(kind: ExpressionError) -> ExpressionFault {
    ExpressionFault { kind, token: Seq::empty() }
}

/// The characters that are tokens by themselves.
pub open spec fn is_operator(c: char) -> bool {
    c == '(' || c == ')' || c == '+' || c == '-' || c == '*' || c == '/' || c == '%'
}

/// The first place at or after `from` that holds white space or an operator;
/// the length of the text where there is none.
pub open spec fn token_end(s: Seq<char>, from: int) -> int
    decreases s.len() - from,
{
    if 0 <= from < s.len() && !is_space(s[from]) && !is_operator(s[from]) {
        token_end(s, from + 1)
    } else {
        from
    }
}

pub proof fn lemma_token_end_bounds(s: Seq<char>, from: int)
    requires
        0 <= from <= s.len(),
    ensures
        from <= token_end(s, from) <= s.len(),
    decreases s.len() - from,
{
    if from < s.len() && !is_space(s[from]) && !is_operator(s[from]) {
        lemma_token_end_bounds(s, from + 1);
    }
}

/// The tokens of an expression from `from` on: every operator and
/// parenthesis, and every run of other characters between them and white
/// space.
pub open spec fn tokens_from(s: Seq<char>, from: int) -> Seq<Seq<char>>
    decreases s.len() - from,
{
    let start = skip_spaces(s, from);
    if from < 0 || start >= s.len() {
        Seq::empty()
    } else {
        let end = if is_operator(s[start]) {
            start + 1
        } else {
            token_end(s, start + 1)
        };
        proof {
            lemma_skip_spaces_bounds(s, from);
            lemma_token_end_bounds(s, start + 1);
        }
        seq![s.subrange(start, end)] + tokens_from(s, end)
    }
}

/// The tokens of an expression.
pub open spec fn tokens_of(s: Seq<char>) -> Seq<Seq<char>> {
    tokens_from(s, 0)
}

/// The token is the single character `c`.
pub open spec fn is_symbol(token: Seq<char>, c: char) -> bool {
    token.len() == 1 && token[0] == c
}

/// The names of a table with what they stand for.
pub open spec fn named<V>(table: Seq<(Vec<char>, V)>) -> Seq<(Seq<char>, V)> {
    Seq::new(table.len(), |i: int| (table[i].0@, table[i].1))
}

/// What the first entry under `name` at or after `from` holds.
pub open spec fn lookup_from<V>(table: Seq<(Seq<char>, V)>, name: Seq<char>, from: int) -> Option<
    V,
>
    decreases table.len() - from,
{
    if from < 0 || from >= table.len() {
        None
    } else if table[from].0 == name {
        Some(table[from].1)
    } else {
        lookup_from(table, name, from + 1)
    }
}

/// What a table holds under a name.
pub open spec fn lookup<V>(table: Seq<(Seq<char>, V)>, name: Seq<char>) -> Option<V> {
    lookup_from(table, name, 0)
}

/// The number that a token stands for: a literal is read as the number it
/// writes, a name as the constant it names.
pub open spec fn operand_value<N: Fn(&Vec<char>) -> Option<u64>>(
    token: Seq<char>,
    constants: Seq<(Seq<char>, u64)>,
    reader: &N,
) -> Option<u64> {
    match reading(reader, token) {
        Some(value) => Some(value),
        None => lookup(constants, token),
    }
}

/// The value of the factor that begins at `pos`, and where it ends: an
/// operand, a factor with a minus sign before it, or an expression in
/// parentheses.
pub open spec fn factor_at<F: Fn(Op, u64, u64) -> u64, N: Fn(&Vec<char>) -> Option<u64>>(
    tokens: Seq<Seq<char>>,
    pos: int,
    constants: Seq<(Seq<char>, u64)>,
    fpu: &F,
    reader: &N,
) -> Result<(u64, int), ExpressionFault>
    decreases tokens.len() - pos, 0int,
{
    if pos < 0 || pos >= tokens.len() {
        Err(fault(ExpressionError::UnexpectedEnd))
    } else if is_symbol(tokens[pos], '(') {
        match expression_at(tokens, pos + 1, constants, fpu, reader) {
            Err(e) => Err(e),
            Ok((value, end)) => if end < tokens.len() && is_symbol(tokens[end], ')') {
                Ok((value, end + 1))
            } else {
                Err(fault(ExpressionError::UnbalancedParentheses))
            },
        }
    } else if is_symbol(tokens[pos], '-') {
        match factor_at(tokens, pos + 1, constants, fpu, reader) {
            Err(e) => Err(e),
            Ok((value, end)) => Ok((ieee::spec_neg(value), end)),
        }
    } else {
        match operand_value(tokens[pos], constants, reader) {
            Some(value) => Ok((value, pos + 1)),
            None => Err(
                ExpressionFault { kind: ExpressionError::UnknownToken, token: tokens[pos] },
            ),
        }
    }
}

/// The value of a term whose factors up to `pos` make `left`, and where it
/// ends.
pub open spec fn term_after<F: Fn(Op, u64, u64) -> u64, N: Fn(&Vec<char>) -> Option<u64>>(
    tokens: Seq<Seq<char>>,
    pos: int,
    left: u64,
    constants: Seq<(Seq<char>, u64)>,
    fpu: &F,
    reader: &N,
) -> Result<(u64, int), ExpressionFault>
    decreases tokens.len() - pos, 1int,
{
    if pos < 0 || pos >= tokens.len() {
        Ok((left, pos))
    } else if is_symbol(tokens[pos], '*') || is_symbol(tokens[pos], '/') || is_symbol(
        tokens[pos],
        '%',
    ) {
        match factor_at(tokens, pos + 1, constants, fpu, reader) {
            Err(e) => Err(e),
            Ok((right, end)) => if is_symbol(tokens[pos], '*') {
                if pos < end <= tokens.len() {
                    term_after(
                        tokens,
                        end,
                        answer(fpu, Op::Mul, left, right),
                        constants,
                        fpu,
                        reader,
                    )
                } else {
                    Err(fault(ExpressionError::UnexpectedEnd))
                }
            } else if ieee::spec_is_zero(right) {
                if is_symbol(tokens[pos], '/') {
                    Err(fault(ExpressionError::DivisionByZero))
                } else {
                    Err(fault(ExpressionError::ModuloByZero))
                }
            } else if pos < end <= tokens.len() {
                term_after(
                    tokens,
                    end,
                    if is_symbol(tokens[pos], '/') {
                        answer(fpu, Op::Div, left, right)
                    } else {
                        answer(fpu, Op::Rem, left, right)
                    },
                    constants,
                    fpu,
                    reader,
                )
            } else {
                Err(fault(ExpressionError::UnexpectedEnd))
            },
        }
    } else {
        Ok((left, pos))
    }
}

/// The value of the term that begins at `pos`, and where it ends: factors
/// joined by `* / %`.
pub open spec fn term_at<F: Fn(Op, u64, u64) -> u64, N: Fn(&Vec<char>) -> Option<u64>>(
    tokens: Seq<Seq<char>>,
    pos: int,
    constants: Seq<(Seq<char>, u64)>,
    fpu: &F,
    reader: &N,
) -> Result<(u64, int), ExpressionFault>
    decreases tokens.len() - pos, 2int,
{
    match factor_at(tokens, pos, constants, fpu, reader) {
        Err(e) => Err(e),
        Ok((left, end)) => if pos <= end <= tokens.len() {
            term_after(tokens, end, left, constants, fpu, reader)
        } else {
            Err(fault(ExpressionError::UnexpectedEnd))
        },
    }
}

/// The value of an expression whose terms up to `pos` make `left`, and where
/// it ends.
pub open spec fn expression_after<F: Fn(Op, u64, u64) -> u64, N: Fn(&Vec<char>) -> Option<u64>>(
    tokens: Seq<Seq<char>>,
    pos: int,
    left: u64,
    constants: Seq<(Seq<char>, u64)>,
    fpu: &F,
    reader: &N,
) -> Result<(u64, int), ExpressionFault>
    decreases tokens.len() - pos, 3int,
{
    if pos < 0 || pos >= tokens.len() {
        Ok((left, pos))
    } else if is_symbol(tokens[pos], '+') || is_symbol(tokens[pos], '-') {
        match term_at(tokens, pos + 1, constants, fpu, reader) {
            Err(e) => Err(e),
            Ok((right, end)) => if pos < end <= tokens.len() {
                expression_after(
                    tokens,
                    end,
                    if is_symbol(tokens[pos], '+') {
                        answer(fpu, Op::Add, left, right)
                    } else {
                        answer(fpu, Op::Sub, left, right)
                    },
                    constants,
                    fpu,
                    reader,
                )
            } else {
                Err(fault(ExpressionError::UnexpectedEnd))
            },
        }
    } else {
        Ok((left, pos))
    }
}

/// The value of the expression that begins at `pos`, and where it ends:
/// terms joined by `+ -`.
pub open spec fn expression_at<F: Fn(Op, u64, u64) -> u64, N: Fn(&Vec<char>) -> Option<u64>>(
    tokens: Seq<Seq<char>>,
    pos: int,
    constants: Seq<(Seq<char>, u64)>,
    fpu: &F,
    reader: &N,
) -> Result<(u64, int), ExpressionFault>
    decreases tokens.len() - pos, 4int,
{
    match term_at(tokens, pos, constants, fpu, reader) {
        Err(e) => Err(e),
        Ok((left, end)) => if pos <= end <= tokens.len() {
            expression_after(tokens, end, left, constants, fpu, reader)
        } else {
            Err(fault(ExpressionError::UnexpectedEnd))
        },
    }
}

/// The value of a constant expression. A text that is a number, or the name
/// of a constant, as a whole, is that; else its tokens must make one
/// expression, with nothing left over.
pub open spec fn value_of<F: Fn(Op, u64, u64) -> u64, N: Fn(&Vec<char>) -> Option<u64>>(
    text: Seq<char>,
    constants: Seq<(Seq<char>, u64)>,
    fpu: &F,
    reader: &N,
) -> Result<u64, ExpressionFault> {
    match operand_value(text, constants, reader) {
        Some(value) => Ok(value),
        None => {
            let tokens = tokens_of(text);
            match expression_at(tokens, 0, constants, fpu, reader) {
                Err(e) => Err(e),
                Ok((value, end)) => if 0 <= end < tokens.len() {
                    Err(
                        ExpressionFault { kind: ExpressionError::TrailingToken, token: tokens[end] },
                    )
                } else {
                    Ok(value)
                },
            }
        },
    }
}

/// Whether a character is a token by itself.
fn is_operator_char(c: char) -> (r: bool)
    ensures
        r == is_operator(c),
{
    c == '(' || c == ')' || c == '+' || c == '-' || c == '*' || c == '/' || c == '%'
}

/// The tokens of an expression.
pub fn tokenize(s: &Vec<char>) -> (tokens: Vec<Vec<char>>)
    ensures
        texts(tokens@) == tokens_of(s@),
{
    let mut tokens: Vec<Vec<char>> = Vec::new();
    let mut at: usize = 0;
    loop
        invariant
            at <= s.len(),
            texts(tokens@) + tokens_from(s@, at as int) == tokens_of(s@),
        decreases s.len() - at,
    {
        let start = after_spaces(s, at);
        if start >= s.len() {
            assert(tokens_from(s@, at as int) == Seq::<Seq<char>>::empty());
            assert(texts(tokens@) + Seq::<Seq<char>>::empty() =~= texts(tokens@));
            return tokens;
        }
        let mut end: usize = start + 1;
        if !is_operator_char(s[start]) {
            while end < s.len() && !is_whitespace(s[end]) && !is_operator_char(s[end])
                invariant
                    start < end <= s.len(),
                    token_end(s@, end as int) == token_end(s@, start + 1),
                decreases s.len() - end,
            {
                end += 1;
            }
        }
        let token = slice(s, start, end);
        let ghost before = texts(tokens@);
        tokens.push(token);
        proof {
            assert(texts(tokens@) =~= before + seq![s@.subrange(start as int, end as int)]);
            assert(tokens_from(s@, at as int) == seq![s@.subrange(start as int, end as int)]
                + tokens_from(s@, end as int));
            assert(texts(tokens@) + tokens_from(s@, end as int) =~= before + tokens_from(
                s@,
                at as int,
            ));
        }
        at = end;
    }
}

/// What a table holds under a name.
pub fn find<V: Copy>(table: &Vec<(Vec<char>, V)>, name: &Vec<char>) -> (found: Option<V>)
    ensures
        found == lookup(named(table@), name@),
{
    let mut i: usize = 0;
    while i < table.len()
        invariant
            i <= table.len(),
            lookup_from(named(table@), name@, i as int) == lookup(named(table@), name@),
        decreases table.len() - i,
    {
        if same(&table[i].0, name) {
            return Some(table[i].1);
        }
        i += 1;
    }
    None
}

/// The number that a token stands for.
pub fn operand<N: Fn(&Vec<char>) -> Option<u64>>(
    token: &Vec<char>,
    constants: &Vec<(Vec<char>, u64)>,
    reader: &N,
) -> (value: Option<u64>)
    requires
        is_reader(reader),
    ensures
        value == operand_value(token@, named(constants@), reader),
{
    match read_number(reader, token) {
        Some(value) => Some(value),
        None => find(constants, token),
    }
}

/// Whether a token is the single character `c`.
fn is_token(token: &Vec<char>, c: char) -> (r: bool)
    ensures
        r == is_symbol(token@, c),
{
    token.len() == 1 && token[0] == c
}

/// An error that is about no token.
fn failure(kind: ExpressionError) -> (e: ExpressionFailure)
    ensures
        e@ == fault(kind),
{
    ExpressionFailure { kind, token: Vec::new() }
}

/// What is under a result, as plain mathematics.
pub open spec fn result_view(res: Result<(u64, usize), ExpressionFailure>) -> Result<
    (u64, int),
    ExpressionFault,
> {
    match res {
        Ok((value, end)) => Ok((value, end as int)),
        Err(e) => Err(e@),
    }
}

fn parse_factor<F: Fn(Op, u64, u64) -> u64, N: Fn(&Vec<char>) -> Option<u64>>(
    tokens: &Vec<Vec<char>>,
    pos: usize,
    constants: &Vec<(Vec<char>, u64)>,
    fpu: &F,
    reader: &N,
) -> (res: Result<(u64, usize), ExpressionFailure>)
    requires
        is_unit(fpu),
        is_reader(reader),
        pos <= tokens.len(),
    ensures
        result_view(res) == factor_at(texts(tokens@), pos as int, named(constants@), fpu, reader),
        res matches Ok((_, end)) ==> pos < end <= tokens.len(),
    decreases tokens.len() - pos, 0int,
{
    if pos >= tokens.len() {
        return Err(failure(ExpressionError::UnexpectedEnd));
    }
    let token = &tokens[pos];
    assert(texts(tokens@)[pos as int] == token@);
    if is_token(token, '(') {
        let (value, end) = match parse_expr(tokens, pos + 1, constants, fpu, reader) {
            Ok(found) => found,
            Err(e) => {
                return Err(e);
            },
        };
        assert(end < tokens.len() ==> texts(tokens@)[end as int] == tokens@[end as int]@);
        if end < tokens.len() && is_token(&tokens[end], ')') {
            Ok((value, end + 1))
        } else {
            Err(failure(ExpressionError::UnbalancedParentheses))
        }
    } else if is_token(token, '-') {
        let (value, end) = match parse_factor(tokens, pos + 1, constants, fpu, reader) {
            Ok(found) => found,
            Err(e) => {
                return Err(e);
            },
        };
        Ok((ieee::neg(value), end))
    } else {
        match operand(token, constants, reader) {
            Some(value) => Ok((value, pos + 1)),
            None => {
                let copy = slice(token, 0, token.len());
                assert(copy@ =~= token@);
                Err(ExpressionFailure { kind: ExpressionError::UnknownToken, token: copy })
            },
        }
    }
}

fn parse_term<F: Fn(Op, u64, u64) -> u64, N: Fn(&Vec<char>) -> Option<u64>>(
    tokens: &Vec<Vec<char>>,
    pos: usize,
    constants: &Vec<(Vec<char>, u64)>,
    fpu: &F,
    reader: &N,
) -> (res: Result<(u64, usize), ExpressionFailure>)
    requires
        is_unit(fpu),
        is_reader(reader),
        pos <= tokens.len(),
    ensures
        result_view(res) == term_at(texts(tokens@), pos as int, named(constants@), fpu, reader),
        res matches Ok((_, end)) ==> pos < end <= tokens.len(),
    decreases tokens.len() - pos, 2int,
{
    let (first, start) = match parse_factor(tokens, pos, constants, fpu, reader) {
            Ok(found) => found,
            Err(e) => {
                return Err(e);
            },
        };
    let mut left = first;
    let mut at = start;
    while at < tokens.len()
        invariant
            is_unit(fpu),
            is_reader(reader),
            pos < at <= tokens.len(),
            term_after(texts(tokens@), at as int, left, named(constants@), fpu, reader)
                == term_at(texts(tokens@), pos as int, named(constants@), fpu, reader),
        decreases tokens.len() - at,
    {
        let token = &tokens[at];
        assert(texts(tokens@)[at as int] == token@);
        if is_token(token, '*') {
            let (right, end) = match parse_factor(tokens, at + 1, constants, fpu, reader) {
            Ok(found) => found,
            Err(e) => {
                return Err(e);
            },
        };
            left = ask(fpu, Op::Mul, left, right);
            at = end;
        } else if is_token(token, '/') {
            let (right, end) = match parse_factor(tokens, at + 1, constants, fpu, reader) {
            Ok(found) => found,
            Err(e) => {
                return Err(e);
            },
        };
            if ieee::is_zero(right) {
                return Err(failure(ExpressionError::DivisionByZero));
            }
            left = ask(fpu, Op::Div, left, right);
            at = end;
        } else if is_token(token, '%') {
            let (right, end) = match parse_factor(tokens, at + 1, constants, fpu, reader) {
            Ok(found) => found,
            Err(e) => {
                return Err(e);
            },
        };
            if ieee::is_zero(right) {
                return Err(failure(ExpressionError::ModuloByZero));
            }
            left = ask(fpu, Op::Rem, left, right);
            at = end;
        } else {
            return Ok((left, at));
        }
    }
    Ok((left, at))
}

fn parse_expr<F: Fn(Op, u64, u64) -> u64, N: Fn(&Vec<char>) -> Option<u64>>(
    tokens: &Vec<Vec<char>>,
    pos: usize,
    constants: &Vec<(Vec<char>, u64)>,
    fpu: &F,
    reader: &N,
) -> (res: Result<(u64, usize), ExpressionFailure>)
    requires
        is_unit(fpu),
        is_reader(reader),
        pos <= tokens.len(),
    ensures
        result_view(res) == expression_at(
            texts(tokens@),
            pos as int,
            named(constants@),
            fpu,
            reader,
        ),
        res matches Ok((_, end)) ==> pos < end <= tokens.len(),
    decreases tokens.len() - pos, 4int,
{
    let (first, start) = match parse_term(tokens, pos, constants, fpu, reader) {
            Ok(found) => found,
            Err(e) => {
                return Err(e);
            },
        };
    let mut left = first;
    let mut at = start;
    while at < tokens.len()
        invariant
            is_unit(fpu),
            is_reader(reader),
            pos < at <= tokens.len(),
            expression_after(texts(tokens@), at as int, left, named(constants@), fpu, reader)
                == expression_at(texts(tokens@), pos as int, named(constants@), fpu, reader),
        decreases tokens.len() - at,
    {
        let token = &tokens[at];
        assert(texts(tokens@)[at as int] == token@);
        if is_token(token, '+') {
            let (right, end) = match parse_term(tokens, at + 1, constants, fpu, reader) {
            Ok(found) => found,
            Err(e) => {
                return Err(e);
            },
        };
            left = ask(fpu, Op::Add, left, right);
            at = end;
        } else if is_token(token, '-') {
            let (right, end) = match parse_term(tokens, at + 1, constants, fpu, reader) {
            Ok(found) => found,
            Err(e) => {
                return Err(e);
            },
        };
            left = ask(fpu, Op::Sub, left, right);
            at = end;
        } else {
            return Ok((left, at));
        }
    }
    Ok((left, at))
}

/// Evaluates a constant expression.
pub fn parse_constant_expression<F: Fn(Op, u64, u64) -> u64, N: Fn(&Vec<char>) -> Option<u64>>(
    expr: &Vec<char>,
    constants: &Vec<(Vec<char>, u64)>,
    fpu: &F,
    reader: &N,
) -> (res: Result<u64, ExpressionFailure>)
    requires
        is_unit(fpu),
        is_reader(reader),
    ensures
        match res {
            Ok(value) => value_of(expr@, named(constants@), fpu, reader) == Ok::<
                u64,
                ExpressionFault,
            >(value),
            Err(e) => value_of(expr@, named(constants@), fpu, reader) == Err::<
                u64,
                ExpressionFault,
            >(e@),
        },
{
    if let Some(value) = operand(expr, constants, reader) {
        return Ok(value);
    }
    let tokens = tokenize(expr);
    let (value, end) = match parse_expr(&tokens, 0, constants, fpu, reader) {
            Ok(found) => found,
            Err(e) => {
                return Err(e);
            },
        };
    if end < tokens.len() {
        assert(texts(tokens@)[end as int] == tokens@[end as int]@);
        let copy = slice(&tokens[end], 0, tokens[end].len());
        assert(copy@ =~= tokens@[end as int]@);
        Err(ExpressionFailure { kind: ExpressionError::TrailingToken, token: copy })
    } else {
        Ok(value)
    }
}

} // verus!
