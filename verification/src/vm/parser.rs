//! The assembler: it turns the text of a program into instructions.
//!
//! A program is read line by line, twice. The first pass collects the
//! constants (`.const NAME EXPRESSION`) and the labels (`NAME:`); a label
//! stands for the index of the next instruction. The second pass reads the
//! instructions, with every label and constant known. What follows `;`, `#`
//! or `//` on a line is a comment.
use super::expression::{
    find,
    lookup,
    named,
    operand_value,
    parse_constant_expression,
    value_of,
    ExpressionError,
    ExpressionFailure,
    ExpressionFault,
};
use super::instruction::Instruction;
use super::operand::Operand;
use super::registers::Register;
use super::text::{
    after_spaces,
    chars_of,
    end_of_word,
    find as find_char,
    find_slashes,
    lemma_find_bounds,
    matches_word,
    is_word,
    position,
    position_of_slashes,
    same,
    skip_spaces,
    slice,
    split_words,
    starts_with,
    texts,
    trim,
    trimmed,
    word_end,
    words,
};
use crate::fpu::{is_reader, is_unit, read_number, reading, Op};
use vstd::prelude::*;

verus! {

/// What can be wrong with a program.
#[derive(Debug, Clone, Copy, PartialEq, Eq, Structural)]
pub enum ParseErrorKind {
    UnknownInstruction,
    /// An instruction lacks an operand that it needs.
    MissingOperand,
    /// An operand is neither a number, nor a register, nor a constant.
    InvalidOperand,
    MissingRegister,
    UnknownRegister,
    /// A jump lacks its label.
    MissingLabel,
    UnknownLabel,
    DuplicateLabel,
    EmptyLabel,
    DuplicateConstant,
    /// A constant has the name of one that the host defines.
    RedefinedBuiltin,
    /// A `.const` line lacks the name or the expression.
    InvalidConstant,
    InvalidExpression(ExpressionError),
}

/// An error in a program, with the number of the line, counted from 1.
#[derive(Debug, Clone)]
pub struct ParseError {
    pub line: usize,
    pub kind: ParseErrorKind,
    pub message: String,
}

/// An error in a program, as plain mathematics.
pub struct ParseFault {
    pub line: usize,
    pub kind: ParseErrorKind,
    pub message: Seq<char>,
}

impl View for ParseError {
    type V = ParseFault;

    open spec fn view(&self) -> ParseFault {
        ParseFault { line: self.line, kind: self.kind, message: self.message@ }
    }
}

/// A constant that the host defines before a program is read.
#[derive(Debug, Clone)]
pub struct Constant {
    pub name: String,
    pub value: u64,
}

/// A label and the index of the instruction it stands for.
#[derive(Debug, Clone)]
pub struct Label {
    pub name: String,
    pub index: usize,
}

/// A program, as it comes out of the assembler.
#[derive(Debug, Clone)]
pub struct ParsedProgram {
    pub instructions: Vec<Instruction>,
    /// The labels, in the order of their definition. No name occurs twice.
    pub labels: Vec<Label>,
}

/// A program, as plain mathematics.
pub struct ProgramView {
    pub instructions: Seq<Instruction>,
    pub labels: Seq<(Seq<char>, usize)>,
}

/// The labels with their names as plain text.
pub open spec fn label_views(labels: Seq<Label>) -> Seq<(Seq<char>, usize)> {
    Seq::new(labels.len(), |i: int| (labels[i].name@, labels[i].index))
}

/// The constants with their names as plain text.
pub open spec fn constant_views(constants: Seq<Constant>) -> Seq<(Seq<char>, u64)> {
    Seq::new(constants.len(), |i: int| (constants[i].name@, constants[i].value))
}

impl View for ParsedProgram {
    type V = ProgramView;

    open spec fn view(&self) -> ProgramView {
        ProgramView { instructions: self.instructions@, labels: label_views(self.labels@) }
    }
}

/// The instructions that take no operand.
#[derive(Debug, Clone, Copy, PartialEq, Eq, Structural)]
pub enum Bare {
    Dup,
    Swap,
    Divmod,
    Ret,
    Deselect,
    Scan,
    Nop,
}

/// The instructions that need one operand.
#[derive(Debug, Clone, Copy, PartialEq, Eq, Structural)]
pub enum Required {
    Push,
    Sto,
    Select,
    Rotate,
    Drive,
    Fire,
    Dbg,
    Sleep,
}

/// The instructions that work on one operand, or on the top of the stack.
#[derive(Debug, Clone, Copy, PartialEq, Eq, Structural)]
pub enum Unary {
    Sqrt,
    Log,
    Sin,
    Cos,
    Tan,
    Asin,
    Acos,
    Atan,
    Abs,
    Not,
}

/// The instructions that work on two operands, or on the two top numbers of
/// the stack.
#[derive(Debug, Clone, Copy, PartialEq, Eq, Structural)]
pub enum Binary {
    Add,
    Sub,
    Mul,
    Div,
    Mod,
    Pow,
    Atan2,
    And,
    Or,
    Xor,
    Shl,
    Shr,
}

/// The instructions that name a label.
#[derive(Debug, Clone, Copy, PartialEq, Eq, Structural)]
pub enum Jump {
    Jmp,
    Jz,
    Jnz,
    Jl,
    Jle,
    Jg,
    Jge,
    Call,
    Loop,
}

/// What the first word of an instruction can be.
#[derive(Debug, Clone, Copy, PartialEq, Eq, Structural)]
pub enum Mnemonic {
    Bare(Bare),
    Required(Required),
    Unary(Unary),
    Binary(Binary),
    Jump(Jump),
    Pop,
    Mov,
    Lod,
    Cmp,
}

impl Bare {
    pub open spec fn spec_form(self) -> Instruction {
        match self {
            Bare::Dup => Instruction::Dup,
            Bare::Swap => Instruction::Swap,
            Bare::Divmod => Instruction::Divmod,
            Bare::Ret => Instruction::Ret,
            Bare::Deselect => Instruction::Deselect,
            Bare::Scan => Instruction::Scan,
            Bare::Nop => Instruction::Nop,
        }
    }

    /// The instruction.
    #[verifier::when_used_as_spec(spec_form)]
    pub fn form(self) -> (i: Instruction)
        ensures
            i == self.spec_form(),
    {
        match self {
            Bare::Dup => Instruction::Dup,
            Bare::Swap => Instruction::Swap,
            Bare::Divmod => Instruction::Divmod,
            Bare::Ret => Instruction::Ret,
            Bare::Deselect => Instruction::Deselect,
            Bare::Scan => Instruction::Scan,
            Bare::Nop => Instruction::Nop,
        }
    }
}

impl Required {
    pub open spec fn spec_form(self, op: Operand) -> Instruction {
        match self {
            Required::Push => Instruction::Push(op),
            Required::Sto => Instruction::Sto(op),
            Required::Select => Instruction::Select(op),
            Required::Rotate => Instruction::Rotate(op),
            Required::Drive => Instruction::Drive(op),
            Required::Fire => Instruction::Fire(op),
            Required::Dbg => Instruction::Dbg(op),
            Required::Sleep => Instruction::Sleep(op),
        }
    }

    /// The instruction with its operand.
    #[verifier::when_used_as_spec(spec_form)]
    pub fn form(self, op: Operand) -> (i: Instruction)
        ensures
            i == self.spec_form(op),
    {
        match self {
            Required::Push => Instruction::Push(op),
            Required::Sto => Instruction::Sto(op),
            Required::Select => Instruction::Select(op),
            Required::Rotate => Instruction::Rotate(op),
            Required::Drive => Instruction::Drive(op),
            Required::Fire => Instruction::Fire(op),
            Required::Dbg => Instruction::Dbg(op),
            Required::Sleep => Instruction::Sleep(op),
        }
    }

    /// What is said where the operand is missing.
    pub open spec fn complaint(self) -> Seq<char> {
        match self {
            Required::Push => "push requires an operand"@,
            Required::Sto => "sto requires a value or register operand"@,
            Required::Select => "select requires component id or register"@,
            Required::Rotate => "rotate requires angle operand"@,
            Required::Drive => "drive requires velocity operand"@,
            Required::Fire => "fire requires power operand"@,
            Required::Dbg => "dbg requires an operand"@,
            Required::Sleep => "sleep requires an operand"@,
        }
    }

    fn complaint_text(self) -> (s: &'static str)
        ensures
            s@ == self.complaint(),
    {
        match self {
            Required::Push => "push requires an operand",
            Required::Sto => "sto requires a value or register operand",
            Required::Select => "select requires component id or register",
            Required::Rotate => "rotate requires angle operand",
            Required::Drive => "drive requires velocity operand",
            Required::Fire => "fire requires power operand",
            Required::Dbg => "dbg requires an operand",
            Required::Sleep => "sleep requires an operand",
        }
    }
}

impl Unary {
    pub open spec fn spec_stack_form(self) -> Instruction {
        match self {
            Unary::Sqrt => Instruction::Sqrt,
            Unary::Log => Instruction::Log,
            Unary::Sin => Instruction::Sin,
            Unary::Cos => Instruction::Cos,
            Unary::Tan => Instruction::Tan,
            Unary::Asin => Instruction::Asin,
            Unary::Acos => Instruction::Acos,
            Unary::Atan => Instruction::Atan,
            Unary::Abs => Instruction::Abs,
            Unary::Not => Instruction::Not,
        }
    }

    /// The instruction in its stack form.
    #[verifier::when_used_as_spec(spec_stack_form)]
    pub fn stack_form(self) -> (i: Instruction)
        ensures
            i == self.spec_stack_form(),
    {
        match self {
            Unary::Sqrt => Instruction::Sqrt,
            Unary::Log => Instruction::Log,
            Unary::Sin => Instruction::Sin,
            Unary::Cos => Instruction::Cos,
            Unary::Tan => Instruction::Tan,
            Unary::Asin => Instruction::Asin,
            Unary::Acos => Instruction::Acos,
            Unary::Atan => Instruction::Atan,
            Unary::Abs => Instruction::Abs,
            Unary::Not => Instruction::Not,
        }
    }

    pub open spec fn spec_operand_form(self, op: Operand) -> Instruction {
        match self {
            Unary::Sqrt => Instruction::SqrtOp(op),
            Unary::Log => Instruction::LogOp(op),
            Unary::Sin => Instruction::SinOp(op),
            Unary::Cos => Instruction::CosOp(op),
            Unary::Tan => Instruction::TanOp(op),
            Unary::Asin => Instruction::AsinOp(op),
            Unary::Acos => Instruction::AcosOp(op),
            Unary::Atan => Instruction::AtanOp(op),
            Unary::Abs => Instruction::AbsOp(op),
            Unary::Not => Instruction::NotOp(op),
        }
    }

    /// The instruction in its operand form.
    #[verifier::when_used_as_spec(spec_operand_form)]
    pub fn operand_form(self, op: Operand) -> (i: Instruction)
        ensures
            i == self.spec_operand_form(op),
    {
        match self {
            Unary::Sqrt => Instruction::SqrtOp(op),
            Unary::Log => Instruction::LogOp(op),
            Unary::Sin => Instruction::SinOp(op),
            Unary::Cos => Instruction::CosOp(op),
            Unary::Tan => Instruction::TanOp(op),
            Unary::Asin => Instruction::AsinOp(op),
            Unary::Acos => Instruction::AcosOp(op),
            Unary::Atan => Instruction::AtanOp(op),
            Unary::Abs => Instruction::AbsOp(op),
            Unary::Not => Instruction::NotOp(op),
        }
    }
}

impl Binary {
    pub open spec fn spec_stack_form(self) -> Instruction {
        match self {
            Binary::Add => Instruction::Add,
            Binary::Sub => Instruction::Sub,
            Binary::Mul => Instruction::Mul,
            Binary::Div => Instruction::Div,
            Binary::Mod => Instruction::Mod,
            Binary::Pow => Instruction::Pow,
            Binary::Atan2 => Instruction::Atan2,
            Binary::And => Instruction::And,
            Binary::Or => Instruction::Or,
            Binary::Xor => Instruction::Xor,
            Binary::Shl => Instruction::Shl,
            Binary::Shr => Instruction::Shr,
        }
    }

    /// The instruction in its stack form.
    #[verifier::when_used_as_spec(spec_stack_form)]
    pub fn stack_form(self) -> (i: Instruction)
        ensures
            i == self.spec_stack_form(),
    {
        match self {
            Binary::Add => Instruction::Add,
            Binary::Sub => Instruction::Sub,
            Binary::Mul => Instruction::Mul,
            Binary::Div => Instruction::Div,
            Binary::Mod => Instruction::Mod,
            Binary::Pow => Instruction::Pow,
            Binary::Atan2 => Instruction::Atan2,
            Binary::And => Instruction::And,
            Binary::Or => Instruction::Or,
            Binary::Xor => Instruction::Xor,
            Binary::Shl => Instruction::Shl,
            Binary::Shr => Instruction::Shr,
        }
    }

    pub open spec fn spec_operand_form(self, left: Operand, right: Operand) -> Instruction {
        match self {
            Binary::Add => Instruction::AddOp(left, right),
            Binary::Sub => Instruction::SubOp(left, right),
            Binary::Mul => Instruction::MulOp(left, right),
            Binary::Div => Instruction::DivOp(left, right),
            Binary::Mod => Instruction::ModOp(left, right),
            Binary::Pow => Instruction::PowOp(left, right),
            Binary::Atan2 => Instruction::Atan2Op(left, right),
            Binary::And => Instruction::AndOp(left, right),
            Binary::Or => Instruction::OrOp(left, right),
            Binary::Xor => Instruction::XorOp(left, right),
            Binary::Shl => Instruction::ShlOp(left, right),
            Binary::Shr => Instruction::ShrOp(left, right),
        }
    }

    /// The instruction in its operand form.
    #[verifier::when_used_as_spec(spec_operand_form)]
    pub fn operand_form(self, left: Operand, right: Operand) -> (i: Instruction)
        ensures
            i == self.spec_operand_form(left, right),
    {
        match self {
            Binary::Add => Instruction::AddOp(left, right),
            Binary::Sub => Instruction::SubOp(left, right),
            Binary::Mul => Instruction::MulOp(left, right),
            Binary::Div => Instruction::DivOp(left, right),
            Binary::Mod => Instruction::ModOp(left, right),
            Binary::Pow => Instruction::PowOp(left, right),
            Binary::Atan2 => Instruction::Atan2Op(left, right),
            Binary::And => Instruction::AndOp(left, right),
            Binary::Or => Instruction::OrOp(left, right),
            Binary::Xor => Instruction::XorOp(left, right),
            Binary::Shl => Instruction::ShlOp(left, right),
            Binary::Shr => Instruction::ShrOp(left, right),
        }
    }
}

impl Jump {
    pub open spec fn spec_form(self, target: usize) -> Instruction {
        match self {
            Jump::Jmp => Instruction::Jmp(target),
            Jump::Jz => Instruction::Jz(target),
            Jump::Jnz => Instruction::Jnz(target),
            Jump::Jl => Instruction::Jl(target),
            Jump::Jle => Instruction::Jle(target),
            Jump::Jg => Instruction::Jg(target),
            Jump::Jge => Instruction::Jge(target),
            Jump::Call => Instruction::Call(target),
            Jump::Loop => Instruction::Loop(target),
        }
    }

    /// The instruction with its target.
    #[verifier::when_used_as_spec(spec_form)]
    pub fn form(self, target: usize) -> (i: Instruction)
        ensures
            i == self.spec_form(target),
    {
        match self {
            Jump::Jmp => Instruction::Jmp(target),
            Jump::Jz => Instruction::Jz(target),
            Jump::Jnz => Instruction::Jnz(target),
            Jump::Jl => Instruction::Jl(target),
            Jump::Jle => Instruction::Jle(target),
            Jump::Jg => Instruction::Jg(target),
            Jump::Jge => Instruction::Jge(target),
            Jump::Call => Instruction::Call(target),
            Jump::Loop => Instruction::Loop(target),
        }
    }

    /// What is said where the label is missing.
    pub open spec fn complaint(self) -> Seq<char> {
        match self {
            Jump::Call => "Missing label for call instruction"@,
            Jump::Loop => "Missing label for loop instruction"@,
            _ => "Missing label for jump instruction"@,
        }
    }

    fn complaint_text(self) -> (s: &'static str)
        ensures
            s@ == self.complaint(),
    {
        match self {
            Jump::Call => "Missing label for call instruction",
            Jump::Loop => "Missing label for loop instruction",
            _ => "Missing label for jump instruction",
        }
    }
}

/// The mnemonic that a word spells, whatever the case of its letters. `je`
/// and `jne` are other names of `jz` and `jnz`.
pub open spec fn mnemonic_of(word: Seq<char>) -> Option<Mnemonic> {
    if is_word(word, "push"@) {
        Some(Mnemonic::Required(Required::Push))
    } else if is_word(word, "pop"@) {
        Some(Mnemonic::Pop)
    } else if is_word(word, "dup"@) {
        Some(Mnemonic::Bare(Bare::Dup))
    } else if is_word(word, "swap"@) {
        Some(Mnemonic::Bare(Bare::Swap))
    } else if is_word(word, "mov"@) {
        Some(Mnemonic::Mov)
    } else if is_word(word, "lod"@) {
        Some(Mnemonic::Lod)
    } else if is_word(word, "sto"@) {
        Some(Mnemonic::Required(Required::Sto))
    } else if is_word(word, "cmp"@) {
        Some(Mnemonic::Cmp)
    } else if is_word(word, "add"@) {
        Some(Mnemonic::Binary(Binary::Add))
    } else if is_word(word, "sub"@) {
        Some(Mnemonic::Binary(Binary::Sub))
    } else if is_word(word, "mul"@) {
        Some(Mnemonic::Binary(Binary::Mul))
    } else if is_word(word, "div"@) {
        Some(Mnemonic::Binary(Binary::Div))
    } else if is_word(word, "mod"@) {
        Some(Mnemonic::Binary(Binary::Mod))
    } else if is_word(word, "divmod"@) {
        Some(Mnemonic::Bare(Bare::Divmod))
    } else if is_word(word, "pow"@) {
        Some(Mnemonic::Binary(Binary::Pow))
    } else if is_word(word, "sqrt"@) {
        Some(Mnemonic::Unary(Unary::Sqrt))
    } else if is_word(word, "log"@) {
        Some(Mnemonic::Unary(Unary::Log))
    } else if is_word(word, "sin"@) {
        Some(Mnemonic::Unary(Unary::Sin))
    } else if is_word(word, "cos"@) {
        Some(Mnemonic::Unary(Unary::Cos))
    } else if is_word(word, "tan"@) {
        Some(Mnemonic::Unary(Unary::Tan))
    } else if is_word(word, "asin"@) {
        Some(Mnemonic::Unary(Unary::Asin))
    } else if is_word(word, "acos"@) {
        Some(Mnemonic::Unary(Unary::Acos))
    } else if is_word(word, "atan"@) {
        Some(Mnemonic::Unary(Unary::Atan))
    } else if is_word(word, "atan2"@) {
        Some(Mnemonic::Binary(Binary::Atan2))
    } else if is_word(word, "abs"@) {
        Some(Mnemonic::Unary(Unary::Abs))
    } else if is_word(word, "and"@) {
        Some(Mnemonic::Binary(Binary::And))
    } else if is_word(word, "or"@) {
        Some(Mnemonic::Binary(Binary::Or))
    } else if is_word(word, "xor"@) {
        Some(Mnemonic::Binary(Binary::Xor))
    } else if is_word(word, "not"@) {
        Some(Mnemonic::Unary(Unary::Not))
    } else if is_word(word, "shl"@) {
        Some(Mnemonic::Binary(Binary::Shl))
    } else if is_word(word, "shr"@) {
        Some(Mnemonic::Binary(Binary::Shr))
    } else if is_word(word, "jmp"@) {
        Some(Mnemonic::Jump(Jump::Jmp))
    } else if is_word(word, "jz"@) || is_word(word, "je"@) {
        Some(Mnemonic::Jump(Jump::Jz))
    } else if is_word(word, "jnz"@) || is_word(word, "jne"@) {
        Some(Mnemonic::Jump(Jump::Jnz))
    } else if is_word(word, "jl"@) {
        Some(Mnemonic::Jump(Jump::Jl))
    } else if is_word(word, "jle"@) {
        Some(Mnemonic::Jump(Jump::Jle))
    } else if is_word(word, "jg"@) {
        Some(Mnemonic::Jump(Jump::Jg))
    } else if is_word(word, "jge"@) {
        Some(Mnemonic::Jump(Jump::Jge))
    } else if is_word(word, "call"@) {
        Some(Mnemonic::Jump(Jump::Call))
    } else if is_word(word, "ret"@) {
        Some(Mnemonic::Bare(Bare::Ret))
    } else if is_word(word, "loop"@) {
        Some(Mnemonic::Jump(Jump::Loop))
    } else if is_word(word, "select"@) {
        Some(Mnemonic::Required(Required::Select))
    } else if is_word(word, "deselect"@) {
        Some(Mnemonic::Bare(Bare::Deselect))
    } else if is_word(word, "rotate"@) {
        Some(Mnemonic::Required(Required::Rotate))
    } else if is_word(word, "drive"@) {
        Some(Mnemonic::Required(Required::Drive))
    } else if is_word(word, "fire"@) {
        Some(Mnemonic::Required(Required::Fire))
    } else if is_word(word, "scan"@) {
        Some(Mnemonic::Bare(Bare::Scan))
    } else if is_word(word, "nop"@) {
        Some(Mnemonic::Bare(Bare::Nop))
    } else if is_word(word, "dbg"@) {
        Some(Mnemonic::Required(Required::Dbg))
    } else if is_word(word, "sleep"@) {
        Some(Mnemonic::Required(Required::Sleep))
    } else {
        None
    }
}

/// The register that a word names, whatever the case of its letters. The
/// names of two words come with and without an underscore between them.
pub open spec fn register_named(word: Seq<char>) -> Option<Register> {
    if is_word(word, "@d0"@) {
        Some(Register::D0)
    } else if is_word(word, "@d1"@) {
        Some(Register::D1)
    } else if is_word(word, "@d2"@) {
        Some(Register::D2)
    } else if is_word(word, "@d3"@) {
        Some(Register::D3)
    } else if is_word(word, "@d4"@) {
        Some(Register::D4)
    } else if is_word(word, "@d5"@) {
        Some(Register::D5)
    } else if is_word(word, "@d6"@) {
        Some(Register::D6)
    } else if is_word(word, "@d7"@) {
        Some(Register::D7)
    } else if is_word(word, "@d8"@) {
        Some(Register::D8)
    } else if is_word(word, "@d9"@) {
        Some(Register::D9)
    } else if is_word(word, "@d10"@) {
        Some(Register::D10)
    } else if is_word(word, "@d11"@) {
        Some(Register::D11)
    } else if is_word(word, "@d12"@) {
        Some(Register::D12)
    } else if is_word(word, "@d13"@) {
        Some(Register::D13)
    } else if is_word(word, "@d14"@) {
        Some(Register::D14)
    } else if is_word(word, "@d15"@) {
        Some(Register::D15)
    } else if is_word(word, "@d16"@) {
        Some(Register::D16)
    } else if is_word(word, "@d17"@) {
        Some(Register::D17)
    } else if is_word(word, "@d18"@) {
        Some(Register::D18)
    } else if is_word(word, "@c"@) {
        Some(Register::C)
    } else if is_word(word, "@result"@) {
        Some(Register::Result)
    } else if is_word(word, "@fault"@) {
        Some(Register::Fault)
    } else if is_word(word, "@index"@) {
        Some(Register::Index)
    } else if is_word(word, "@turn"@) {
        Some(Register::Turn)
    } else if is_word(word, "@cycle"@) {
        Some(Register::Cycle)
    } else if is_word(word, "@rand"@) {
        Some(Register::Rand)
    } else if is_word(word, "@health"@) {
        Some(Register::Health)
    } else if is_word(word, "@power"@) {
        Some(Register::Power)
    } else if is_word(word, "@component"@) {
        Some(Register::Component)
    } else if is_word(word, "@turretdirection"@) || is_word(word, "@turret_direction"@) {
        Some(Register::TurretDirection)
    } else if is_word(word, "@drivedirection"@) || is_word(word, "@drive_direction"@) {
        Some(Register::DriveDirection)
    } else if is_word(word, "@drivevelocity"@) || is_word(word, "@drive_velocity"@) {
        Some(Register::DriveVelocity)
    } else if is_word(word, "@posx"@) || is_word(word, "@pos_x"@) {
        Some(Register::PosX)
    } else if is_word(word, "@posy"@) || is_word(word, "@pos_y"@) {
        Some(Register::PosY)
    } else if is_word(word, "@forwarddistance"@) || is_word(word, "@forward_distance"@) {
        Some(Register::ForwardDistance)
    } else if is_word(word, "@backwarddistance"@) || is_word(word, "@backward_distance"@) {
        Some(Register::BackwardDistance)
    } else if is_word(word, "@weaponpower"@) || is_word(word, "@weapon_power"@) {
        Some(Register::WeaponPower)
    } else if is_word(word, "@weaponcooldown"@) || is_word(word, "@weapon_cooldown"@) {
        Some(Register::WeaponCooldown)
    } else if is_word(word, "@targetdistance"@) || is_word(word, "@target_distance"@) {
        Some(Register::TargetDistance)
    } else if is_word(word, "@targetdirection"@) || is_word(word, "@target_direction"@) {
        Some(Register::TargetDirection)
    } else {
        None
    }
}

/// An error whose message is `prefix`, `detail`, `suffix` in a row.
pub open spec fn fault_at(
    line: usize,
    kind: ParseErrorKind,
    prefix: Seq<char>,
    detail: Seq<char>,
    suffix: Seq<char>,
) -> ParseFault {
    ParseFault { line, kind, message: prefix + detail + suffix }
}

/// An error whose message is a fixed text.
pub open spec fn plain_fault(line: usize, kind: ParseErrorKind, message: Seq<char>) -> ParseFault {
    ParseFault { line, kind, message }
}

/// The register that a word must name.
pub open spec fn register_of(word: Seq<char>, line: usize) -> Result<Register, ParseFault> {
    match register_named(word) {
        Some(reg) => Ok(reg),
        None => Err(
            fault_at(
                line,
                ParseErrorKind::UnknownRegister,
                "Unknown register: "@,
                word,
                Seq::empty(),
            ),
        ),
    }
}

/// The operand that a word is: a number, else a register, else a constant.
pub open spec fn operand_of<N: Fn(&Vec<char>) -> Option<u64>>(
    word: Seq<char>,
    constants: Seq<(Seq<char>, u64)>,
    line: usize,
    reader: &N,
) -> Result<Operand, ParseFault> {
    match reading(reader, word) {
        Some(value) => Ok(Operand::Value(value)),
        None => match register_named(word) {
            Some(reg) => Ok(Operand::Register(reg)),
            None => match lookup(constants, word) {
                Some(value) => Ok(Operand::Value(value)),
                None => Err(
                    fault_at(
                        line,
                        ParseErrorKind::InvalidOperand,
                        "Invalid operand: "@,
                        word,
                        " (not a number, register, or known constant)"@,
                    ),
                ),
            },
        },
    }
}

/// What the names of a program stand for: the constants, those of the host
/// first, and the labels, each in the order of their definition, and the
/// number of instructions counted so far.
pub struct Symbols {
    pub constants: Seq<(Seq<char>, u64)>,
    pub labels: Seq<(Seq<char>, usize)>,
    pub count: usize,
}

/// The text before the first `c`.
pub open spec fn before(s: Seq<char>, c: char) -> Seq<char> {
    s.subrange(0, find_char(s, c, 0))
}

/// What a line holds beside white space and comment.
pub open spec fn code_of(line: Seq<char>) -> Seq<char> {
    let bare = before(before(trim(line), ';'), '#');
    trim(bare.subrange(0, find_slashes(bare, 0)))
}

/// The line is a `.const` line.
pub open spec fn is_definition(code: Seq<char>) -> bool {
    ".const"@.is_prefix_of(code)
}

/// What is said of an error in a constant expression.
pub open spec fn expression_message(e: ExpressionFault) -> Seq<char> {
    match e.kind {
        ExpressionError::DivisionByZero => "Division by zero in constant expression"@,
        ExpressionError::ModuloByZero => "Modulo by zero in constant expression"@,
        ExpressionError::UnbalancedParentheses => "Missing closing parenthesis"@,
        ExpressionError::UnexpectedEnd => "Unexpected end of expression"@,
        ExpressionError::UnknownToken => "Unknown token in expression: '"@ + e.token + "'"@,
        ExpressionError::TrailingToken => "Unexpected token at end of expression: '"@ + e.token
            + "'"@,
    }
}

/// The names after a `.const` line: the second word is the name of the
/// constant, what follows it the expression. The name must not be one of the
/// host's, the expression must have a value, and the name must be new.
pub open spec fn define<F: Fn(Op, u64, u64) -> u64, N: Fn(&Vec<char>) -> Option<u64>>(
    code: Seq<char>,
    line: usize,
    symbols: Symbols,
    builtin: Seq<(Seq<char>, u64)>,
    fpu: &F,
    reader: &N,
) -> Result<Symbols, ParseFault> {
    let name_start = skip_spaces(code, word_end(code, 0));
    let name_end = word_end(code, name_start);
    let name = code.subrange(name_start, name_end);
    let expr_start = skip_spaces(code, name_end);
    if expr_start >= code.len() {
        Err(
            plain_fault(
                line,
                ParseErrorKind::InvalidConstant,
                "Invalid .const format. Use: .const NAME EXPRESSION"@,
            ),
        )
    } else if lookup(builtin, name) is Some {
        Err(
            fault_at(
                line,
                ParseErrorKind::RedefinedBuiltin,
                "Attempted to redefine built-in constant: "@,
                name,
                Seq::empty(),
            ),
        )
    } else {
        match value_of(code.subrange(expr_start, code.len() as int), symbols.constants, fpu, reader) {
            Err(e) => Err(
                fault_at(
                    line,
                    ParseErrorKind::InvalidExpression(e.kind),
                    "Invalid expression for constant "@,
                    name,
                    ": "@ + expression_message(e),
                ),
            ),
            Ok(value) => if lookup(symbols.constants, name) is Some {
                Err(
                    fault_at(
                        line,
                        ParseErrorKind::DuplicateConstant,
                        "Duplicate constant definition: "@,
                        name,
                        Seq::empty(),
                    ),
                )
            } else {
                Ok(Symbols { constants: symbols.constants.push((name, value)), ..symbols })
            },
        }
    }
}

/// The part of a line of code after its label, if it has one.
pub open spec fn instruction_part(code: Seq<char>) -> Seq<char> {
    let colon = find_char(code, ':', 0);
    if colon < code.len() {
        trim(code.subrange(colon + 1, code.len() as int))
    } else {
        code
    }
}

/// The names after a line of code that is no `.const` line: a label before a
/// colon stands for the number of instructions counted so far; an
/// instruction on the line is counted.
pub open spec fn mark(code: Seq<char>, line: usize, symbols: Symbols) -> Result<
    Symbols,
    ParseFault,
> {
    let colon = find_char(code, ':', 0);
    let count = if instruction_part(code).len() > 0 && symbols.count < usize::MAX {
        (symbols.count + 1) as usize
    } else {
        symbols.count
    };
    if colon < code.len() {
        let label = trim(code.subrange(0, colon));
        if label.len() == 0 {
            Err(plain_fault(line, ParseErrorKind::EmptyLabel, "Label cannot be empty"@))
        } else if lookup(symbols.labels, label) is Some {
            Err(
                fault_at(
                    line,
                    ParseErrorKind::DuplicateLabel,
                    "Duplicate label: "@,
                    label,
                    Seq::empty(),
                ),
            )
        } else {
            Ok(Symbols { labels: symbols.labels.push((label, symbols.count)), count, ..symbols })
        }
    } else {
        Ok(Symbols { count, ..symbols })
    }
}

/// The names after one more line.
pub open spec fn note<F: Fn(Op, u64, u64) -> u64, N: Fn(&Vec<char>) -> Option<u64>>(
    code: Seq<char>,
    line: usize,
    symbols: Symbols,
    builtin: Seq<(Seq<char>, u64)>,
    fpu: &F,
    reader: &N,
) -> Result<Symbols, ParseFault> {
    if code.len() == 0 {
        Ok(symbols)
    } else if is_definition(code) {
        define(code, line, symbols, builtin, fpu, reader)
    } else {
        mark(code, line, symbols)
    }
}

/// The names of the program once the lines from `start` on, the first of
/// them numbered `line`, are noted.
pub open spec fn first_pass<F: Fn(Op, u64, u64) -> u64, N: Fn(&Vec<char>) -> Option<u64>>(
    text: Seq<char>,
    start: int,
    line: usize,
    symbols: Symbols,
    builtin: Seq<(Seq<char>, u64)>,
    fpu: &F,
    reader: &N,
) -> Result<Symbols, ParseFault>
    decreases text.len() - start,
{
    if start < 0 || start > text.len() {
        Ok(symbols)
    } else {
        let end = find_char(text, '\n', start);
        proof {
            lemma_find_bounds(text, '\n', start);
        }
        match note(code_of(text.subrange(start, end)), line, symbols, builtin, fpu, reader) {
            Err(e) => Err(e),
            Ok(next) => if end >= text.len() || line == usize::MAX {
                Ok(next)
            } else {
                first_pass(text, end + 1, (line + 1) as usize, next, builtin, fpu, reader)
            },
        }
    }
}

/// What a line of the second pass comes to.
pub enum Decoded {
    /// The line holds no instruction.
    Nothing,
    Instruction(Instruction),
    /// The line is wrong, and the reading ends here.
    Stop(ParseFault),
    /// The line is wrong; the error is reported unless a later line ends the
    /// reading with its own.
    Wrong(ParseFault),
}

/// The result of a step that can end the reading.
pub open spec fn or_stop<T>(res: Result<T, ParseFault>, then: spec_fn(T) -> Decoded) -> Decoded {
    match res {
        Ok(value) => then(value),
        Err(e) => Decoded::Stop(e),
    }
}

/// The instruction that the words of a line spell.
pub open spec fn decode<N: Fn(&Vec<char>) -> Option<u64>>(
    parts: Seq<Seq<char>>,
    line: usize,
    symbols: Symbols,
    reader: &N,
) -> Decoded {
    if parts.len() == 0 {
        Decoded::Nothing
    } else {
        match mnemonic_of(parts[0]) {
            None => Decoded::Wrong(
                fault_at(
                    line,
                    ParseErrorKind::UnknownInstruction,
                    "Unknown instruction: "@,
                    parts[0],
                    Seq::empty(),
                ),
            ),
            Some(Mnemonic::Bare(bare)) => Decoded::Instruction(bare.form()),
            Some(Mnemonic::Required(required)) => if parts.len() > 1 {
                or_stop(
                    operand_of(parts[1], symbols.constants, line, reader),
                    |op: Operand| Decoded::Instruction(required.form(op)),
                )
            } else {
                Decoded::Wrong(
                    plain_fault(line, ParseErrorKind::MissingOperand, required.complaint()),
                )
            },
            Some(Mnemonic::Unary(unary)) => if parts.len() > 1 {
                or_stop(
                    operand_of(parts[1], symbols.constants, line, reader),
                    |op: Operand| Decoded::Instruction(unary.operand_form(op)),
                )
            } else {
                Decoded::Instruction(unary.stack_form())
            },
            Some(Mnemonic::Binary(binary)) => if parts.len() > 2 {
                or_stop(
                    operand_of(parts[1], symbols.constants, line, reader),
                    |left: Operand|
                        or_stop(
                            operand_of(parts[2], symbols.constants, line, reader),
                            |right: Operand| Decoded::Instruction(binary.operand_form(left, right)),
                        ),
                )
            } else {
                Decoded::Instruction(binary.stack_form())
            },
            Some(Mnemonic::Jump(jump)) => if parts.len() > 1 {
                match lookup(symbols.labels, parts[1]) {
                    Some(target) => Decoded::Instruction(jump.form(target)),
                    None => Decoded::Stop(
                        fault_at(
                            line,
                            ParseErrorKind::UnknownLabel,
                            "Unknown label: "@,
                            parts[1],
                            Seq::empty(),
                        ),
                    ),
                }
            } else {
                Decoded::Stop(plain_fault(line, ParseErrorKind::MissingLabel, jump.complaint()))
            },
            Some(Mnemonic::Pop) => if parts.len() == 1 {
                Decoded::Instruction(Instruction::PopDiscard)
            } else {
                or_stop(
                    register_of(parts[1], line),
                    |reg: Register| Decoded::Instruction(Instruction::Pop(reg)),
                )
            },
            Some(Mnemonic::Mov) => if parts.len() > 2 {
                or_stop(
                    register_of(parts[1], line),
                    |reg: Register|
                        or_stop(
                            operand_of(parts[2], symbols.constants, line, reader),
                            |op: Operand| Decoded::Instruction(Instruction::Mov(reg, op)),
                        ),
                )
            } else {
                Decoded::Wrong(
                    plain_fault(
                        line,
                        ParseErrorKind::MissingOperand,
                        "mov requires register and operand"@,
                    ),
                )
            },
            Some(Mnemonic::Lod) => if parts.len() > 1 {
                or_stop(
                    register_of(parts[1], line),
                    |reg: Register| Decoded::Instruction(Instruction::Lod(reg)),
                )
            } else {
                Decoded::Wrong(
                    plain_fault(
                        line,
                        ParseErrorKind::MissingOperand,
                        "lod requires destination register"@,
                    ),
                )
            },
            Some(Mnemonic::Cmp) => if parts.len() > 2 {
                or_stop(
                    operand_of(parts[1], symbols.constants, line, reader),
                    |left: Operand|
                        or_stop(
                            operand_of(parts[2], symbols.constants, line, reader),
                            |right: Operand| Decoded::Instruction(Instruction::Cmp(left, right)),
                        ),
                )
            } else {
                Decoded::Wrong(
                    plain_fault(
                        line,
                        ParseErrorKind::MissingOperand,
                        "cmp requires two operands"@,
                    ),
                )
            },
        }
    }
}

/// What a line of code comes to in the second pass.
pub open spec fn read_line<N: Fn(&Vec<char>) -> Option<u64>>(
    code: Seq<char>,
    line: usize,
    symbols: Symbols,
    reader: &N,
) -> Decoded {
    if code.len() == 0 || is_definition(code) {
        Decoded::Nothing
    } else {
        decode(words(instruction_part(code)), line, symbols, reader)
    }
}

/// The instructions of the program once the lines from `start` on, the first
/// of them numbered `line`, are read. `done` are the instructions read
/// before, `wrong` the first error that did not end the reading.
pub open spec fn second_pass<N: Fn(&Vec<char>) -> Option<u64>>(
    text: Seq<char>,
    start: int,
    line: usize,
    symbols: Symbols,
    reader: &N,
    done: Seq<Instruction>,
    wrong: Option<ParseFault>,
) -> Result<Seq<Instruction>, ParseFault>
    decreases text.len() - start,
{
    if start < 0 || start > text.len() {
        Ok(done)
    } else {
        let end = find_char(text, '\n', start);
        proof {
            lemma_find_bounds(text, '\n', start);
        }
        match read_line(code_of(text.subrange(start, end)), line, symbols, reader) {
            Decoded::Stop(e) => Err(e),
            decoded => {
                let done = match decoded {
                    Decoded::Instruction(i) => done.push(i),
                    _ => done,
                };
                let wrong = match (wrong, decoded) {
                    (None, Decoded::Wrong(e)) => Some(e),
                    _ => wrong,
                };
                if end >= text.len() || line == usize::MAX {
                    match wrong {
                        Some(e) => Err(e),
                        None => Ok(done),
                    }
                } else {
                    second_pass(text, end + 1, (line + 1) as usize, symbols, reader, done, wrong)
                }
            },
        }
    }
}

/// What the assembler makes of a text.
pub open spec fn assembled<F: Fn(Op, u64, u64) -> u64, N: Fn(&Vec<char>) -> Option<u64>>(
    text: Seq<char>,
    builtin: Seq<(Seq<char>, u64)>,
    fpu: &F,
    reader: &N,
) -> Result<ProgramView, ParseFault> {
    match first_pass(
        text,
        0,
        1,
        Symbols { constants: builtin, labels: Seq::empty(), count: 0 },
        builtin,
        fpu,
        reader,
    ) {
        Err(e) => Err(e),
        Ok(symbols) => match second_pass(text, 0, 1, symbols, reader, Seq::empty(), None) {
            Err(e) => Err(e),
            Ok(instructions) => Ok(ProgramView { instructions, labels: symbols.labels }),
        },
    }
}


/// The names that the assembler has collected.
struct Names {
    constants: Vec<(Vec<char>, u64)>,
    labels: Vec<(Vec<char>, usize)>,
    count: usize,
}

impl View for Names {
    type V = Symbols;

    closed spec fn view(&self) -> Symbols {
        Symbols {
            constants: named(self.constants@),
            labels: named(self.labels@),
            count: self.count,
        }
    }
}

/// What a line of the second pass comes to.
enum Reading {
    Nothing,
    Instruction(Instruction),
    Stop(ParseError),
    Wrong(ParseError),
}

impl View for Reading {
    type V = Decoded;

    closed spec fn view(&self) -> Decoded {
        match *self {
            Reading::Nothing => Decoded::Nothing,
            Reading::Instruction(i) => Decoded::Instruction(i),
            Reading::Stop(e) => Decoded::Stop(e@),
            Reading::Wrong(e) => Decoded::Wrong(e@),
        }
    }
}

/// `String::from_iter` on the characters of a text: the string of just these
/// characters, in their order.
#[verifier::external_body]
fn text_of(chars: &Vec<char>) -> (s: String)
    ensures
        s@ == chars@,
{
    String::from_iter(chars)
}

/// Three texts in a row.
fn join(prefix: &Vec<char>, detail: &Vec<char>, suffix: &Vec<char>) -> (all: Vec<char>)
    ensures
        all@ == prefix@ + detail@ + suffix@,
{
    let mut all: Vec<char> = Vec::new();
    let mut i: usize = 0;
    while i < prefix.len()
        invariant
            i <= prefix.len(),
            all@ == prefix@.subrange(0, i as int),
        decreases prefix.len() - i,
    {
        all.push(prefix[i]);
        i += 1;
        assert(all@ =~= prefix@.subrange(0, i as int));
    }
    assert(all@ =~= prefix@);
    i = 0;
    while i < detail.len()
        invariant
            i <= detail.len(),
            all@ == prefix@ + detail@.subrange(0, i as int),
        decreases detail.len() - i,
    {
        all.push(detail[i]);
        i += 1;
        assert(all@ =~= prefix@ + detail@.subrange(0, i as int));
    }
    assert(all@ =~= prefix@ + detail@);
    i = 0;
    while i < suffix.len()
        invariant
            i <= suffix.len(),
            all@ == prefix@ + detail@ + suffix@.subrange(0, i as int),
        decreases suffix.len() - i,
    {
        all.push(suffix[i]);
        i += 1;
        assert(all@ =~= prefix@ + detail@ + suffix@.subrange(0, i as int));
    }
    assert(all@ =~= prefix@ + detail@ + suffix@);
    all
}

/// An error whose message is `prefix`, `detail`, `suffix` in a row.
fn error_at(line: usize, kind: ParseErrorKind, prefix: &str, detail: &Vec<char>, suffix: &Vec<char>) -> (e:
    ParseError)
    ensures
        e@ == fault_at(line, kind, prefix@, detail@, suffix@),
{
    let message = join(&chars_of(prefix), detail, suffix);
    ParseError { line, kind, message: text_of(&message) }
}

/// An error whose message is a fixed text.
fn plain_error(line: usize, kind: ParseErrorKind, message: &str) -> (e: ParseError)
    ensures
        e@ == plain_fault(line, kind, message@),
{
    ParseError { line, kind, message: text_of(&chars_of(message)) }
}

/// The mnemonic that a word spells.
fn read_mnemonic(word: &Vec<char>) -> (m: Option<Mnemonic>)
    ensures
        m == mnemonic_of(word@),
{
    if matches_word(word, "push") {
        Some(Mnemonic::Required(Required::Push))
    } else if matches_word(word, "pop") {
        Some(Mnemonic::Pop)
    } else if matches_word(word, "dup") {
        Some(Mnemonic::Bare(Bare::Dup))
    } else if matches_word(word, "swap") {
        Some(Mnemonic::Bare(Bare::Swap))
    } else if matches_word(word, "mov") {
        Some(Mnemonic::Mov)
    } else if matches_word(word, "lod") {
        Some(Mnemonic::Lod)
    } else if matches_word(word, "sto") {
        Some(Mnemonic::Required(Required::Sto))
    } else if matches_word(word, "cmp") {
        Some(Mnemonic::Cmp)
    } else if matches_word(word, "add") {
        Some(Mnemonic::Binary(Binary::Add))
    } else if matches_word(word, "sub") {
        Some(Mnemonic::Binary(Binary::Sub))
    } else if matches_word(word, "mul") {
        Some(Mnemonic::Binary(Binary::Mul))
    } else if matches_word(word, "div") {
        Some(Mnemonic::Binary(Binary::Div))
    } else if matches_word(word, "mod") {
        Some(Mnemonic::Binary(Binary::Mod))
    } else if matches_word(word, "divmod") {
        Some(Mnemonic::Bare(Bare::Divmod))
    } else if matches_word(word, "pow") {
        Some(Mnemonic::Binary(Binary::Pow))
    } else if matches_word(word, "sqrt") {
        Some(Mnemonic::Unary(Unary::Sqrt))
    } else if matches_word(word, "log") {
        Some(Mnemonic::Unary(Unary::Log))
    } else if matches_word(word, "sin") {
        Some(Mnemonic::Unary(Unary::Sin))
    } else if matches_word(word, "cos") {
        Some(Mnemonic::Unary(Unary::Cos))
    } else if matches_word(word, "tan") {
        Some(Mnemonic::Unary(Unary::Tan))
    } else if matches_word(word, "asin") {
        Some(Mnemonic::Unary(Unary::Asin))
    } else if matches_word(word, "acos") {
        Some(Mnemonic::Unary(Unary::Acos))
    } else if matches_word(word, "atan") {
        Some(Mnemonic::Unary(Unary::Atan))
    } else if matches_word(word, "atan2") {
        Some(Mnemonic::Binary(Binary::Atan2))
    } else if matches_word(word, "abs") {
        Some(Mnemonic::Unary(Unary::Abs))
    } else if matches_word(word, "and") {
        Some(Mnemonic::Binary(Binary::And))
    } else if matches_word(word, "or") {
        Some(Mnemonic::Binary(Binary::Or))
    } else if matches_word(word, "xor") {
        Some(Mnemonic::Binary(Binary::Xor))
    } else if matches_word(word, "not") {
        Some(Mnemonic::Unary(Unary::Not))
    } else if matches_word(word, "shl") {
        Some(Mnemonic::Binary(Binary::Shl))
    } else if matches_word(word, "shr") {
        Some(Mnemonic::Binary(Binary::Shr))
    } else if matches_word(word, "jmp") {
        Some(Mnemonic::Jump(Jump::Jmp))
    } else if matches_word(word, "jz") || matches_word(word, "je") {
        Some(Mnemonic::Jump(Jump::Jz))
    } else if matches_word(word, "jnz") || matches_word(word, "jne") {
        Some(Mnemonic::Jump(Jump::Jnz))
    } else if matches_word(word, "jl") {
        Some(Mnemonic::Jump(Jump::Jl))
    } else if matches_word(word, "jle") {
        Some(Mnemonic::Jump(Jump::Jle))
    } else if matches_word(word, "jg") {
        Some(Mnemonic::Jump(Jump::Jg))
    } else if matches_word(word, "jge") {
        Some(Mnemonic::Jump(Jump::Jge))
    } else if matches_word(word, "call") {
        Some(Mnemonic::Jump(Jump::Call))
    } else if matches_word(word, "ret") {
        Some(Mnemonic::Bare(Bare::Ret))
    } else if matches_word(word, "loop") {
        Some(Mnemonic::Jump(Jump::Loop))
    } else if matches_word(word, "select") {
        Some(Mnemonic::Required(Required::Select))
    } else if matches_word(word, "deselect") {
        Some(Mnemonic::Bare(Bare::Deselect))
    } else if matches_word(word, "rotate") {
        Some(Mnemonic::Required(Required::Rotate))
    } else if matches_word(word, "drive") {
        Some(Mnemonic::Required(Required::Drive))
    } else if matches_word(word, "fire") {
        Some(Mnemonic::Required(Required::Fire))
    } else if matches_word(word, "scan") {
        Some(Mnemonic::Bare(Bare::Scan))
    } else if matches_word(word, "nop") {
        Some(Mnemonic::Bare(Bare::Nop))
    } else if matches_word(word, "dbg") {
        Some(Mnemonic::Required(Required::Dbg))
    } else if matches_word(word, "sleep") {
        Some(Mnemonic::Required(Required::Sleep))
    } else {
        None
    }
}

/// The register that a word names.
pub fn find_register(word: &Vec<char>) -> (reg: Option<Register>)
    ensures
        reg == register_named(word@),
{
    if matches_word(word, "@d0") {
        Some(Register::D0)
    } else if matches_word(word, "@d1") {
        Some(Register::D1)
    } else if matches_word(word, "@d2") {
        Some(Register::D2)
    } else if matches_word(word, "@d3") {
        Some(Register::D3)
    } else if matches_word(word, "@d4") {
        Some(Register::D4)
    } else if matches_word(word, "@d5") {
        Some(Register::D5)
    } else if matches_word(word, "@d6") {
        Some(Register::D6)
    } else if matches_word(word, "@d7") {
        Some(Register::D7)
    } else if matches_word(word, "@d8") {
        Some(Register::D8)
    } else if matches_word(word, "@d9") {
        Some(Register::D9)
    } else if matches_word(word, "@d10") {
        Some(Register::D10)
    } else if matches_word(word, "@d11") {
        Some(Register::D11)
    } else if matches_word(word, "@d12") {
        Some(Register::D12)
    } else if matches_word(word, "@d13") {
        Some(Register::D13)
    } else if matches_word(word, "@d14") {
        Some(Register::D14)
    } else if matches_word(word, "@d15") {
        Some(Register::D15)
    } else if matches_word(word, "@d16") {
        Some(Register::D16)
    } else if matches_word(word, "@d17") {
        Some(Register::D17)
    } else if matches_word(word, "@d18") {
        Some(Register::D18)
    } else if matches_word(word, "@c") {
        Some(Register::C)
    } else if matches_word(word, "@result") {
        Some(Register::Result)
    } else if matches_word(word, "@fault") {
        Some(Register::Fault)
    } else if matches_word(word, "@index") {
        Some(Register::Index)
    } else if matches_word(word, "@turn") {
        Some(Register::Turn)
    } else if matches_word(word, "@cycle") {
        Some(Register::Cycle)
    } else if matches_word(word, "@rand") {
        Some(Register::Rand)
    } else if matches_word(word, "@health") {
        Some(Register::Health)
    } else if matches_word(word, "@power") {
        Some(Register::Power)
    } else if matches_word(word, "@component") {
        Some(Register::Component)
    } else if matches_word(word, "@turretdirection") || matches_word(word, "@turret_direction") {
        Some(Register::TurretDirection)
    } else if matches_word(word, "@drivedirection") || matches_word(word, "@drive_direction") {
        Some(Register::DriveDirection)
    } else if matches_word(word, "@drivevelocity") || matches_word(word, "@drive_velocity") {
        Some(Register::DriveVelocity)
    } else if matches_word(word, "@posx") || matches_word(word, "@pos_x") {
        Some(Register::PosX)
    } else if matches_word(word, "@posy") || matches_word(word, "@pos_y") {
        Some(Register::PosY)
    } else if matches_word(word, "@forwarddistance") || matches_word(word, "@forward_distance") {
        Some(Register::ForwardDistance)
    } else if matches_word(word, "@backwarddistance") || matches_word(word, "@backward_distance") {
        Some(Register::BackwardDistance)
    } else if matches_word(word, "@weaponpower") || matches_word(word, "@weapon_power") {
        Some(Register::WeaponPower)
    } else if matches_word(word, "@weaponcooldown") || matches_word(word, "@weapon_cooldown") {
        Some(Register::WeaponCooldown)
    } else if matches_word(word, "@targetdistance") || matches_word(word, "@target_distance") {
        Some(Register::TargetDistance)
    } else if matches_word(word, "@targetdirection") || matches_word(word, "@target_direction") {
        Some(Register::TargetDirection)
    } else {
        None
    }
}

/// The register that a word must name. A missing word and a word that names
/// no register are errors.
pub fn parse_register(part: Option<&Vec<char>>, line: usize) -> (res: Result<Register, ParseError>)
    ensures
        match (part, res) {
            (None, Err(e)) => e@ == plain_fault(
                line,
                ParseErrorKind::MissingRegister,
                "Missing register"@,
            ),
            (Some(word), Ok(reg)) => register_of(word@, line) == Ok::<Register, ParseFault>(reg),
            (Some(word), Err(e)) => register_of(word@, line) == Err::<Register, ParseFault>(e@),
            _ => false,
        },
{
    match part {
        None => Err(plain_error(line, ParseErrorKind::MissingRegister, "Missing register")),
        Some(word) => match find_register(word) {
            Some(reg) => Ok(reg),
            None => Err(
                error_at(
                    line,
                    ParseErrorKind::UnknownRegister,
                    "Unknown register: ",
                    word,
                    &Vec::new(),
                ),
            ),
        },
    }
}

/// The operand that a word must be: a number, else a register, else a
/// constant. A missing word is an error, and so is a word that is none of
/// these.
pub fn parse_operand<N: Fn(&Vec<char>) -> Option<u64>>(
    part: Option<&Vec<char>>,
    constants: &Vec<(Vec<char>, u64)>,
    line: usize,
    reader: &N,
) -> (res: Result<Operand, ParseError>)
    requires
        is_reader(reader),
    ensures
        match (part, res) {
            (None, Err(e)) => e@ == plain_fault(
                line,
                ParseErrorKind::MissingOperand,
                "Missing operand"@,
            ),
            (Some(word), Ok(op)) => operand_of(word@, named(constants@), line, reader) == Ok::<
                Operand,
                ParseFault,
            >(op),
            (Some(word), Err(e)) => operand_of(word@, named(constants@), line, reader) == Err::<
                Operand,
                ParseFault,
            >(e@),
            _ => false,
        },
{
    let word = match part {
        None => {
            return Err(plain_error(line, ParseErrorKind::MissingOperand, "Missing operand"));
        },
        Some(word) => word,
    };
    if let Some(value) = read_number(reader, word) {
        return Ok(Operand::Value(value));
    }
    if let Some(reg) = find_register(word) {
        return Ok(Operand::Register(reg));
    }
    if let Some(value) = find(constants, word) {
        return Ok(Operand::Value(value));
    }
    Err(
        error_at(
            line,
            ParseErrorKind::InvalidOperand,
            "Invalid operand: ",
            word,
            &chars_of(" (not a number, register, or known constant)"),
        ),
    )
}

/// What a line holds beside white space and comment.
fn code_line(text: &Vec<char>, start: usize, end: usize) -> (code: Vec<char>)
    requires
        start <= end <= text.len(),
    ensures
        code@ == code_of(text@.subrange(start as int, end as int)),
{
    let line = trimmed(&slice(text, start, end));
    let semicolon = position(&line, ';', 0);
    let first = slice(&line, 0, semicolon);
    let hash = position(&first, '#', 0);
    let second = slice(&first, 0, hash);
    let slashes = position_of_slashes(&second);
    trimmed(&slice(&second, 0, slashes))
}

/// What is said of an error in a constant expression.
fn expression_text(e: &ExpressionFailure) -> (message: Vec<char>)
    ensures
        message@ == expression_message(e@),
{
    match e.kind {
        ExpressionError::DivisionByZero => chars_of("Division by zero in constant expression"),
        ExpressionError::ModuloByZero => chars_of("Modulo by zero in constant expression"),
        ExpressionError::UnbalancedParentheses => chars_of("Missing closing parenthesis"),
        ExpressionError::UnexpectedEnd => chars_of("Unexpected end of expression"),
        ExpressionError::UnknownToken => join(
            &chars_of("Unknown token in expression: '"),
            &e.token,
            &chars_of("'"),
        ),
        ExpressionError::TrailingToken => join(
            &chars_of("Unexpected token at end of expression: '"),
            &e.token,
            &chars_of("'"),
        ),
    }
}

/// Notes a `.const` line.
fn define_constant<F: Fn(Op, u64, u64) -> u64, N: Fn(&Vec<char>) -> Option<u64>>(
    code: &Vec<char>,
    line: usize,
    names: &mut Names,
    builtin: &Vec<(Vec<char>, u64)>,
    fpu: &F,
    reader: &N,
) -> (res: Result<(), ParseError>)
    requires
        is_unit(fpu),
        is_reader(reader),
    ensures
        match res {
            Ok(()) => define(code@, line, old(names)@, named(builtin@), fpu, reader) == Ok::<
                Symbols,
                ParseFault,
            >(final(names)@),
            Err(e) => define(code@, line, old(names)@, named(builtin@), fpu, reader) == Err::<
                Symbols,
                ParseFault,
            >(e@),
        },
{
    let name_start = after_spaces(code, end_of_word(code, 0));
    let name_end = end_of_word(code, name_start);
    let name = slice(code, name_start, name_end);
    let expr_start = after_spaces(code, name_end);
    if expr_start >= code.len() {
        return Err(
            plain_error(
                line,
                ParseErrorKind::InvalidConstant,
                "Invalid .const format. Use: .const NAME EXPRESSION",
            ),
        );
    }
    if find(builtin, &name).is_some() {
        return Err(
            error_at(
                line,
                ParseErrorKind::RedefinedBuiltin,
                "Attempted to redefine built-in constant: ",
                &name,
                &Vec::new(),
            ),
        );
    }
    let expr = slice(code, expr_start, code.len());
    match parse_constant_expression(&expr, &names.constants, fpu, reader) {
        Ok(value) => {
            if find(&names.constants, &name).is_some() {
                return Err(
                    error_at(
                        line,
                        ParseErrorKind::DuplicateConstant,
                        "Duplicate constant definition: ",
                        &name,
                        &Vec::new(),
                    ),
                );
            }
            let ghost before = named(names.constants@);
            names.constants.push((name, value));
            assert(named(names.constants@) =~= before.push((name@, value)));
            Ok(())
        },
        Err(e) => {
            let suffix = join(&chars_of(": "), &expression_text(&e), &Vec::new());
            assert(suffix@ =~= ": "@ + expression_message(e@));
            Err(
                error_at(
                    line,
                    ParseErrorKind::InvalidExpression(e.kind),
                    "Invalid expression for constant ",
                    &name,
                    &suffix,
                ),
            )
        },
    }
}

/// The part of a line of code after its label, if it has one.
fn part_after_label(code: &Vec<char>) -> (part: Vec<char>)
    ensures
        part@ == instruction_part(code@),
{
    let colon = position(code, ':', 0);
    if colon < code.len() {
        trimmed(&slice(code, colon + 1, code.len()))
    } else {
        let part = slice(code, 0, code.len());
        assert(part@ =~= code@);
        part
    }
}

/// Notes a line of code that is no `.const` line.
fn mark_line(code: &Vec<char>, line: usize, names: &mut Names) -> (res: Result<(), ParseError>)
    ensures
        match res {
            Ok(()) => mark(code@, line, old(names)@) == Ok::<Symbols, ParseFault>(final(names)@),
            Err(e) => mark(code@, line, old(names)@) == Err::<Symbols, ParseFault>(e@),
        },
{
    let colon = position(code, ':', 0);
    if colon < code.len() {
        let label = trimmed(&slice(code, 0, colon));
        if label.len() == 0 {
            return Err(plain_error(line, ParseErrorKind::EmptyLabel, "Label cannot be empty"));
        }
        if find(&names.labels, &label).is_some() {
            return Err(
                error_at(
                    line,
                    ParseErrorKind::DuplicateLabel,
                    "Duplicate label: ",
                    &label,
                    &Vec::new(),
                ),
            );
        }
        let ghost before = named(names.labels@);
        names.labels.push((label, names.count));
        assert(named(names.labels@) =~= before.push((label@, names.count)));
    }
    if part_after_label(code).len() > 0 && names.count < usize::MAX {
        names.count += 1;
    }
    Ok(())
}

/// What the operand at a place of a line comes to.
fn operand_at<N: Fn(&Vec<char>) -> Option<u64>>(
    parts: &Vec<Vec<char>>,
    at: usize,
    names: &Names,
    line: usize,
    reader: &N,
) -> (res: Result<Operand, ParseError>)
    requires
        is_reader(reader),
        at < parts.len(),
    ensures
        match res {
            Ok(op) => operand_of(texts(parts@)[at as int], names@.constants, line, reader) == Ok::<
                Operand,
                ParseFault,
            >(op),
            Err(e) => operand_of(texts(parts@)[at as int], names@.constants, line, reader)
                == Err::<Operand, ParseFault>(e@),
        },
{
    parse_operand(Some(&parts[at]), &names.constants, line, reader)
}

/// What the register at a place of a line comes to.
fn register_at(parts: &Vec<Vec<char>>, at: usize, line: usize) -> (res: Result<Register, ParseError>)
    requires
        at < parts.len(),
    ensures
        match res {
            Ok(reg) => register_of(texts(parts@)[at as int], line) == Ok::<Register, ParseFault>(
                reg,
            ),
            Err(e) => register_of(texts(parts@)[at as int], line) == Err::<Register, ParseFault>(
                e@,
            ),
        },
{
    parse_register(Some(&parts[at]), line)
}

/// The instruction that the words of a line spell.
fn decode_words<N: Fn(&Vec<char>) -> Option<u64>>(
    parts: &Vec<Vec<char>>,
    line: usize,
    names: &Names,
    reader: &N,
) -> (res: Reading)
    requires
        is_reader(reader),
    ensures
        res@ == decode(texts(parts@), line, names@, reader),
{
    if parts.len() == 0 {
        return Reading::Nothing;
    }
    assert(texts(parts@)[0] == parts@[0]@);
    let mnemonic = match read_mnemonic(&parts[0]) {
        Some(mnemonic) => mnemonic,
        None => {
            return Reading::Wrong(
                error_at(
                    line,
                    ParseErrorKind::UnknownInstruction,
                    "Unknown instruction: ",
                    &parts[0],
                    &Vec::new(),
                ),
            );
        },
    };
    match mnemonic {
        Mnemonic::Bare(bare) => Reading::Instruction(bare.form()),
        Mnemonic::Required(required) => {
            if parts.len() > 1 {
                match operand_at(parts, 1, names, line, reader) {
                    Ok(op) => Reading::Instruction(required.form(op)),
                    Err(e) => Reading::Stop(e),
                }
            } else {
                Reading::Wrong(
                    plain_error(line, ParseErrorKind::MissingOperand, required.complaint_text()),
                )
            }
        },
        Mnemonic::Unary(unary) => {
            if parts.len() > 1 {
                match operand_at(parts, 1, names, line, reader) {
                    Ok(op) => Reading::Instruction(unary.operand_form(op)),
                    Err(e) => Reading::Stop(e),
                }
            } else {
                Reading::Instruction(unary.stack_form())
            }
        },
        Mnemonic::Binary(binary) => {
            if parts.len() > 2 {
                match operand_at(parts, 1, names, line, reader) {
                    Ok(left) => match operand_at(parts, 2, names, line, reader) {
                        Ok(right) => Reading::Instruction(binary.operand_form(left, right)),
                        Err(e) => Reading::Stop(e),
                    },
                    Err(e) => Reading::Stop(e),
                }
            } else {
                Reading::Instruction(binary.stack_form())
            }
        },
        Mnemonic::Jump(jump) => {
            if parts.len() > 1 {
                assert(texts(parts@)[1] == parts@[1]@);
                match find(&names.labels, &parts[1]) {
                    Some(target) => Reading::Instruction(jump.form(target)),
                    None => Reading::Stop(
                        error_at(
                            line,
                            ParseErrorKind::UnknownLabel,
                            "Unknown label: ",
                            &parts[1],
                            &Vec::new(),
                        ),
                    ),
                }
            } else {
                Reading::Stop(
                    plain_error(line, ParseErrorKind::MissingLabel, jump.complaint_text()),
                )
            }
        },
        Mnemonic::Pop => {
            if parts.len() == 1 {
                Reading::Instruction(Instruction::PopDiscard)
            } else {
                match register_at(parts, 1, line) {
                    Ok(reg) => Reading::Instruction(Instruction::Pop(reg)),
                    Err(e) => Reading::Stop(e),
                }
            }
        },
        Mnemonic::Mov => {
            if parts.len() > 2 {
                match register_at(parts, 1, line) {
                    Ok(reg) => match operand_at(parts, 2, names, line, reader) {
                        Ok(op) => Reading::Instruction(Instruction::Mov(reg, op)),
                        Err(e) => Reading::Stop(e),
                    },
                    Err(e) => Reading::Stop(e),
                }
            } else {
                Reading::Wrong(
                    plain_error(
                        line,
                        ParseErrorKind::MissingOperand,
                        "mov requires register and operand",
                    ),
                )
            }
        },
        Mnemonic::Lod => {
            if parts.len() > 1 {
                match register_at(parts, 1, line) {
                    Ok(reg) => Reading::Instruction(Instruction::Lod(reg)),
                    Err(e) => Reading::Stop(e),
                }
            } else {
                Reading::Wrong(
                    plain_error(
                        line,
                        ParseErrorKind::MissingOperand,
                        "lod requires destination register",
                    ),
                )
            }
        },
        Mnemonic::Cmp => {
            if parts.len() > 2 {
                match operand_at(parts, 1, names, line, reader) {
                    Ok(left) => match operand_at(parts, 2, names, line, reader) {
                        Ok(right) => Reading::Instruction(Instruction::Cmp(left, right)),
                        Err(e) => Reading::Stop(e),
                    },
                    Err(e) => Reading::Stop(e),
                }
            } else {
                Reading::Wrong(
                    plain_error(line, ParseErrorKind::MissingOperand, "cmp requires two operands"),
                )
            }
        },
    }
}

/// The first pass: the constants and the labels of a program.
fn collect_names<F: Fn(Op, u64, u64) -> u64, N: Fn(&Vec<char>) -> Option<u64>>(
    text: &Vec<char>,
    builtin: &Vec<(Vec<char>, u64)>,
    names: &mut Names,
    fpu: &F,
    reader: &N,
) -> (res: Result<(), ParseError>)
    requires
        is_unit(fpu),
        is_reader(reader),
    ensures
        match res {
            Ok(()) => first_pass(text@, 0, 1, old(names)@, named(builtin@), fpu, reader) == Ok::<
                Symbols,
                ParseFault,
            >(final(names)@),
            Err(e) => first_pass(text@, 0, 1, old(names)@, named(builtin@), fpu, reader) == Err::<
                Symbols,
                ParseFault,
            >(e@),
        },
{
    let mut start: usize = 0;
    let mut line_num: usize = 1;
    loop
        invariant
            is_unit(fpu),
            is_reader(reader),
            start <= text.len(),
            first_pass(text@, start as int, line_num, names@, named(builtin@), fpu, reader)
                == first_pass(text@, 0, 1, old(names)@, named(builtin@), fpu, reader),
        decreases text.len() - start,
    {
        let end = position(text, '\n', start);
        let code = code_line(text, start, end);
        let noted = if code.len() == 0 {
            Ok(())
        } else if starts_with(&code, ".const") {
            define_constant(&code, line_num, names, builtin, fpu, reader)
        } else {
            mark_line(&code, line_num, names)
        };
        match noted {
            Ok(()) => {},
            Err(e) => {
                return Err(e);
            },
        }
        if end >= text.len() || line_num == usize::MAX {
            return Ok(());
        }
        start = end + 1;
        line_num += 1;
    }
}

/// The second pass: the instructions of a program.
fn read_instructions<N: Fn(&Vec<char>) -> Option<u64>>(
    text: &Vec<char>,
    names: &Names,
    reader: &N,
) -> (res: Result<Vec<Instruction>, ParseError>)
    requires
        is_reader(reader),
    ensures
        match res {
            Ok(instructions) => second_pass(text@, 0, 1, names@, reader, Seq::empty(), None)
                == Ok::<Seq<Instruction>, ParseFault>(instructions@),
            Err(e) => second_pass(text@, 0, 1, names@, reader, Seq::empty(), None) == Err::<
                Seq<Instruction>,
                ParseFault,
            >(e@),
        },
{
    let mut instructions: Vec<Instruction> = Vec::new();
    let mut wrong: Option<ParseError> = None;
    let mut start: usize = 0;
    let mut line_num: usize = 1;
    loop
        invariant
            is_reader(reader),
            start <= text.len(),
            second_pass(
                text@,
                start as int,
                line_num,
                names@,
                reader,
                instructions@,
                match wrong {
                    Some(e) => Some(e@),
                    None => None,
                },
            ) == second_pass(text@, 0, 1, names@, reader, Seq::empty(), None),
        decreases text.len() - start,
    {
        let end = position(text, '\n', start);
        let code = code_line(text, start, end);
        let reading = if code.len() == 0 || starts_with(&code, ".const") {
            Reading::Nothing
        } else {
            let parts = split_words(&part_after_label(&code));
            decode_words(&parts, line_num, names, reader)
        };
        match reading {
            Reading::Stop(e) => {
                return Err(e);
            },
            Reading::Instruction(instruction) => {
                instructions.push(instruction);
            },
            Reading::Wrong(e) => {
                if wrong.is_none() {
                    wrong = Some(e);
                }
            },
            Reading::Nothing => {},
        }
        if end >= text.len() || line_num == usize::MAX {
            return match wrong {
                Some(e) => Err(e),
                None => Ok(instructions),
            };
        }
        start = end + 1;
        line_num += 1;
    }
}

/// Assembles a program. `predefined_constants` are the constants that the
/// host defines; a program can use them and cannot define them anew.
///
/// Every error of the first pass comes before any of the second. In the
/// second pass a wrong operand, register or label ends the reading at once;
/// an unknown instruction, or one that lacks an operand, is reported if no
/// later line ends the reading.
pub fn parse_assembly<F: Fn(Op, u64, u64) -> u64, N: Fn(&Vec<char>) -> Option<u64>>(
    source: &str,
    predefined_constants: Option<&Vec<Constant>>,
    fpu: &F,
    reader: &N,
) -> (res: Result<ParsedProgram, ParseError>)
    requires
        is_unit(fpu),
        is_reader(reader),
    ensures
        match res {
            Ok(program) => assembled(source@, builtin_of(predefined_constants), fpu, reader)
                == Ok::<ProgramView, ParseFault>(program@),
            Err(e) => assembled(source@, builtin_of(predefined_constants), fpu, reader) == Err::<
                ProgramView,
                ParseFault,
            >(e@),
        },
{
    let text = chars_of(source);
    let builtin = builtin_table(predefined_constants);
    let mut names = Names { constants: builtin_table(predefined_constants), labels: Vec::new(), count: 0 };
    assert(named(names.labels@) =~= Seq::<(Seq<char>, usize)>::empty());
    match collect_names(&text, &builtin, &mut names, fpu, reader) {
        Ok(()) => {},
        Err(e) => {
            return Err(e);
        },
    }
    let instructions = match read_instructions(&text, &names, reader) {
        Ok(instructions) => instructions,
        Err(e) => {
            return Err(e);
        },
    };
    let mut labels: Vec<Label> = Vec::new();
    let mut i: usize = 0;
    while i < names.labels.len()
        invariant
            i <= names.labels.len(),
            labels.len() == i,
            label_views(labels@) == named(names.labels@).subrange(0, i as int),
        decreases names.labels.len() - i,
    {
        let ghost before = labels@;
        labels.push(Label { name: text_of(&names.labels[i].0), index: names.labels[i].1 });
        i += 1;
        assert forall|j: int| 0 <= j < i implies label_views(labels@)[j] == named(
            names.labels@,
        ).subrange(0, i as int)[j] by {
            if j < i - 1 {
                assert(labels@[j] == before[j]);
                assert(label_views(before)[j] == named(names.labels@).subrange(0, i - 1)[j]);
            }
        }
        assert(label_views(labels@) =~= named(names.labels@).subrange(0, i as int));
    }
    assert(label_views(labels@) =~= named(names.labels@));
    Ok(ParsedProgram { instructions, labels })
}

/// The constants of the host as the assembler looks them up.
pub open spec fn builtin_of(predefined: Option<&Vec<Constant>>) -> Seq<(Seq<char>, u64)> {
    match predefined {
        Some(constants) => constant_views(constants@),
        None => Seq::empty(),
    }
}

fn builtin_table(predefined: Option<&Vec<Constant>>) -> (table: Vec<(Vec<char>, u64)>)
    ensures
        named(table@) == builtin_of(predefined),
{
    let mut table: Vec<(Vec<char>, u64)> = Vec::new();
    if let Some(constants) = predefined {
        let mut i: usize = 0;
        while i < constants.len()
            invariant
                i <= constants.len(),
                table.len() == i,
                named(table@) == constant_views(constants@).subrange(0, i as int),
            decreases constants.len() - i,
        {
            let ghost before = table@;
            table.push((chars_of(constants[i].name.as_str()), constants[i].value));
            i += 1;
            assert forall|j: int| 0 <= j < i implies named(table@)[j] == constant_views(
                constants@,
            ).subrange(0, i as int)[j] by {
                if j < i - 1 {
                    assert(table@[j] == before[j]);
                    assert(named(before)[j] == constant_views(constants@).subrange(0, i - 1)[j]);
                }
            }
            assert(named(table@) =~= constant_views(constants@).subrange(0, i as int));
        }
        assert(named(table@) =~= constant_views(constants@));
    } else {
        assert(named(table@) =~= Seq::<(Seq<char>, u64)>::empty());
    }
    table
}

impl ParsedProgram {
    /// The index of the instruction that a label stands for.
    pub fn label(&self, name: &str) -> (index: Option<usize>)
        ensures
            index == lookup(self@.labels, name@),
    {
        let wanted = chars_of(name);
        let mut i: usize = 0;
        while i < self.labels.len()
            invariant
                i <= self.labels.len(),
                super::expression::lookup_from(self@.labels, name@, i as int) == lookup(
                    self@.labels,
                    name@,
                ),
                wanted@ == name@,
            decreases self.labels.len() - i,
        {
            if same(&chars_of(self.labels[i].name.as_str()), &wanted) {
                return Some(self.labels[i].index);
            }
            i += 1;
        }
        None
    }
}

} // verus!
