//! A program written down: the words that write an instruction, the lines
//! of a listing, and the law that a listing is assembled to the program it
//! lists.
use crate::fpu::{reading, Op};
use crate::laws::{lemma_mnemonic_in_any_case, spelling};
use crate::vm::expression::{lookup, lookup_from};
use crate::vm::instruction::Instruction;
use crate::vm::operand::Operand;
use crate::vm::parser::{
    assembled,
    before,
    code_of,
    decode,
    first_pass,
    instruction_part,
    is_definition,
    note,
    read_line,
    register_named,
    second_pass,
    Bare,
    Binary,
    Decoded,
    Jump,
    Mnemonic,
    ParseFault,
    ProgramView,
    Required,
    Symbols,
    Unary,
};
use crate::vm::registers::Register;
use crate::vm::text::{
    back_spaces,
    find,
    find_slashes,
    fold_case,
    is_space,
    is_word,
    lemma_find_bounds,
    lemma_skip_spaces_bounds,
    lemma_word_end_bounds,
    skip_spaces,
    trim,
    word_end,
    words,
    words_from,
};
use vstd::prelude::*;

verus! {

/// What stands behind the mnemonic on a line of a program.
pub enum Argument {
    Operand(Operand),
    Register(Register),
    /// The index of the instruction that a label marks.
    Target(usize),
}

/// The mnemonic under which an instruction is written.
pub open spec fn mnemonic_for(instruction: Instruction) -> Mnemonic {
    match instruction {
        Instruction::Dup => Mnemonic::Bare(Bare::Dup),
        Instruction::Swap => Mnemonic::Bare(Bare::Swap),
        Instruction::Divmod => Mnemonic::Bare(Bare::Divmod),
        Instruction::Ret => Mnemonic::Bare(Bare::Ret),
        Instruction::Deselect => Mnemonic::Bare(Bare::Deselect),
        Instruction::Scan => Mnemonic::Bare(Bare::Scan),
        Instruction::Nop => Mnemonic::Bare(Bare::Nop),
        Instruction::Push(_) => Mnemonic::Required(Required::Push),
        Instruction::Sto(_) => Mnemonic::Required(Required::Sto),
        Instruction::Select(_) => Mnemonic::Required(Required::Select),
        Instruction::Rotate(_) => Mnemonic::Required(Required::Rotate),
        Instruction::Drive(_) => Mnemonic::Required(Required::Drive),
        Instruction::Fire(_) => Mnemonic::Required(Required::Fire),
        Instruction::Dbg(_) => Mnemonic::Required(Required::Dbg),
        Instruction::Sleep(_) => Mnemonic::Required(Required::Sleep),
        Instruction::Sqrt | Instruction::SqrtOp(_) => Mnemonic::Unary(Unary::Sqrt),
        Instruction::Log | Instruction::LogOp(_) => Mnemonic::Unary(Unary::Log),
        Instruction::Sin | Instruction::SinOp(_) => Mnemonic::Unary(Unary::Sin),
        Instruction::Cos | Instruction::CosOp(_) => Mnemonic::Unary(Unary::Cos),
        Instruction::Tan | Instruction::TanOp(_) => Mnemonic::Unary(Unary::Tan),
        Instruction::Asin | Instruction::AsinOp(_) => Mnemonic::Unary(Unary::Asin),
        Instruction::Acos | Instruction::AcosOp(_) => Mnemonic::Unary(Unary::Acos),
        Instruction::Atan | Instruction::AtanOp(_) => Mnemonic::Unary(Unary::Atan),
        Instruction::Abs | Instruction::AbsOp(_) => Mnemonic::Unary(Unary::Abs),
        Instruction::Not | Instruction::NotOp(_) => Mnemonic::Unary(Unary::Not),
        Instruction::Add | Instruction::AddOp(_, _) => Mnemonic::Binary(Binary::Add),
        Instruction::Sub | Instruction::SubOp(_, _) => Mnemonic::Binary(Binary::Sub),
        Instruction::Mul | Instruction::MulOp(_, _) => Mnemonic::Binary(Binary::Mul),
        Instruction::Div | Instruction::DivOp(_, _) => Mnemonic::Binary(Binary::Div),
        Instruction::Mod | Instruction::ModOp(_, _) => Mnemonic::Binary(Binary::Mod),
        Instruction::Pow | Instruction::PowOp(_, _) => Mnemonic::Binary(Binary::Pow),
        Instruction::Atan2 | Instruction::Atan2Op(_, _) => Mnemonic::Binary(Binary::Atan2),
        Instruction::And | Instruction::AndOp(_, _) => Mnemonic::Binary(Binary::And),
        Instruction::Or | Instruction::OrOp(_, _) => Mnemonic::Binary(Binary::Or),
        Instruction::Xor | Instruction::XorOp(_, _) => Mnemonic::Binary(Binary::Xor),
        Instruction::Shl | Instruction::ShlOp(_, _) => Mnemonic::Binary(Binary::Shl),
        Instruction::Shr | Instruction::ShrOp(_, _) => Mnemonic::Binary(Binary::Shr),
        Instruction::Jmp(_) => Mnemonic::Jump(Jump::Jmp),
        Instruction::Jz(_) => Mnemonic::Jump(Jump::Jz),
        Instruction::Jnz(_) => Mnemonic::Jump(Jump::Jnz),
        Instruction::Jl(_) => Mnemonic::Jump(Jump::Jl),
        Instruction::Jle(_) => Mnemonic::Jump(Jump::Jle),
        Instruction::Jg(_) => Mnemonic::Jump(Jump::Jg),
        Instruction::Jge(_) => Mnemonic::Jump(Jump::Jge),
        Instruction::Call(_) => Mnemonic::Jump(Jump::Call),
        Instruction::Loop(_) => Mnemonic::Jump(Jump::Loop),
        Instruction::Pop(_) | Instruction::PopDiscard => Mnemonic::Pop,
        Instruction::Mov(_, _) => Mnemonic::Mov,
        Instruction::Lod(_) => Mnemonic::Lod,
        Instruction::Cmp(_, _) => Mnemonic::Cmp,
    }
}

/// What an instruction is written with, behind its mnemonic and in this
/// order. The stack forms are written with nothing.
pub open spec fn arguments_for(instruction: Instruction) -> Seq<Argument> {
    match instruction {
        Instruction::Push(op) => seq![Argument::Operand(op)],
        Instruction::Sto(op) => seq![Argument::Operand(op)],
        Instruction::Select(op) => seq![Argument::Operand(op)],
        Instruction::Rotate(op) => seq![Argument::Operand(op)],
        Instruction::Drive(op) => seq![Argument::Operand(op)],
        Instruction::Fire(op) => seq![Argument::Operand(op)],
        Instruction::Dbg(op) => seq![Argument::Operand(op)],
        Instruction::Sleep(op) => seq![Argument::Operand(op)],
        Instruction::SqrtOp(op) => seq![Argument::Operand(op)],
        Instruction::LogOp(op) => seq![Argument::Operand(op)],
        Instruction::SinOp(op) => seq![Argument::Operand(op)],
        Instruction::CosOp(op) => seq![Argument::Operand(op)],
        Instruction::TanOp(op) => seq![Argument::Operand(op)],
        Instruction::AsinOp(op) => seq![Argument::Operand(op)],
        Instruction::AcosOp(op) => seq![Argument::Operand(op)],
        Instruction::AtanOp(op) => seq![Argument::Operand(op)],
        Instruction::AbsOp(op) => seq![Argument::Operand(op)],
        Instruction::NotOp(op) => seq![Argument::Operand(op)],
        Instruction::AddOp(left, right) => seq![Argument::Operand(left), Argument::Operand(right)],
        Instruction::SubOp(left, right) => seq![Argument::Operand(left), Argument::Operand(right)],
        Instruction::MulOp(left, right) => seq![Argument::Operand(left), Argument::Operand(right)],
        Instruction::DivOp(left, right) => seq![Argument::Operand(left), Argument::Operand(right)],
        Instruction::ModOp(left, right) => seq![Argument::Operand(left), Argument::Operand(right)],
        Instruction::PowOp(left, right) => seq![Argument::Operand(left), Argument::Operand(right)],
        Instruction::Atan2Op(left, right) => seq![Argument::Operand(left), Argument::Operand(right)],
        Instruction::AndOp(left, right) => seq![Argument::Operand(left), Argument::Operand(right)],
        Instruction::OrOp(left, right) => seq![Argument::Operand(left), Argument::Operand(right)],
        Instruction::XorOp(left, right) => seq![Argument::Operand(left), Argument::Operand(right)],
        Instruction::ShlOp(left, right) => seq![Argument::Operand(left), Argument::Operand(right)],
        Instruction::ShrOp(left, right) => seq![Argument::Operand(left), Argument::Operand(right)],
        Instruction::Jmp(target) => seq![Argument::Target(target)],
        Instruction::Jz(target) => seq![Argument::Target(target)],
        Instruction::Jnz(target) => seq![Argument::Target(target)],
        Instruction::Jl(target) => seq![Argument::Target(target)],
        Instruction::Jle(target) => seq![Argument::Target(target)],
        Instruction::Jg(target) => seq![Argument::Target(target)],
        Instruction::Jge(target) => seq![Argument::Target(target)],
        Instruction::Call(target) => seq![Argument::Target(target)],
        Instruction::Loop(target) => seq![Argument::Target(target)],
        Instruction::Pop(reg) => seq![Argument::Register(reg)],
        Instruction::Mov(reg, op) => seq![Argument::Register(reg), Argument::Operand(op)],
        Instruction::Lod(reg) => seq![Argument::Register(reg)],
        Instruction::Cmp(left, right) => seq![Argument::Operand(left), Argument::Operand(right)],
        _ => Seq::empty(),
    }
}

/// The word stands for the argument: a literal that the reader reads as the
/// number, a name of the register that is no literal, or a label bound to
/// the target.
pub open spec fn denotes<N: Fn(&Vec<char>) -> Option<u64>>(
    word: Seq<char>,
    argument: Argument,
    symbols: Symbols,
    reader: &N,
) -> bool {
    match argument {
        Argument::Operand(Operand::Value(value)) => reading(reader, word) == Some(value),
        Argument::Operand(Operand::Register(reg)) => reading(reader, word) is None
            && register_named(word) == Some(reg),
        Argument::Register(reg) => register_named(word) == Some(reg),
        Argument::Target(target) => lookup(symbols.labels, word) == Some(target),
    }
}

/// The words write the instruction down: the first is its mnemonic, in
/// letters of any case, and the others stand for its arguments, one word for
/// each and in their order.
pub open spec fn writes_down<N: Fn(&Vec<char>) -> Option<u64>>(
    parts: Seq<Seq<char>>,
    instruction: Instruction,
    symbols: Symbols,
    reader: &N,
) -> bool {
    let arguments = arguments_for(instruction);
    &&& parts.len() == 1 + arguments.len()
    &&& is_word(parts[0], spelling(mnemonic_for(instruction)))
    &&& forall|k: int|
        1 <= k < parts.len() ==> denotes(#[trigger] parts[k], arguments[k - 1], symbols, reader)
}

/// An instruction that is written down reads back as itself. Whatever the
/// instruction, a line of words that write it down, with the mnemonic in
/// letters of any case, numbers as literals, registers by a name and targets
/// by a label bound to them, is decoded as that instruction, with the same
/// operands and the same target.
pub proof fn lemma_written_instruction_reads_back<N: Fn(&Vec<char>) -> Option<u64>>(
    parts: Seq<Seq<char>>,
    instruction: Instruction,
    line: usize,
    symbols: Symbols,
    reader: &N,
)
    requires
        writes_down(parts, instruction, symbols, reader),
    ensures
        decode(parts, line, symbols, reader) == Decoded::Instruction(instruction),
{
    lemma_mnemonic_in_any_case(parts[0], mnemonic_for(instruction));
    let arguments = arguments_for(instruction);
    if arguments.len() >= 1 {
        assert(denotes(parts[1], arguments[0], symbols, reader));
    }
    if arguments.len() >= 2 {
        assert(denotes(parts[2], arguments[1], symbols, reader));
    }
}

/// A word as it stands on a line: not empty, and free of white space and of
/// the characters that end the code of a line or set a label off.
pub open spec fn is_plain(word: Seq<char>) -> bool {
    &&& word.len() > 0
    &&& forall|i: int| 0 <= i < word.len() ==> is_plain_char(#[trigger] word[i])
}

/// A character that is no white space, begins no comment and ends no label.
pub open spec fn is_plain_char(c: char) -> bool {
    !is_space(c) && c != ';' && c != '#' && c != '/' && c != ':'
}

/// The words in a row, one blank between each two.
pub open spec fn spaced(parts: Seq<Seq<char>>) -> Seq<char>
    decreases parts.len(),
{
    if parts.len() == 0 {
        Seq::empty()
    } else if parts.len() == 1 {
        parts[0]
    } else {
        parts[0] + seq![' '] + spaced(parts.skip(1))
    }
}

proof fn lemma_skip_spaces_shift(a: Seq<char>, b: Seq<char>, k: int)
    requires
        0 <= k <= b.len(),
    ensures
        skip_spaces(a + b, a.len() + k) == a.len() + skip_spaces(b, k),
    decreases b.len() - k,
{
    if k < b.len() {
        assert((a + b)[a.len() + k] == b[k]);
        if is_space(b[k]) {
            lemma_skip_spaces_shift(a, b, k + 1);
        }
    }
}

proof fn lemma_word_end_shift(a: Seq<char>, b: Seq<char>, k: int)
    requires
        0 <= k <= b.len(),
    ensures
        word_end(a + b, a.len() + k) == a.len() + word_end(b, k),
    decreases b.len() - k,
{
    if k < b.len() {
        assert((a + b)[a.len() + k] == b[k]);
        if !is_space(b[k]) {
            lemma_word_end_shift(a, b, k + 1);
        }
    }
}

proof fn lemma_words_shift(a: Seq<char>, b: Seq<char>, k: int)
    requires
        0 <= k <= b.len(),
    ensures
        words_from(a + b, a.len() + k) == words_from(b, k),
    decreases b.len() - k,
{
    let s = a + b;
    lemma_skip_spaces_shift(a, b, k);
    lemma_skip_spaces_bounds(b, k);
    let start = skip_spaces(b, k);
    if start < b.len() {
        lemma_word_end_shift(a, b, start + 1);
        lemma_word_end_bounds(b, start + 1);
        let end = word_end(b, start + 1);
        assert(s.subrange(a.len() + start, a.len() + end) =~= b.subrange(start, end));
        lemma_words_shift(a, b, end);
    }
}

proof fn lemma_word_end_of_word(s: Seq<char>, k: int, end: int)
    requires
        0 <= k <= end <= s.len(),
        forall|i: int| k <= i < end ==> !is_space(#[trigger] s[i]),
        end < s.len() ==> is_space(s[end]),
    ensures
        word_end(s, k) == end,
    decreases end - k,
{
    if k < end {
        lemma_word_end_of_word(s, k + 1, end);
    }
}

/// Words in a row are read as those words.
pub proof fn lemma_words_of_spaced(parts: Seq<Seq<char>>)
    requires
        forall|k: int| 0 <= k < parts.len() ==> is_plain(#[trigger] parts[k]),
    ensures
        words(spaced(parts)) == parts,
    decreases parts.len(),
{
    let s = spaced(parts);
    if parts.len() == 0 {
        assert(words(s) =~= parts);
    } else {
        let w = parts[0];
        assert(is_plain(w));
        if parts.len() == 1 {
            assert(is_plain_char(w[0]));
            lemma_word_end_of_word(s, 1, w.len() as int);
            assert(s.subrange(0, w.len() as int) =~= w);
            assert(words_from(s, w.len() as int) =~= Seq::<Seq<char>>::empty());
            assert(words(s) =~= parts);
        } else {
            let rest = parts.skip(1);
            assert forall|k: int| 0 <= k < rest.len() implies is_plain(#[trigger] rest[k]) by {
                assert(rest[k] == parts[k + 1]);
            }
            lemma_words_of_spaced(rest);
            let head = w + seq![' '];
            let tail = spaced(rest);
            assert(s == head + tail);
            assert(is_plain_char(w[0]));
            assert(s[0] == w[0]);
            assert(s[w.len() as int] == ' ');
            assert forall|i: int| 1 <= i < w.len() implies !is_space(#[trigger] s[i]) by {
                assert(s[i] == w[i]);
                assert(is_plain_char(w[i]));
            }
            lemma_word_end_of_word(s, 1, w.len() as int);
            assert(s.subrange(0, w.len() as int) =~= w);
            // The blank behind the first word is passed over.
            assert(skip_spaces(s, w.len() as int) == skip_spaces(s, w.len() as int + 1));
            assert(words_from(s, w.len() as int) == words_from(s, w.len() as int + 1));
            lemma_words_shift(head, tail, 0);
            assert(words(s) =~= seq![w] + rest);
            assert(seq![w] + rest =~= parts);
        }
    }
}

/// No mnemonic is written like a directive: its spelling, in letters of any
/// case, does not begin with a full stop.
pub proof fn lemma_mnemonic_is_no_directive(w: Seq<char>, m: Mnemonic)
    requires
        is_word(w, spelling(m)),
    ensures
        w.len() > 0,
        w[0] != '.',
{
    reveal_strlit("push");
    reveal_strlit("pop");
    reveal_strlit("dup");
    reveal_strlit("swap");
    reveal_strlit("mov");
    reveal_strlit("lod");
    reveal_strlit("sto");
    reveal_strlit("cmp");
    reveal_strlit("add");
    reveal_strlit("sub");
    reveal_strlit("mul");
    reveal_strlit("div");
    reveal_strlit("mod");
    reveal_strlit("divmod");
    reveal_strlit("pow");
    reveal_strlit("sqrt");
    reveal_strlit("log");
    reveal_strlit("sin");
    reveal_strlit("cos");
    reveal_strlit("tan");
    reveal_strlit("asin");
    reveal_strlit("acos");
    reveal_strlit("atan");
    reveal_strlit("atan2");
    reveal_strlit("abs");
    reveal_strlit("and");
    reveal_strlit("or");
    reveal_strlit("xor");
    reveal_strlit("not");
    reveal_strlit("shl");
    reveal_strlit("shr");
    reveal_strlit("jmp");
    reveal_strlit("jz");
    reveal_strlit("jnz");
    reveal_strlit("jl");
    reveal_strlit("jle");
    reveal_strlit("jg");
    reveal_strlit("jge");
    reveal_strlit("call");
    reveal_strlit("ret");
    reveal_strlit("loop");
    reveal_strlit("select");
    reveal_strlit("deselect");
    reveal_strlit("rotate");
    reveal_strlit("drive");
    reveal_strlit("fire");
    reveal_strlit("scan");
    reveal_strlit("nop");
    reveal_strlit("dbg");
    reveal_strlit("sleep");
    reveal_strlit("je");
    reveal_strlit("jne");
    assert(spelling(m).len() > 0);
    assert(fold_case(w[0]) == spelling(m)[0] as u32);
}

proof fn lemma_find_none(s: Seq<char>, c: char, from: int)
    requires
        0 <= from <= s.len(),
        forall|i: int| 0 <= i < s.len() ==> #[trigger] s[i] != c,
    ensures
        find(s, c, from) == s.len(),
    decreases s.len() - from,
{
    if from < s.len() {
        lemma_find_none(s, c, from + 1);
    }
}

proof fn lemma_find_slashes_none(s: Seq<char>, from: int)
    requires
        0 <= from <= s.len(),
        forall|i: int| 0 <= i < s.len() ==> #[trigger] s[i] != '/',
    ensures
        find_slashes(s, from) == s.len(),
    decreases s.len() - from,
{
    if from < s.len() {
        lemma_find_slashes_none(s, from + 1);
    }
}

proof fn lemma_spaced_holds_its_words(parts: Seq<Seq<char>>)
    requires
        parts.len() > 0,
        forall|k: int| 0 <= k < parts.len() ==> is_plain(#[trigger] parts[k]),
    ensures
        spaced(parts).len() > 0,
        spaced(parts)[0] == parts[0][0],
        !is_space(spaced(parts).last()),
        forall|j: int|
            0 <= j < spaced(parts).len() ==> {
                let c = #[trigger] spaced(parts)[j];
                c == ' ' || is_plain_char(c)
            },
    decreases parts.len(),
{
    let s = spaced(parts);
    let w = parts[0];
    assert(is_plain(w));
    assert(is_plain_char(w[0]));
    if parts.len() == 1 {
        assert(is_plain_char(w[w.len() - 1]));
    } else {
        let rest = parts.skip(1);
        assert forall|k: int| 0 <= k < rest.len() implies is_plain(#[trigger] rest[k]) by {
            assert(rest[k] == parts[k + 1]);
        }
        lemma_spaced_holds_its_words(rest);
        let tail = spaced(rest);
        assert(s == w + seq![' '] + tail);
        assert(s.last() == tail.last());
        assert forall|j: int| 0 <= j < s.len() implies {
            let c = #[trigger] s[j];
            c == ' ' || is_plain_char(c)
        } by {
            if j < w.len() {
                assert(s[j] == w[j]);
                assert(is_plain_char(w[j]));
            } else if j > w.len() {
                assert(s[j] == tail[j - w.len() - 1]);
            }
        }
    }
}

/// A line of plain words, one blank between each two, is all code: there is
/// nothing to take off it, neither white space nor comment nor label.
pub proof fn lemma_spaced_is_code(parts: Seq<Seq<char>>)
    requires
        parts.len() > 0,
        forall|k: int| 0 <= k < parts.len() ==> is_plain(#[trigger] parts[k]),
    ensures
        code_of(spaced(parts)) == spaced(parts),
        instruction_part(spaced(parts)) == spaced(parts),
{
    let s = spaced(parts);
    lemma_spaced_holds_its_words(parts);
    assert(is_plain_char(parts[0][0]));
    assert(trim(s) =~= s);
    assert forall|i: int| 0 <= i < s.len() implies #[trigger] s[i] != ';' by {}
    assert forall|i: int| 0 <= i < s.len() implies #[trigger] s[i] != '#' by {}
    assert forall|i: int| 0 <= i < s.len() implies #[trigger] s[i] != '/' by {}
    assert forall|i: int| 0 <= i < s.len() implies #[trigger] s[i] != ':' by {}
    lemma_find_none(s, ';', 0);
    assert(before(s, ';') =~= s);
    lemma_find_none(s, '#', 0);
    assert(before(s, '#') =~= s);
    lemma_find_slashes_none(s, 0);
    assert(s.subrange(0, s.len() as int) =~= s);
    lemma_find_none(s, ':', 0);
}

/// An instruction that is written on a line reads back as itself. The line
/// holds the words that write the instruction down, one blank between each
/// two, and nothing else; the words are free of white space and of the
/// characters that begin a comment or end a label.
pub proof fn lemma_written_line_reads_back<N: Fn(&Vec<char>) -> Option<u64>>(
    parts: Seq<Seq<char>>,
    instruction: Instruction,
    line: usize,
    symbols: Symbols,
    reader: &N,
)
    requires
        writes_down(parts, instruction, symbols, reader),
        forall|k: int| 0 <= k < parts.len() ==> is_plain(#[trigger] parts[k]),
    ensures
        read_line(code_of(spaced(parts)), line, symbols, reader) == Decoded::Instruction(
            instruction,
        ),
{
    let s = spaced(parts);
    lemma_spaced_is_code(parts);
    lemma_spaced_holds_its_words(parts);
    lemma_words_of_spaced(parts);
    lemma_mnemonic_is_no_directive(parts[0], mnemonic_for(instruction));
    lemma_written_instruction_reads_back(parts, instruction, line, symbols, reader);
    reveal_strlit(".const");
    assert(!is_definition(s)) by {
        if is_definition(s) {
            assert(".const"@[0] == s[0]);
        }
    }
}

/// The lines in a row, a line feed between each two.
pub open spec fn lines_joined(lines: Seq<Seq<char>>) -> Seq<char>
    decreases lines.len(),
{
    if lines.len() == 0 {
        Seq::empty()
    } else if lines.len() == 1 {
        lines[0]
    } else {
        lines[0] + seq!['\n'] + lines_joined(lines.skip(1))
    }
}

/// The text holds no line feed.
pub open spec fn is_one_line(line: Seq<char>) -> bool {
    forall|i: int| 0 <= i < line.len() ==> #[trigger] line[i] != '\n'
}

proof fn lemma_find_shift(a: Seq<char>, b: Seq<char>, c: char, k: int)
    requires
        0 <= k <= b.len(),
    ensures
        find(a + b, c, a.len() + k) == a.len() + find(b, c, k),
    decreases b.len() - k,
{
    if k < b.len() {
        assert((a + b)[a.len() + k] == b[k]);
        if b[k] != c {
            lemma_find_shift(a, b, c, k + 1);
        }
    }
}

proof fn lemma_find_at(s: Seq<char>, c: char, k: int, end: int)
    requires
        0 <= k <= end <= s.len(),
        forall|i: int| k <= i < end ==> #[trigger] s[i] != c,
        end < s.len() ==> s[end] == c,
    ensures
        find(s, c, k) == end,
    decreases end - k,
{
    if k < end {
        lemma_find_at(s, c, k + 1, end);
    }
}

proof fn lemma_second_pass_shift<N: Fn(&Vec<char>) -> Option<u64>>(
    a: Seq<char>,
    b: Seq<char>,
    k: int,
    line: usize,
    symbols: Symbols,
    reader: &N,
    done: Seq<Instruction>,
    wrong: Option<ParseFault>,
)
    requires
        0 <= k <= b.len(),
    ensures
        second_pass(a + b, a.len() + k, line, symbols, reader, done, wrong) == second_pass(
            b,
            k,
            line,
            symbols,
            reader,
            done,
            wrong,
        ),
    decreases b.len() - k,
{
    let s = a + b;
    lemma_find_shift(a, b, '\n', k);
    lemma_find_bounds(b, '\n', k);
    let end = find(b, '\n', k);
    assert(s.subrange(a.len() + k, a.len() + end) =~= b.subrange(k, end));
    let decoded = read_line(code_of(b.subrange(k, end)), line, symbols, reader);
    if !(decoded is Stop) && !(end >= b.len() || line == usize::MAX) {
        let done = match decoded {
            Decoded::Instruction(i) => done.push(i),
            _ => done,
        };
        let wrong = match (wrong, decoded) {
            (None, Decoded::Wrong(e)) => Some(e),
            _ => wrong,
        };
        lemma_second_pass_shift(a, b, end + 1, (line + 1) as usize, symbols, reader, done, wrong);
    }
}

proof fn lemma_first_pass_shift<F: Fn(Op, u64, u64) -> u64, N: Fn(&Vec<char>) -> Option<u64>>(
    a: Seq<char>,
    b: Seq<char>,
    k: int,
    line: usize,
    symbols: Symbols,
    builtin: Seq<(Seq<char>, u64)>,
    fpu: &F,
    reader: &N,
)
    requires
        0 <= k <= b.len(),
    ensures
        first_pass(a + b, a.len() + k, line, symbols, builtin, fpu, reader) == first_pass(
            b,
            k,
            line,
            symbols,
            builtin,
            fpu,
            reader,
        ),
    decreases b.len() - k,
{
    let s = a + b;
    lemma_find_shift(a, b, '\n', k);
    lemma_find_bounds(b, '\n', k);
    let end = find(b, '\n', k);
    assert(s.subrange(a.len() + k, a.len() + end) =~= b.subrange(k, end));
    match note(code_of(b.subrange(k, end)), line, symbols, builtin, fpu, reader) {
        Err(_) => {},
        Ok(next) => {
            if !(end >= b.len() || line == usize::MAX) {
                lemma_first_pass_shift(a, b, end + 1, (line + 1) as usize, next, builtin, fpu, reader);
            }
        },
    }
}

/// The second pass reads a text line by line: where every line but the last
/// reads as an instruction and the last as none, the instructions read are
/// those of the lines, in their order, behind those read before.
proof fn lemma_second_pass_reads_lines<N: Fn(&Vec<char>) -> Option<u64>>(
    lines: Seq<Seq<char>>,
    program: Seq<Instruction>,
    line: usize,
    symbols: Symbols,
    reader: &N,
    done: Seq<Instruction>,
)
    requires
        lines.len() == program.len() + 1,
        line + lines.len() <= usize::MAX,
        forall|j: int| 0 <= j < lines.len() ==> is_one_line(#[trigger] lines[j]),
        forall|j: int, at: usize|
            0 <= j < program.len() ==> #[trigger] read_line(
                code_of(lines[j]),
                at,
                symbols,
                reader,
            ) == Decoded::Instruction(program[j]),
        forall|at: usize| #[trigger]
            read_line(code_of(lines[program.len() as int]), at, symbols, reader)
                == Decoded::Nothing,
    ensures
        second_pass(lines_joined(lines), 0, line, symbols, reader, done, None) == Ok::<
            Seq<Instruction>,
            ParseFault,
        >(done + program),
    decreases program.len(),
{
    let text = lines_joined(lines);
    let first = lines[0];
    assert(is_one_line(first));
    if program.len() == 0 {
        lemma_find_none(text, '\n', 0);
        assert(text.subrange(0, text.len() as int) =~= first);
        assert(read_line(code_of(lines[program.len() as int]), line, symbols, reader)
            == Decoded::Nothing);
        assert(done + program =~= done);
    } else {
        let rest = lines.skip(1);
        let head = first + seq!['\n'];
        assert(text == head + lines_joined(rest));
        assert(text[first.len() as int] == '\n');
        assert forall|i: int| 0 <= i < first.len() implies #[trigger] text[i] != '\n' by {
            assert(text[i] == first[i]);
        }
        lemma_find_at(text, '\n', 0, first.len() as int);
        assert(text.subrange(0, first.len() as int) =~= first);
        assert(read_line(code_of(lines[0]), line, symbols, reader) == Decoded::Instruction(
            program[0],
        ));
        let later = program.skip(1);
        assert forall|j: int| 0 <= j < rest.len() implies is_one_line(#[trigger] rest[j]) by {
            assert(rest[j] == lines[j + 1]);
        }
        assert forall|j: int, at: usize| 0 <= j < later.len() implies #[trigger] read_line(
            code_of(rest[j]),
            at,
            symbols,
            reader,
        ) == Decoded::Instruction(later[j]) by {
            assert(rest[j] == lines[j + 1]);
            assert(later[j] == program[j + 1]);
        }
        assert(rest[later.len() as int] == lines[program.len() as int]);
        lemma_second_pass_reads_lines(
            rest,
            later,
            (line + 1) as usize,
            symbols,
            reader,
            done.push(program[0]),
        );
        lemma_second_pass_shift(
            head,
            lines_joined(rest),
            0,
            (line + 1) as usize,
            symbols,
            reader,
            done.push(program[0]),
            None,
        );
        assert(done.push(program[0]) + later =~= done + program);
    }
}

/// The line sets a label of that name before what may be an instruction.
pub open spec fn is_label_line(line: Seq<char>, name: Seq<char>, with_instruction: bool) -> bool {
    let code = code_of(line);
    let colon = find(code, ':', 0);
    &&& code.len() > 0
    &&& !is_definition(code)
    &&& colon < code.len()
    &&& trim(code.subrange(0, colon)) == name
    &&& name.len() > 0
    &&& (instruction_part(code).len() > 0) == with_instruction
}

/// The labels that the lines of a listing set, the first of them at `count`.
pub open spec fn labels_from(names: Seq<Seq<char>>, count: int) -> Seq<(Seq<char>, usize)> {
    Seq::new(names.len(), |k: int| (names[k], (count + k) as usize))
}

proof fn lemma_lookup_absent<V>(table: Seq<(Seq<char>, V)>, name: Seq<char>, from: int)
    requires
        0 <= from,
        forall|i: int| 0 <= i < table.len() ==> (#[trigger] table[i]).0 != name,
    ensures
        lookup_from(table, name, from) is None,
    decreases table.len() - from,
{
    if from < table.len() {
        lemma_lookup_absent(table, name, from + 1);
    }
}

/// The first pass notes a text line by line: where every line sets a label
/// of a name of its own, and every line but the last holds an instruction,
/// the labels stand for the numbers of their lines.
proof fn lemma_first_pass_marks_lines<F: Fn(Op, u64, u64) -> u64, N: Fn(&Vec<char>) -> Option<u64>>(
    lines: Seq<Seq<char>>,
    names: Seq<Seq<char>>,
    line: usize,
    symbols: Symbols,
    builtin: Seq<(Seq<char>, u64)>,
    fpu: &F,
    reader: &N,
)
    requires
        lines.len() >= 1,
        names.len() == lines.len(),
        line + lines.len() <= usize::MAX,
        symbols.count + lines.len() <= usize::MAX,
        forall|j: int| 0 <= j < lines.len() ==> is_one_line(#[trigger] lines[j]),
        forall|j: int|
            0 <= j < lines.len() ==> is_label_line(#[trigger] lines[j], names[j], j + 1 < lines.len()),
        forall|i: int, j: int| 0 <= i < j < names.len() ==> names[i] != names[j],
        forall|i: int, j: int|
            0 <= i < symbols.labels.len() && 0 <= j < names.len() ==> (#[trigger] symbols.labels[i]).0
                != #[trigger] names[j],
    ensures
        first_pass(lines_joined(lines), 0, line, symbols, builtin, fpu, reader) == Ok::<
            Symbols,
            ParseFault,
        >(
            Symbols {
                constants: symbols.constants,
                labels: symbols.labels + labels_from(names, symbols.count as int),
                count: (symbols.count + lines.len() - 1) as usize,
            },
        ),
    decreases lines.len(),
{
    let text = lines_joined(lines);
    let first = lines[0];
    assert(is_one_line(first));
    assert(is_label_line(first, names[0], 1 < lines.len()));
    let code = code_of(first);
    assert forall|i: int| 0 <= i < symbols.labels.len() implies (#[trigger] symbols.labels[i]).0
        != names[0] by {}
    lemma_lookup_absent(symbols.labels, names[0], 0);
    let next = Symbols {
        labels: symbols.labels.push((names[0], symbols.count)),
        count: if lines.len() > 1 {
            (symbols.count + 1) as usize
        } else {
            symbols.count
        },
        ..symbols
    };
    assert(note(code, line, symbols, builtin, fpu, reader) == Ok::<
        Symbols,
        ParseFault,
    >(next));
    if lines.len() == 1 {
        lemma_find_none(text, '\n', 0);
        assert(text.subrange(0, text.len() as int) =~= first);
        assert(next.labels =~= symbols.labels + labels_from(names, symbols.count as int));
    } else {
        let rest = lines.skip(1);
        let others = names.skip(1);
        let head = first + seq!['\n'];
        assert(text == head + lines_joined(rest));
        assert(text[first.len() as int] == '\n');
        assert forall|i: int| 0 <= i < first.len() implies #[trigger] text[i] != '\n' by {
            assert(text[i] == first[i]);
        }
        lemma_find_at(text, '\n', 0, first.len() as int);
        assert(text.subrange(0, first.len() as int) =~= first);
        assert forall|j: int| 0 <= j < rest.len() implies is_one_line(#[trigger] rest[j]) by {
            assert(rest[j] == lines[j + 1]);
        }
        assert forall|j: int| 0 <= j < rest.len() implies is_label_line(
            #[trigger] rest[j],
            others[j],
            j + 1 < rest.len(),
        ) by {
            assert(rest[j] == lines[j + 1]);
            assert(is_label_line(lines[j + 1], names[j + 1], j + 2 < lines.len()));
        }
        assert forall|i: int, j: int| 0 <= i < j < others.len() implies others[i] != others[j] by {
            assert(names[i + 1] != names[j + 1]);
        }
        assert forall|i: int, j: int|
            0 <= i < next.labels.len() && 0 <= j < others.len() implies (#[trigger] next.labels[i]).0
            != #[trigger] others[j] by {
            assert(others[j] == names[j + 1]);
            if i < symbols.labels.len() {
                assert(next.labels[i] == symbols.labels[i]);
            } else {
                assert(names[0] != names[j + 1]);
            }
        }
        lemma_first_pass_marks_lines(rest, others, (line + 1) as usize, next, builtin, fpu, reader);
        lemma_first_pass_shift(
            head,
            lines_joined(rest),
            0,
            (line + 1) as usize,
            next,
            builtin,
            fpu,
            reader,
        );
        assert(next.labels + labels_from(others, next.count as int) =~= symbols.labels
            + labels_from(names, symbols.count as int));
    }
}

/// A line of a listing: the label with its colon, a blank, and the words of
/// the instruction, one blank between each two.
pub open spec fn instruction_line(name: Seq<char>, parts: Seq<Seq<char>>) -> Seq<char> {
    name + seq![':', ' '] + spaced(parts)
}

/// The last line of a listing: a label with its colon, and nothing behind.
pub open spec fn closing_line(name: Seq<char>) -> Seq<char> {
    name + seq![':']
}

/// A program as text: a line for each instruction, with a label of its own
/// before it, and a last line with the label of the end of the program.
pub open spec fn listing(names: Seq<Seq<char>>, bodies: Seq<Seq<Seq<char>>>) -> Seq<char> {
    lines_joined(listing_lines(names, bodies))
}

/// The lines of a listing.
pub open spec fn listing_lines(names: Seq<Seq<char>>, bodies: Seq<Seq<Seq<char>>>) -> Seq<
    Seq<char>,
> {
    Seq::new(
        names.len(),
        |k: int|
            if k < bodies.len() {
                instruction_line(names[k], bodies[k])
            } else {
                closing_line(names[k])
            },
    )
}

/// A name that can stand as a label of a listing: a plain word that does not
/// begin like a directive.
pub open spec fn is_label_name(name: Seq<char>) -> bool {
    is_plain(name) && name[0] != '.'
}

proof fn lemma_instruction_line(name: Seq<char>, parts: Seq<Seq<char>>)
    requires
        is_label_name(name),
        parts.len() > 0,
        forall|k: int| 0 <= k < parts.len() ==> is_plain(#[trigger] parts[k]),
    ensures
        is_one_line(instruction_line(name, parts)),
        code_of(instruction_line(name, parts)) == instruction_line(name, parts),
        instruction_part(instruction_line(name, parts)) == spaced(parts),
        is_label_line(instruction_line(name, parts), name, true),
{
    let body = spaced(parts);
    let line = instruction_line(name, parts);
    let n = name.len() as int;
    lemma_spaced_holds_its_words(parts);
    assert(is_plain_char(parts[0][0]));
    assert(is_plain_char(name[0]));
    assert(is_plain_char(name[n - 1]));
    assert(line[n] == ':');
    assert(line[n + 1] == ' ');
    assert(line.last() == body.last());
    assert forall|i: int| 0 <= i < line.len() implies {
        let c = #[trigger] line[i];
        c != ';' && c != '#' && c != '/' && c != '\n' && (i < n ==> is_plain_char(c))
    } by {
        if i < n {
            assert(line[i] == name[i]);
            assert(is_plain_char(name[i]));
        } else if i >= n + 2 {
            let c = body[i - n - 2];
            assert(line[i] == c);
            assert(c == ' ' || is_plain_char(c));
        }
    }
    assert(trim(line) =~= line);
    lemma_find_none(line, ';', 0);
    assert(before(line, ';') =~= line);
    lemma_find_none(line, '#', 0);
    assert(before(line, '#') =~= line);
    lemma_find_slashes_none(line, 0);
    assert(line.subrange(0, line.len() as int) =~= line);
    assert(code_of(line) == line);
    assert forall|i: int| 0 <= i < n implies #[trigger] line[i] != ':' by {}
    lemma_find_at(line, ':', 0, n);
    assert(line.subrange(0, n) =~= name);
    assert(trim(name) =~= name);
    let behind = line.subrange(n + 1, line.len() as int);
    assert(behind =~= seq![' '] + body);
    assert(behind[0] == ' ');
    assert(behind[1] == body[0]);
    assert(skip_spaces(behind, 1) == 1);
    assert(skip_spaces(behind, 0) == 1);
    assert(behind.last() == body.last());
    assert(back_spaces(behind, behind.len() as int) == behind.len());
    assert(behind.subrange(1, behind.len() as int) =~= body);
    assert(trim(behind) == body);
    reveal_strlit(".const");
    assert(!is_definition(line)) by {
        if is_definition(line) {
            assert(".const"@[0] == line[0]);
        }
    }
}

proof fn lemma_closing_line(name: Seq<char>)
    requires
        is_label_name(name),
    ensures
        is_one_line(closing_line(name)),
        code_of(closing_line(name)) == closing_line(name),
        instruction_part(closing_line(name)) == Seq::<char>::empty(),
        is_label_line(closing_line(name), name, false),
{
    let line = closing_line(name);
    let n = name.len() as int;
    assert(is_plain_char(name[0]));
    assert(is_plain_char(name[n - 1]));
    assert(line[n] == ':');
    assert forall|i: int| 0 <= i < line.len() implies {
        let c = #[trigger] line[i];
        c != ';' && c != '#' && c != '/' && c != '\n' && (i < n ==> is_plain_char(c))
    } by {
        if i < n {
            assert(line[i] == name[i]);
            assert(is_plain_char(name[i]));
        }
    }
    assert(trim(line) =~= line);
    lemma_find_none(line, ';', 0);
    assert(before(line, ';') =~= line);
    lemma_find_none(line, '#', 0);
    assert(before(line, '#') =~= line);
    lemma_find_slashes_none(line, 0);
    assert(line.subrange(0, line.len() as int) =~= line);
    assert(code_of(line) == line);
    assert forall|i: int| 0 <= i < n implies #[trigger] line[i] != ':' by {}
    lemma_find_at(line, ':', 0, n);
    assert(line.subrange(0, n) =~= name);
    assert(trim(name) =~= name);
    let behind = line.subrange(n + 1, line.len() as int);
    assert(behind =~= Seq::<char>::empty());
    assert(trim(behind) =~= Seq::<char>::empty());
    reveal_strlit(".const");
    assert(!is_definition(line)) by {
        if is_definition(line) {
            assert(".const"@[0] == line[0]);
        }
    }
}

/// What the names of a listing stand for once it is assembled: the constants
/// of the host, and every label for the number of its line.
pub open spec fn listed(names: Seq<Seq<char>>, builtin: Seq<(Seq<char>, u64)>) -> Symbols {
    Symbols {
        constants: builtin,
        labels: labels_from(names, 0),
        count: (names.len() - 1) as usize,
    }
}

/// A label of a listing is found again: where no two labels have the same
/// name, each name stands for the number of its line.
pub proof fn lemma_label_is_found(names: Seq<Seq<char>>, k: int)
    requires
        0 <= k < names.len(),
        names.len() <= usize::MAX,
        forall|i: int, j: int| 0 <= i < j < names.len() ==> names[i] != names[j],
    ensures
        lookup(labels_from(names, 0), names[k]) == Some(k as usize),
{
    lemma_label_is_found_from(names, k, 0);
}

proof fn lemma_label_is_found_from(names: Seq<Seq<char>>, k: int, from: int)
    requires
        0 <= from <= k < names.len(),
        names.len() <= usize::MAX,
        forall|i: int, j: int| 0 <= i < j < names.len() ==> names[i] != names[j],
    ensures
        lookup_from(labels_from(names, 0), names[k], from) == Some(k as usize),
    decreases k - from,
{
    let table = labels_from(names, 0);
    assert(table[from].0 == names[from]);
    if from < k {
        assert(names[from] != names[k]);
        lemma_label_is_found_from(names, k, from + 1);
    }
}

/// A program that is written down reads back as itself. Take any
/// instructions, a label name of its own for each and for the end of the
/// program, and for each instruction words that write it down: the mnemonic
/// in letters of any case, numbers as literals, registers by a name, targets
/// by the label of their line. The listing of these is assembled to those
/// instructions, each with the same operands and the same target, and to
/// those labels.
pub proof fn lemma_written_program_reads_back<
    F: Fn(Op, u64, u64) -> u64,
    N: Fn(&Vec<char>) -> Option<u64>,
>(
    program: Seq<Instruction>,
    names: Seq<Seq<char>>,
    bodies: Seq<Seq<Seq<char>>>,
    builtin: Seq<(Seq<char>, u64)>,
    fpu: &F,
    reader: &N,
)
    requires
        names.len() == program.len() + 1,
        bodies.len() == program.len(),
        names.len() < usize::MAX,
        forall|k: int| 0 <= k < names.len() ==> is_label_name(#[trigger] names[k]),
        forall|i: int, j: int| 0 <= i < j < names.len() ==> names[i] != names[j],
        forall|k: int, j: int|
            0 <= k < bodies.len() && 0 <= j < bodies[k].len() ==> is_plain(#[trigger] bodies[k][j]),
        forall|k: int|
            0 <= k < bodies.len() ==> writes_down(
                #[trigger] bodies[k],
                program[k],
                listed(names, builtin),
                reader,
            ),
    ensures
        assembled(listing(names, bodies), builtin, fpu, reader) == Ok::<
            ProgramView,
            ParseFault,
        >(ProgramView { instructions: program, labels: labels_from(names, 0) }),
{
    let lines = listing_lines(names, bodies);
    let symbols = listed(names, builtin);
    let n = program.len() as int;
    assert forall|j: int| 0 <= j < lines.len() implies is_one_line(#[trigger] lines[j])
        && is_label_line(lines[j], names[j], j + 1 < lines.len()) by {
        assert(is_label_name(names[j]));
        if j < n {
            assert(writes_down(bodies[j], program[j], symbols, reader));
            lemma_instruction_line(names[j], bodies[j]);
        } else {
            lemma_closing_line(names[j]);
        }
    }
    let empty = Symbols { constants: builtin, labels: Seq::empty(), count: 0 };
    lemma_first_pass_marks_lines(lines, names, 1, empty, builtin, fpu, reader);
    assert(empty.labels + labels_from(names, 0) =~= labels_from(names, 0));
    assert forall|j: int, at: usize| 0 <= j < n implies #[trigger] read_line(
        code_of(lines[j]),
        at,
        symbols,
        reader,
    ) == Decoded::Instruction(program[j]) by {
        assert(is_label_name(names[j]));
        assert(writes_down(bodies[j], program[j], symbols, reader));
        lemma_instruction_line(names[j], bodies[j]);
        lemma_words_of_spaced(bodies[j]);
        lemma_written_instruction_reads_back(bodies[j], program[j], at, symbols, reader);
    }
    assert forall|at: usize| #[trigger]
        read_line(code_of(lines[n]), at, symbols, reader) == Decoded::Nothing by {
        assert(is_label_name(names[n]));
        lemma_closing_line(names[n]);
        assert(words(Seq::<char>::empty()) =~= Seq::<Seq<char>>::empty());
    }
    lemma_second_pass_reads_lines(lines, program, 1, symbols, reader, Seq::empty());
    assert(Seq::<Instruction>::empty() + program =~= program);
}

} // verus!
