//! What holds of the machine, the scanner and the arena in every state.
use crate::arena::{is_near, neighbours, with_neighbours, ArenaView};
use crate::config;
use crate::fpu::{answer, Op};
use crate::ieee;
use crate::robot::{
    after_cycle,
    in_sight,
    is_target,
    measure,
    scan_of,
    turned,
    RobotInfo,
    RobotStatus,
    RobotView,
};
use crate::vm::executor::instruction_executor::{executed, processed};
use crate::vm::executor::register_ops::register_outcome;
use crate::vm::executor::stack_ops::stack_outcome;
use crate::vm::executor::done;
use crate::vm::instruction::Instruction;
use crate::vm::operand::Operand;
use crate::vm::expression::lookup_from;
use crate::vm::parser::{
    assembled,
    code_of,
    first_pass,
    mnemonic_of,
    note,
    Bare,
    Binary,
    Jump,
    Mnemonic,
    Required,
    Symbols,
    Unary,
};
use crate::vm::text::{fold_case, is_word};
use crate::vm::registers::{Register, REGISTER_SLOTS};
use crate::vm::state::VMView;
use vstd::prelude::*;

verus! {

/// A machine within its bounds: it has all its registers and memory cells,
/// at most 32 numbers on its operand stack, and at most 10 return addresses
/// on its call stack.
pub open spec fn in_bounds(vm: VMView) -> bool {
    &&& vm.registers.len() == REGISTER_SLOTS
    &&& vm.stack.len() <= config::STACK_SIZE
    &&& vm.call_stack.len() <= config::MAX_CALL_STACK_SIZE
    &&& vm.memory.len() == config::MEMORY_SIZE
}

/// No instruction takes a machine out of its bounds: whatever is executed,
/// the operand stack stays within 32 numbers and the call stack within 10
/// return addresses.
pub proof fn lemma_instruction_keeps_bounds<F: Fn(Op, u64, u64) -> u64>(
    fpu: &F,
    robot: RobotView,
    others: Seq<RobotInfo>,
    arena: ArenaView,
    instruction: Instruction,
)
    requires
        in_bounds(robot.vm),
    ensures
        in_bounds(executed(robot, others, arena, instruction, fpu).robot.vm),
{
    let effect = processed(robot, others, arena, instruction, fpu);
    assert(in_bounds(effect.robot.vm));
}

/// No cycle takes a machine out of its bounds.
pub proof fn lemma_cycle_keeps_bounds<F: Fn(Op, u64, u64) -> u64>(
    fpu: &F,
    robot: RobotView,
    others: Seq<RobotInfo>,
    arena: ArenaView,
)
    requires
        in_bounds(robot.vm),
    ensures
        in_bounds(after_cycle(fpu, robot, others, arena).0.vm),
{
    let awake = if robot.status == RobotStatus::Idle {
        RobotView { status: RobotStatus::Active, ..robot }
    } else {
        robot
    };
    if awake.vm.ip < awake.program.len() {
        lemma_instruction_keeps_bounds(
            fpu,
            awake,
            others,
            arena,
            awake.program[awake.vm.ip as int],
        );
    }
}

/// `push x; pop r` leaves `x` in `r` and the operand stack as it was, where
/// the stack has room for one more number and `r` can be written.
pub proof fn lemma_push_pop(vm: VMView, x: Operand, r: Register)
    requires
        vm.stack.len() < config::STACK_SIZE,
        r.is_writable(),
    ensures
        stack_outcome(stack_outcome(vm, Instruction::Push(x)).vm, Instruction::Pop(r)) == done(
            vm.with_reg(r, x.value_in(vm)),
        ),
{
    let pushed = stack_outcome(vm, Instruction::Push(x)).vm;
    assert(pushed.stack.drop_last() =~= vm.stack);
}

/// `dup; pop r1; pop r2` leaves the same number in `r1` and `r2`: the number
/// that was on top. The stack must hold a number and have room for one more,
/// and both registers must be writable.
pub proof fn lemma_dup_pop_pop(vm: VMView, r1: Register, r2: Register)
    requires
        0 < vm.stack.len() < config::STACK_SIZE,
        vm.registers.len() == REGISTER_SLOTS,
        r1.is_writable(),
        r2.is_writable(),
    ensures
        ({
            let end = stack_outcome(
                stack_outcome(stack_outcome(vm, Instruction::Dup).vm, Instruction::Pop(r1)).vm,
                Instruction::Pop(r2),
            );
            &&& end.result == Ok::<(), crate::vm::error::VMFault>(())
            &&& end.vm.reg(r1) == end.vm.reg(r2)
            &&& end.vm.reg(r1) == vm.stack.last()
            &&& end.vm.stack == vm.stack.drop_last()
        }),
{
    let first = stack_outcome(vm, Instruction::Dup).vm;
    assert(first.stack.drop_last() =~= vm.stack);
    let second = stack_outcome(first, Instruction::Pop(r1)).vm;
    assert(second.stack =~= vm.stack);
}

/// `swap; swap` leaves the machine as it was, where the stack holds two
/// numbers or more.
pub proof fn lemma_swap_swap(vm: VMView)
    requires
        vm.stack.len() >= 2,
    ensures
        stack_outcome(stack_outcome(vm, Instruction::Swap).vm, Instruction::Swap) == done(vm),
{
    let once = stack_outcome(vm, Instruction::Swap).vm;
    let twice = stack_outcome(once, Instruction::Swap).vm;
    assert(twice.stack =~= vm.stack);
}

/// `mov r v; cmp r v` leaves in the result register the difference of `v`
/// with itself, as the arithmetic unit gives it, where `r` can be written.
pub proof fn lemma_mov_cmp<F: Fn(Op, u64, u64) -> u64>(fpu: &F, vm: VMView, r: Register, v: u64)
    requires
        vm.registers.len() == REGISTER_SLOTS,
        r.is_writable(),
    ensures
        register_outcome(
            register_outcome(vm, Instruction::Mov(r, Operand::Value(v)), fpu).vm,
            Instruction::Cmp(Operand::Register(r), Operand::Value(v)),
            fpu,
        ).vm.reg(Register::Result) == answer(fpu, Op::Sub, v, v),
{
}

/// The ids of the robots are all different.
pub open spec fn distinct_ids(robots: Seq<RobotView>) -> bool {
    forall|i: int, j: int| 0 <= i < j < robots.len() ==> robots[i].id != robots[j].id
}

/// The id is that of one of the first `upto` robots that is near the `i`-th.
pub open spec fn is_id_of_near<F: Fn(Op, u64, u64) -> u64>(
    fpu: &F,
    robots: Seq<RobotView>,
    i: int,
    upto: int,
    id: u32,
) -> bool {
    exists|j: int| 0 <= j < upto && #[trigger] is_near(fpu, robots, i, j) && robots[j].id == id
}

/// Every id among the neighbours of the `i`-th robot is the id of a robot
/// that is near it.
pub proof fn lemma_neighbours_are_near<F: Fn(Op, u64, u64) -> u64>(
    fpu: &F,
    robots: Seq<RobotView>,
    i: int,
    upto: int,
)
    requires
        0 <= upto <= robots.len(),
    ensures
        forall|k: int|
            0 <= k < neighbours(fpu, robots, i, upto).len() ==> is_id_of_near(
                fpu,
                robots,
                i,
                upto,
                #[trigger] neighbours(fpu, robots, i, upto)[k],
            ),
    decreases upto,
{
    if upto > 0 {
        lemma_neighbours_are_near(fpu, robots, i, upto - 1);
        let before = neighbours(fpu, robots, i, upto - 1);
        let now = neighbours(fpu, robots, i, upto);
        assert forall|k: int| 0 <= k < now.len() implies is_id_of_near(
            fpu,
            robots,
            i,
            upto,
            #[trigger] now[k],
        ) by {
            if k < before.len() {
                assert(is_id_of_near(fpu, robots, i, upto - 1, before[k]));
                let j = choose|j: int|
                    0 <= j < upto - 1 && #[trigger] is_near(fpu, robots, i, j) && robots[j].id
                        == before[k];
                assert(is_near(fpu, robots, i, j));
            } else {
                assert(is_near(fpu, robots, i, upto - 1));
            }
        }
    }
}

/// After the areas of interest are made anew, no robot's area of interest
/// holds the robot's own id or the id of a wreck, where the ids of the
/// robots are all different.
pub proof fn lemma_aoi_excludes_self_and_wrecks<F: Fn(Op, u64, u64) -> u64>(
    fpu: &F,
    robots: Seq<RobotView>,
    i: int,
    k: int,
    j: int,
)
    requires
        0 <= i < robots.len(),
        distinct_ids(robots),
        0 <= k < with_neighbours(fpu, robots, i).aoi.len(),
        0 <= j < robots.len(),
        robots[j].id == with_neighbours(fpu, robots, i).aoi[k],
    ensures
        j != i,
        robots[j].status != RobotStatus::Destroyed,
{
    let aoi = with_neighbours(fpu, robots, i).aoi;
    lemma_neighbours_are_near(fpu, robots, i, robots.len() as int);
    assert(is_id_of_near(fpu, robots, i, robots.len() as int, aoi[k]));
    let near = choose|near: int|
        0 <= near < robots.len() && #[trigger] is_near(fpu, robots, i, near) && robots[near].id
            == aoi[k];
    if j < near {
        assert(robots[j].id != robots[near].id);
    } else if near < j {
        assert(robots[near].id != robots[j].id);
    }
}

/// The scan's finding is the robot at `k`: one of the robots looked at,
/// another robot and no wreck, in sight, with the distance and the direction
/// that the scan has found.
pub open spec fn is_sighting_of<F: Fn(Op, u64, u64) -> u64>(
    fpu: &F,
    robot: RobotView,
    arena: ArenaView,
    others: Seq<RobotInfo>,
    upto: int,
    k: int,
) -> bool {
    &&& 0 <= k < upto
    &&& is_target(robot, others[k])
    &&& in_sight(fpu, robot, arena, others[k].position)
    &&& scan_of(fpu, robot, arena, others, upto).distance == measure(
        fpu,
        robot,
        others[k].position,
    ).distance
    &&& scan_of(fpu, robot, arena, others, upto).direction == measure(
        fpu,
        robot,
        others[k].position,
    ).direction
}

/// A target that a scan reports is one of the robots looked at: another
/// robot, no wreck, within half the field of view of the turret's direction,
/// and nearer than whatever stands in the way to it; and the scan reports its
/// distance and its direction.
pub proof fn lemma_reported_target_is_in_sight<F: Fn(Op, u64, u64) -> u64>(
    fpu: &F,
    robot: RobotView,
    arena: ArenaView,
    others: Seq<RobotInfo>,
    upto: int,
)
    requires
        0 <= upto <= others.len(),
        scan_of(fpu, robot, arena, others, upto).found,
    ensures
        exists|k: int| #[trigger] is_sighting_of(fpu, robot, arena, others, upto, k),
    decreases upto,
{
    let before = scan_of(fpu, robot, arena, others, upto - 1);
    let now = scan_of(fpu, robot, arena, others, upto);
    if now == before {
        lemma_reported_target_is_in_sight(fpu, robot, arena, others, upto - 1);
        let k = choose|k: int| #[trigger] is_sighting_of(fpu, robot, arena, others, upto - 1, k);
        assert(is_sighting_of(fpu, robot, arena, others, upto, k));
    } else {
        assert(is_sighting_of(fpu, robot, arena, others, upto, upto - 1));
    }
}

/// What a scan has found so far is either nothing, with no square of a
/// distance to beat, or a target with a square of a distance that is a
/// number.
pub proof fn lemma_scan_holds_a_number<F: Fn(Op, u64, u64) -> u64>(
    fpu: &F,
    robot: RobotView,
    arena: ArenaView,
    others: Seq<RobotInfo>,
    upto: int,
)
    ensures
        !ieee::spec_is_nan(scan_of(fpu, robot, arena, others, upto).nearest_squared),
        !scan_of(fpu, robot, arena, others, upto).found ==> scan_of(
            fpu,
            robot,
            arena,
            others,
            upto,
        ).nearest_squared == ieee::INFINITY,
    decreases upto,
{
    if upto > 0 {
        lemma_scan_holds_a_number(fpu, robot, arena, others, upto - 1);
    }
}

/// A scan reports the nearest target in sight. No robot looked at that can
/// be a target and is in sight is nearer, by the square of its distance,
/// than what the scan has found; and where the square of its distance is a
/// number, the scan has found a target.
pub proof fn lemma_no_target_in_sight_is_nearer<F: Fn(Op, u64, u64) -> u64>(
    fpu: &F,
    robot: RobotView,
    arena: ArenaView,
    others: Seq<RobotInfo>,
    upto: int,
    k: int,
)
    requires
        0 <= k < upto <= others.len(),
        is_target(robot, others[k]),
        in_sight(fpu, robot, arena, others[k].position),
    ensures
        !ieee::spec_lt(
            measure(fpu, robot, others[k].position).squared,
            scan_of(fpu, robot, arena, others, upto).nearest_squared,
        ),
        !ieee::spec_is_nan(measure(fpu, robot, others[k].position).squared) ==> scan_of(
            fpu,
            robot,
            arena,
            others,
            upto,
        ).found,
    decreases upto,
{
    lemma_scan_holds_a_number(fpu, robot, arena, others, upto - 1);
    lemma_scan_holds_a_number(fpu, robot, arena, others, upto);
    if k < upto - 1 {
        lemma_no_target_in_sight_is_nearer(fpu, robot, arena, others, upto - 1, k);
    }
}

} // verus!

verus! {

/// How a mnemonic is written.
pub open spec fn spelling(m: Mnemonic) -> Seq<char> {
    match m {
        Mnemonic::Required(Required::Push) => "push"@,
        Mnemonic::Pop => "pop"@,
        Mnemonic::Bare(Bare::Dup) => "dup"@,
        Mnemonic::Bare(Bare::Swap) => "swap"@,
        Mnemonic::Mov => "mov"@,
        Mnemonic::Lod => "lod"@,
        Mnemonic::Required(Required::Sto) => "sto"@,
        Mnemonic::Cmp => "cmp"@,
        Mnemonic::Binary(Binary::Add) => "add"@,
        Mnemonic::Binary(Binary::Sub) => "sub"@,
        Mnemonic::Binary(Binary::Mul) => "mul"@,
        Mnemonic::Binary(Binary::Div) => "div"@,
        Mnemonic::Binary(Binary::Mod) => "mod"@,
        Mnemonic::Bare(Bare::Divmod) => "divmod"@,
        Mnemonic::Binary(Binary::Pow) => "pow"@,
        Mnemonic::Unary(Unary::Sqrt) => "sqrt"@,
        Mnemonic::Unary(Unary::Log) => "log"@,
        Mnemonic::Unary(Unary::Sin) => "sin"@,
        Mnemonic::Unary(Unary::Cos) => "cos"@,
        Mnemonic::Unary(Unary::Tan) => "tan"@,
        Mnemonic::Unary(Unary::Asin) => "asin"@,
        Mnemonic::Unary(Unary::Acos) => "acos"@,
        Mnemonic::Unary(Unary::Atan) => "atan"@,
        Mnemonic::Binary(Binary::Atan2) => "atan2"@,
        Mnemonic::Unary(Unary::Abs) => "abs"@,
        Mnemonic::Binary(Binary::And) => "and"@,
        Mnemonic::Binary(Binary::Or) => "or"@,
        Mnemonic::Binary(Binary::Xor) => "xor"@,
        Mnemonic::Unary(Unary::Not) => "not"@,
        Mnemonic::Binary(Binary::Shl) => "shl"@,
        Mnemonic::Binary(Binary::Shr) => "shr"@,
        Mnemonic::Jump(Jump::Jmp) => "jmp"@,
        Mnemonic::Jump(Jump::Jz) => "jz"@,
        Mnemonic::Jump(Jump::Jnz) => "jnz"@,
        Mnemonic::Jump(Jump::Jl) => "jl"@,
        Mnemonic::Jump(Jump::Jle) => "jle"@,
        Mnemonic::Jump(Jump::Jg) => "jg"@,
        Mnemonic::Jump(Jump::Jge) => "jge"@,
        Mnemonic::Jump(Jump::Call) => "call"@,
        Mnemonic::Bare(Bare::Ret) => "ret"@,
        Mnemonic::Jump(Jump::Loop) => "loop"@,
        Mnemonic::Required(Required::Select) => "select"@,
        Mnemonic::Bare(Bare::Deselect) => "deselect"@,
        Mnemonic::Required(Required::Rotate) => "rotate"@,
        Mnemonic::Required(Required::Drive) => "drive"@,
        Mnemonic::Required(Required::Fire) => "fire"@,
        Mnemonic::Bare(Bare::Scan) => "scan"@,
        Mnemonic::Bare(Bare::Nop) => "nop"@,
        Mnemonic::Required(Required::Dbg) => "dbg"@,
        Mnemonic::Required(Required::Sleep) => "sleep"@,
    }
}

/// A mnemonic that is written out and read again is the same mnemonic: the
/// assembler tells all mnemonics apart.
pub proof fn lemma_mnemonic_round_trip(m: Mnemonic)
    ensures
        mnemonic_of(spelling(m)) == Some(m),
{
    reveal_strlit("push");
    reveal_strlit("pop");
    reveal_strlit("dup");
    reveal_strlit("swap");
    reveal_strlit("mov");
    reveal_strlit("lod");
    reveal_strlit("sto");
    reveal_strlit("cmp");
    reveal_strlit("add");
    reveal_strlit("sub");
    reveal_strlit("mul");
    reveal_strlit("div");
    reveal_strlit("mod");
    reveal_strlit("divmod");
    reveal_strlit("pow");
    reveal_strlit("sqrt");
    reveal_strlit("log");
    reveal_strlit("sin");
    reveal_strlit("cos");
    reveal_strlit("tan");
    reveal_strlit("asin");
    reveal_strlit("acos");
    reveal_strlit("atan");
    reveal_strlit("atan2");
    reveal_strlit("abs");
    reveal_strlit("and");
    reveal_strlit("or");
    reveal_strlit("xor");
    reveal_strlit("not");
    reveal_strlit("shl");
    reveal_strlit("shr");
    reveal_strlit("jmp");
    reveal_strlit("jz");
    reveal_strlit("jnz");
    reveal_strlit("jl");
    reveal_strlit("jle");
    reveal_strlit("jg");
    reveal_strlit("jge");
    reveal_strlit("call");
    reveal_strlit("ret");
    reveal_strlit("loop");
    reveal_strlit("select");
    reveal_strlit("deselect");
    reveal_strlit("rotate");
    reveal_strlit("drive");
    reveal_strlit("fire");
    reveal_strlit("scan");
    reveal_strlit("nop");
    reveal_strlit("dbg");
    reveal_strlit("sleep");
    reveal_strlit("je");
    reveal_strlit("jne");
    let w = spelling(m);
    match m {
        Mnemonic::Required(Required::Push) => {
            assert(w.len() == 4);
            assert(w[0] == 'p');
            assert(w[1] == 'u');
            assert(w[2] == 's');
            assert(w[3] == 'h');
        },
        Mnemonic::Pop => {
            assert(w.len() == 3);
            assert(w[0] == 'p');
            assert(w[1] == 'o');
            assert(w[2] == 'p');
        },
        Mnemonic::Bare(Bare::Dup) => {
            assert(w.len() == 3);
            assert(w[0] == 'd');
            assert(w[1] == 'u');
            assert(w[2] == 'p');
        },
        Mnemonic::Bare(Bare::Swap) => {
            assert(w.len() == 4);
            assert(w[0] == 's');
            assert(w[1] == 'w');
            assert(w[2] == 'a');
            assert(w[3] == 'p');
        },
        Mnemonic::Mov => {
            assert(w.len() == 3);
            assert(w[0] == 'm');
            assert(w[1] == 'o');
            assert(w[2] == 'v');
        },
        Mnemonic::Lod => {
            assert(w.len() == 3);
            assert(w[0] == 'l');
            assert(w[1] == 'o');
            assert(w[2] == 'd');
        },
        Mnemonic::Required(Required::Sto) => {
            assert(w.len() == 3);
            assert(w[0] == 's');
            assert(w[1] == 't');
            assert(w[2] == 'o');
        },
        Mnemonic::Cmp => {
            assert(w.len() == 3);
            assert(w[0] == 'c');
            assert(w[1] == 'm');
            assert(w[2] == 'p');
        },
        Mnemonic::Binary(Binary::Add) => {
            assert(w.len() == 3);
            assert(w[0] == 'a');
            assert(w[1] == 'd');
            assert(w[2] == 'd');
        },
        Mnemonic::Binary(Binary::Sub) => {
            assert(w.len() == 3);
            assert(w[0] == 's');
            assert(w[1] == 'u');
            assert(w[2] == 'b');
        },
        Mnemonic::Binary(Binary::Mul) => {
            assert(w.len() == 3);
            assert(w[0] == 'm');
            assert(w[1] == 'u');
            assert(w[2] == 'l');
        },
        Mnemonic::Binary(Binary::Div) => {
            assert(w.len() == 3);
            assert(w[0] == 'd');
            assert(w[1] == 'i');
            assert(w[2] == 'v');
        },
        Mnemonic::Binary(Binary::Mod) => {
            assert(w.len() == 3);
            assert(w[0] == 'm');
            assert(w[1] == 'o');
            assert(w[2] == 'd');
        },
        Mnemonic::Bare(Bare::Divmod) => {
            assert(w.len() == 6);
            assert(w[0] == 'd');
            assert(w[1] == 'i');
            assert(w[2] == 'v');
            assert(w[3] == 'm');
            assert(w[4] == 'o');
            assert(w[5] == 'd');
        },
        Mnemonic::Binary(Binary::Pow) => {
            assert(w.len() == 3);
            assert(w[0] == 'p');
            assert(w[1] == 'o');
            assert(w[2] == 'w');
        },
        Mnemonic::Unary(Unary::Sqrt) => {
            assert(w.len() == 4);
            assert(w[0] == 's');
            assert(w[1] == 'q');
            assert(w[2] == 'r');
            assert(w[3] == 't');
        },
        Mnemonic::Unary(Unary::Log) => {
            assert(w.len() == 3);
            assert(w[0] == 'l');
            assert(w[1] == 'o');
            assert(w[2] == 'g');
        },
        Mnemonic::Unary(Unary::Sin) => {
            assert(w.len() == 3);
            assert(w[0] == 's');
            assert(w[1] == 'i');
            assert(w[2] == 'n');
        },
        Mnemonic::Unary(Unary::Cos) => {
            assert(w.len() == 3);
            assert(w[0] == 'c');
            assert(w[1] == 'o');
            assert(w[2] == 's');
        },
        Mnemonic::Unary(Unary::Tan) => {
            assert(w.len() == 3);
            assert(w[0] == 't');
            assert(w[1] == 'a');
            assert(w[2] == 'n');
        },
        Mnemonic::Unary(Unary::Asin) => {
            assert(w.len() == 4);
            assert(w[0] == 'a');
            assert(w[1] == 's');
            assert(w[2] == 'i');
            assert(w[3] == 'n');
        },
        Mnemonic::Unary(Unary::Acos) => {
            assert(w.len() == 4);
            assert(w[0] == 'a');
            assert(w[1] == 'c');
            assert(w[2] == 'o');
            assert(w[3] == 's');
        },
        Mnemonic::Unary(Unary::Atan) => {
            assert(w.len() == 4);
            assert(w[0] == 'a');
            assert(w[1] == 't');
            assert(w[2] == 'a');
            assert(w[3] == 'n');
        },
        Mnemonic::Binary(Binary::Atan2) => {
            assert(w.len() == 5);
            assert(w[0] == 'a');
            assert(w[1] == 't');
            assert(w[2] == 'a');
            assert(w[3] == 'n');
            assert(w[4] == '2');
        },
        Mnemonic::Unary(Unary::Abs) => {
            assert(w.len() == 3);
            assert(w[0] == 'a');
            assert(w[1] == 'b');
            assert(w[2] == 's');
        },
        Mnemonic::Binary(Binary::And) => {
            assert(w.len() == 3);
            assert(w[0] == 'a');
            assert(w[1] == 'n');
            assert(w[2] == 'd');
        },
        Mnemonic::Binary(Binary::Or) => {
            assert(w.len() == 2);
            assert(w[0] == 'o');
            assert(w[1] == 'r');
        },
        Mnemonic::Binary(Binary::Xor) => {
            assert(w.len() == 3);
            assert(w[0] == 'x');
            assert(w[1] == 'o');
            assert(w[2] == 'r');
        },
        Mnemonic::Unary(Unary::Not) => {
            assert(w.len() == 3);
            assert(w[0] == 'n');
            assert(w[1] == 'o');
            assert(w[2] == 't');
        },
        Mnemonic::Binary(Binary::Shl) => {
            assert(w.len() == 3);
            assert(w[0] == 's');
            assert(w[1] == 'h');
            assert(w[2] == 'l');
        },
        Mnemonic::Binary(Binary::Shr) => {
            assert(w.len() == 3);
            assert(w[0] == 's');
            assert(w[1] == 'h');
            assert(w[2] == 'r');
        },
        Mnemonic::Jump(Jump::Jmp) => {
            assert(w.len() == 3);
            assert(w[0] == 'j');
            assert(w[1] == 'm');
            assert(w[2] == 'p');
        },
        Mnemonic::Jump(Jump::Jz) => {
            assert(w.len() == 2);
            assert(w[0] == 'j');
            assert(w[1] == 'z');
        },
        Mnemonic::Jump(Jump::Jnz) => {
            assert(w.len() == 3);
            assert(w[0] == 'j');
            assert(w[1] == 'n');
            assert(w[2] == 'z');
        },
        Mnemonic::Jump(Jump::Jl) => {
            assert(w.len() == 2);
            assert(w[0] == 'j');
            assert(w[1] == 'l');
        },
        Mnemonic::Jump(Jump::Jle) => {
            assert(w.len() == 3);
            assert(w[0] == 'j');
            assert(w[1] == 'l');
            assert(w[2] == 'e');
        },
        Mnemonic::Jump(Jump::Jg) => {
            assert(w.len() == 2);
            assert(w[0] == 'j');
            assert(w[1] == 'g');
        },
        Mnemonic::Jump(Jump::Jge) => {
            assert(w.len() == 3);
            assert(w[0] == 'j');
            assert(w[1] == 'g');
            assert(w[2] == 'e');
        },
        Mnemonic::Jump(Jump::Call) => {
            assert(w.len() == 4);
            assert(w[0] == 'c');
            assert(w[1] == 'a');
            assert(w[2] == 'l');
            assert(w[3] == 'l');
        },
        Mnemonic::Bare(Bare::Ret) => {
            assert(w.len() == 3);
            assert(w[0] == 'r');
            assert(w[1] == 'e');
            assert(w[2] == 't');
        },
        Mnemonic::Jump(Jump::Loop) => {
            assert(w.len() == 4);
            assert(w[0] == 'l');
            assert(w[1] == 'o');
            assert(w[2] == 'o');
            assert(w[3] == 'p');
        },
        Mnemonic::Required(Required::Select) => {
            assert(w.len() == 6);
            assert(w[0] == 's');
            assert(w[1] == 'e');
            assert(w[2] == 'l');
            assert(w[3] == 'e');
            assert(w[4] == 'c');
            assert(w[5] == 't');
        },
        Mnemonic::Bare(Bare::Deselect) => {
            assert(w.len() == 8);
            assert(w[0] == 'd');
            assert(w[1] == 'e');
            assert(w[2] == 's');
            assert(w[3] == 'e');
            assert(w[4] == 'l');
            assert(w[5] == 'e');
            assert(w[6] == 'c');
            assert(w[7] == 't');
        },
        Mnemonic::Required(Required::Rotate) => {
            assert(w.len() == 6);
            assert(w[0] == 'r');
            assert(w[1] == 'o');
            assert(w[2] == 't');
            assert(w[3] == 'a');
            assert(w[4] == 't');
            assert(w[5] == 'e');
        },
        Mnemonic::Required(Required::Drive) => {
            assert(w.len() == 5);
            assert(w[0] == 'd');
            assert(w[1] == 'r');
            assert(w[2] == 'i');
            assert(w[3] == 'v');
            assert(w[4] == 'e');
        },
        Mnemonic::Required(Required::Fire) => {
            assert(w.len() == 4);
            assert(w[0] == 'f');
            assert(w[1] == 'i');
            assert(w[2] == 'r');
            assert(w[3] == 'e');
        },
        Mnemonic::Bare(Bare::Scan) => {
            assert(w.len() == 4);
            assert(w[0] == 's');
            assert(w[1] == 'c');
            assert(w[2] == 'a');
            assert(w[3] == 'n');
        },
        Mnemonic::Bare(Bare::Nop) => {
            assert(w.len() == 3);
            assert(w[0] == 'n');
            assert(w[1] == 'o');
            assert(w[2] == 'p');
        },
        Mnemonic::Required(Required::Dbg) => {
            assert(w.len() == 3);
            assert(w[0] == 'd');
            assert(w[1] == 'b');
            assert(w[2] == 'g');
        },
        Mnemonic::Required(Required::Sleep) => {
            assert(w.len() == 5);
            assert(w[0] == 's');
            assert(w[1] == 'l');
            assert(w[2] == 'e');
            assert(w[3] == 'e');
            assert(w[4] == 'p');
        },
    }
}

/// A robot's power after it has regained some is 1.0 at most.
pub proof fn lemma_power_at_most_one<F: Fn(Op, u64, u64) -> u64>(fpu: &F, power: u64)
    ensures
        ieee::spec_le(crate::robot::regained(fpu, power), ieee::ONE),
{
}

/// A robot's health after a hit is not below 0.0.
pub proof fn lemma_health_not_negative<F: Fn(Op, u64, u64) -> u64>(
    fpu: &F,
    robot: RobotView,
    projectile: crate::types::Projectile,
)
    ensures
        !ieee::spec_lt(crate::arena::hit(fpu, robot, projectile).health, ieee::ZERO),
{
}

} // verus!

verus! {

/// A mnemonic is read whatever the case of its letters: every word that is
/// the spelling of a mnemonic but for the case of its letters reads as that
/// mnemonic, and as no other.
pub proof fn lemma_mnemonic_in_any_case(w: Seq<char>, m: Mnemonic)
    requires
        is_word(w, spelling(m)),
    ensures
        mnemonic_of(w) == Some(m),
{
    reveal_strlit("push");
    reveal_strlit("pop");
    reveal_strlit("dup");
    reveal_strlit("swap");
    reveal_strlit("mov");
    reveal_strlit("lod");
    reveal_strlit("sto");
    reveal_strlit("cmp");
    reveal_strlit("add");
    reveal_strlit("sub");
    reveal_strlit("mul");
    reveal_strlit("div");
    reveal_strlit("mod");
    reveal_strlit("divmod");
    reveal_strlit("pow");
    reveal_strlit("sqrt");
    reveal_strlit("log");
    reveal_strlit("sin");
    reveal_strlit("cos");
    reveal_strlit("tan");
    reveal_strlit("asin");
    reveal_strlit("acos");
    reveal_strlit("atan");
    reveal_strlit("atan2");
    reveal_strlit("abs");
    reveal_strlit("and");
    reveal_strlit("or");
    reveal_strlit("xor");
    reveal_strlit("not");
    reveal_strlit("shl");
    reveal_strlit("shr");
    reveal_strlit("jmp");
    reveal_strlit("jz");
    reveal_strlit("jnz");
    reveal_strlit("jl");
    reveal_strlit("jle");
    reveal_strlit("jg");
    reveal_strlit("jge");
    reveal_strlit("call");
    reveal_strlit("ret");
    reveal_strlit("loop");
    reveal_strlit("select");
    reveal_strlit("deselect");
    reveal_strlit("rotate");
    reveal_strlit("drive");
    reveal_strlit("fire");
    reveal_strlit("scan");
    reveal_strlit("nop");
    reveal_strlit("dbg");
    reveal_strlit("sleep");
    reveal_strlit("je");
    reveal_strlit("jne");
    match m {
        Mnemonic::Required(Required::Push) => {
            assert(w.len() == 4);
            assert(fold_case(w[0]) == 'p' as u32);
            assert(fold_case(w[1]) == 'u' as u32);
            assert(fold_case(w[2]) == 's' as u32);
            assert(fold_case(w[3]) == 'h' as u32);
        },
        Mnemonic::Pop => {
            assert(w.len() == 3);
            assert(fold_case(w[0]) == 'p' as u32);
            assert(fold_case(w[1]) == 'o' as u32);
            assert(fold_case(w[2]) == 'p' as u32);
        },
        Mnemonic::Bare(Bare::Dup) => {
            assert(w.len() == 3);
            assert(fold_case(w[0]) == 'd' as u32);
            assert(fold_case(w[1]) == 'u' as u32);
            assert(fold_case(w[2]) == 'p' as u32);
        },
        Mnemonic::Bare(Bare::Swap) => {
            assert(w.len() == 4);
            assert(fold_case(w[0]) == 's' as u32);
            assert(fold_case(w[1]) == 'w' as u32);
            assert(fold_case(w[2]) == 'a' as u32);
            assert(fold_case(w[3]) == 'p' as u32);
        },
        Mnemonic::Mov => {
            assert(w.len() == 3);
            assert(fold_case(w[0]) == 'm' as u32);
            assert(fold_case(w[1]) == 'o' as u32);
            assert(fold_case(w[2]) == 'v' as u32);
        },
        Mnemonic::Lod => {
            assert(w.len() == 3);
            assert(fold_case(w[0]) == 'l' as u32);
            assert(fold_case(w[1]) == 'o' as u32);
            assert(fold_case(w[2]) == 'd' as u32);
        },
        Mnemonic::Required(Required::Sto) => {
            assert(w.len() == 3);
            assert(fold_case(w[0]) == 's' as u32);
            assert(fold_case(w[1]) == 't' as u32);
            assert(fold_case(w[2]) == 'o' as u32);
        },
        Mnemonic::Cmp => {
            assert(w.len() == 3);
            assert(fold_case(w[0]) == 'c' as u32);
            assert(fold_case(w[1]) == 'm' as u32);
            assert(fold_case(w[2]) == 'p' as u32);
        },
        Mnemonic::Binary(Binary::Add) => {
            assert(w.len() == 3);
            assert(fold_case(w[0]) == 'a' as u32);
            assert(fold_case(w[1]) == 'd' as u32);
            assert(fold_case(w[2]) == 'd' as u32);
        },
        Mnemonic::Binary(Binary::Sub) => {
            assert(w.len() == 3);
            assert(fold_case(w[0]) == 's' as u32);
            assert(fold_case(w[1]) == 'u' as u32);
            assert(fold_case(w[2]) == 'b' as u32);
        },
        Mnemonic::Binary(Binary::Mul) => {
            assert(w.len() == 3);
            assert(fold_case(w[0]) == 'm' as u32);
            assert(fold_case(w[1]) == 'u' as u32);
            assert(fold_case(w[2]) == 'l' as u32);
        },
        Mnemonic::Binary(Binary::Div) => {
            assert(w.len() == 3);
            assert(fold_case(w[0]) == 'd' as u32);
            assert(fold_case(w[1]) == 'i' as u32);
            assert(fold_case(w[2]) == 'v' as u32);
        },
        Mnemonic::Binary(Binary::Mod) => {
            assert(w.len() == 3);
            assert(fold_case(w[0]) == 'm' as u32);
            assert(fold_case(w[1]) == 'o' as u32);
            assert(fold_case(w[2]) == 'd' as u32);
        },
        Mnemonic::Bare(Bare::Divmod) => {
            assert(w.len() == 6);
            assert(fold_case(w[0]) == 'd' as u32);
            assert(fold_case(w[1]) == 'i' as u32);
            assert(fold_case(w[2]) == 'v' as u32);
            assert(fold_case(w[3]) == 'm' as u32);
            assert(fold_case(w[4]) == 'o' as u32);
            assert(fold_case(w[5]) == 'd' as u32);
        },
        Mnemonic::Binary(Binary::Pow) => {
            assert(w.len() == 3);
            assert(fold_case(w[0]) == 'p' as u32);
            assert(fold_case(w[1]) == 'o' as u32);
            assert(fold_case(w[2]) == 'w' as u32);
        },
        Mnemonic::Unary(Unary::Sqrt) => {
            assert(w.len() == 4);
            assert(fold_case(w[0]) == 's' as u32);
            assert(fold_case(w[1]) == 'q' as u32);
            assert(fold_case(w[2]) == 'r' as u32);
            assert(fold_case(w[3]) == 't' as u32);
        },
        Mnemonic::Unary(Unary::Log) => {
            assert(w.len() == 3);
            assert(fold_case(w[0]) == 'l' as u32);
            assert(fold_case(w[1]) == 'o' as u32);
            assert(fold_case(w[2]) == 'g' as u32);
        },
        Mnemonic::Unary(Unary::Sin) => {
            assert(w.len() == 3);
            assert(fold_case(w[0]) == 's' as u32);
            assert(fold_case(w[1]) == 'i' as u32);
            assert(fold_case(w[2]) == 'n' as u32);
        },
        Mnemonic::Unary(Unary::Cos) => {
            assert(w.len() == 3);
            assert(fold_case(w[0]) == 'c' as u32);
            assert(fold_case(w[1]) == 'o' as u32);
            assert(fold_case(w[2]) == 's' as u32);
        },
        Mnemonic::Unary(Unary::Tan) => {
            assert(w.len() == 3);
            assert(fold_case(w[0]) == 't' as u32);
            assert(fold_case(w[1]) == 'a' as u32);
            assert(fold_case(w[2]) == 'n' as u32);
        },
        Mnemonic::Unary(Unary::Asin) => {
            assert(w.len() == 4);
            assert(fold_case(w[0]) == 'a' as u32);
            assert(fold_case(w[1]) == 's' as u32);
            assert(fold_case(w[2]) == 'i' as u32);
            assert(fold_case(w[3]) == 'n' as u32);
        },
        Mnemonic::Unary(Unary::Acos) => {
            assert(w.len() == 4);
            assert(fold_case(w[0]) == 'a' as u32);
            assert(fold_case(w[1]) == 'c' as u32);
            assert(fold_case(w[2]) == 'o' as u32);
            assert(fold_case(w[3]) == 's' as u32);
        },
        Mnemonic::Unary(Unary::Atan) => {
            assert(w.len() == 4);
            assert(fold_case(w[0]) == 'a' as u32);
            assert(fold_case(w[1]) == 't' as u32);
            assert(fold_case(w[2]) == 'a' as u32);
            assert(fold_case(w[3]) == 'n' as u32);
        },
        Mnemonic::Binary(Binary::Atan2) => {
            assert(w.len() == 5);
            assert(fold_case(w[0]) == 'a' as u32);
            assert(fold_case(w[1]) == 't' as u32);
            assert(fold_case(w[2]) == 'a' as u32);
            assert(fold_case(w[3]) == 'n' as u32);
            assert(fold_case(w[4]) == '2' as u32);
        },
        Mnemonic::Unary(Unary::Abs) => {
            assert(w.len() == 3);
            assert(fold_case(w[0]) == 'a' as u32);
            assert(fold_case(w[1]) == 'b' as u32);
            assert(fold_case(w[2]) == 's' as u32);
        },
        Mnemonic::Binary(Binary::And) => {
            assert(w.len() == 3);
            assert(fold_case(w[0]) == 'a' as u32);
            assert(fold_case(w[1]) == 'n' as u32);
            assert(fold_case(w[2]) == 'd' as u32);
        },
        Mnemonic::Binary(Binary::Or) => {
            assert(w.len() == 2);
            assert(fold_case(w[0]) == 'o' as u32);
            assert(fold_case(w[1]) == 'r' as u32);
        },
        Mnemonic::Binary(Binary::Xor) => {
            assert(w.len() == 3);
            assert(fold_case(w[0]) == 'x' as u32);
            assert(fold_case(w[1]) == 'o' as u32);
            assert(fold_case(w[2]) == 'r' as u32);
        },
        Mnemonic::Unary(Unary::Not) => {
            assert(w.len() == 3);
            assert(fold_case(w[0]) == 'n' as u32);
            assert(fold_case(w[1]) == 'o' as u32);
            assert(fold_case(w[2]) == 't' as u32);
        },
        Mnemonic::Binary(Binary::Shl) => {
            assert(w.len() == 3);
            assert(fold_case(w[0]) == 's' as u32);
            assert(fold_case(w[1]) == 'h' as u32);
            assert(fold_case(w[2]) == 'l' as u32);
        },
        Mnemonic::Binary(Binary::Shr) => {
            assert(w.len() == 3);
            assert(fold_case(w[0]) == 's' as u32);
            assert(fold_case(w[1]) == 'h' as u32);
            assert(fold_case(w[2]) == 'r' as u32);
        },
        Mnemonic::Jump(Jump::Jmp) => {
            assert(w.len() == 3);
            assert(fold_case(w[0]) == 'j' as u32);
            assert(fold_case(w[1]) == 'm' as u32);
            assert(fold_case(w[2]) == 'p' as u32);
        },
        Mnemonic::Jump(Jump::Jz) => {
            assert(w.len() == 2);
            assert(fold_case(w[0]) == 'j' as u32);
            assert(fold_case(w[1]) == 'z' as u32);
        },
        Mnemonic::Jump(Jump::Jnz) => {
            assert(w.len() == 3);
            assert(fold_case(w[0]) == 'j' as u32);
            assert(fold_case(w[1]) == 'n' as u32);
            assert(fold_case(w[2]) == 'z' as u32);
        },
        Mnemonic::Jump(Jump::Jl) => {
            assert(w.len() == 2);
            assert(fold_case(w[0]) == 'j' as u32);
            assert(fold_case(w[1]) == 'l' as u32);
        },
        Mnemonic::Jump(Jump::Jle) => {
            assert(w.len() == 3);
            assert(fold_case(w[0]) == 'j' as u32);
            assert(fold_case(w[1]) == 'l' as u32);
            assert(fold_case(w[2]) == 'e' as u32);
        },
        Mnemonic::Jump(Jump::Jg) => {
            assert(w.len() == 2);
            assert(fold_case(w[0]) == 'j' as u32);
            assert(fold_case(w[1]) == 'g' as u32);
        },
        Mnemonic::Jump(Jump::Jge) => {
            assert(w.len() == 3);
            assert(fold_case(w[0]) == 'j' as u32);
            assert(fold_case(w[1]) == 'g' as u32);
            assert(fold_case(w[2]) == 'e' as u32);
        },
        Mnemonic::Jump(Jump::Call) => {
            assert(w.len() == 4);
            assert(fold_case(w[0]) == 'c' as u32);
            assert(fold_case(w[1]) == 'a' as u32);
            assert(fold_case(w[2]) == 'l' as u32);
            assert(fold_case(w[3]) == 'l' as u32);
        },
        Mnemonic::Bare(Bare::Ret) => {
            assert(w.len() == 3);
            assert(fold_case(w[0]) == 'r' as u32);
            assert(fold_case(w[1]) == 'e' as u32);
            assert(fold_case(w[2]) == 't' as u32);
        },
        Mnemonic::Jump(Jump::Loop) => {
            assert(w.len() == 4);
            assert(fold_case(w[0]) == 'l' as u32);
            assert(fold_case(w[1]) == 'o' as u32);
            assert(fold_case(w[2]) == 'o' as u32);
            assert(fold_case(w[3]) == 'p' as u32);
        },
        Mnemonic::Required(Required::Select) => {
            assert(w.len() == 6);
            assert(fold_case(w[0]) == 's' as u32);
            assert(fold_case(w[1]) == 'e' as u32);
            assert(fold_case(w[2]) == 'l' as u32);
            assert(fold_case(w[3]) == 'e' as u32);
            assert(fold_case(w[4]) == 'c' as u32);
            assert(fold_case(w[5]) == 't' as u32);
        },
        Mnemonic::Bare(Bare::Deselect) => {
            assert(w.len() == 8);
            assert(fold_case(w[0]) == 'd' as u32);
            assert(fold_case(w[1]) == 'e' as u32);
            assert(fold_case(w[2]) == 's' as u32);
            assert(fold_case(w[3]) == 'e' as u32);
            assert(fold_case(w[4]) == 'l' as u32);
            assert(fold_case(w[5]) == 'e' as u32);
            assert(fold_case(w[6]) == 'c' as u32);
            assert(fold_case(w[7]) == 't' as u32);
        },
        Mnemonic::Required(Required::Rotate) => {
            assert(w.len() == 6);
            assert(fold_case(w[0]) == 'r' as u32);
            assert(fold_case(w[1]) == 'o' as u32);
            assert(fold_case(w[2]) == 't' as u32);
            assert(fold_case(w[3]) == 'a' as u32);
            assert(fold_case(w[4]) == 't' as u32);
            assert(fold_case(w[5]) == 'e' as u32);
        },
        Mnemonic::Required(Required::Drive) => {
            assert(w.len() == 5);
            assert(fold_case(w[0]) == 'd' as u32);
            assert(fold_case(w[1]) == 'r' as u32);
            assert(fold_case(w[2]) == 'i' as u32);
            assert(fold_case(w[3]) == 'v' as u32);
            assert(fold_case(w[4]) == 'e' as u32);
        },
        Mnemonic::Required(Required::Fire) => {
            assert(w.len() == 4);
            assert(fold_case(w[0]) == 'f' as u32);
            assert(fold_case(w[1]) == 'i' as u32);
            assert(fold_case(w[2]) == 'r' as u32);
            assert(fold_case(w[3]) == 'e' as u32);
        },
        Mnemonic::Bare(Bare::Scan) => {
            assert(w.len() == 4);
            assert(fold_case(w[0]) == 's' as u32);
            assert(fold_case(w[1]) == 'c' as u32);
            assert(fold_case(w[2]) == 'a' as u32);
            assert(fold_case(w[3]) == 'n' as u32);
        },
        Mnemonic::Bare(Bare::Nop) => {
            assert(w.len() == 3);
            assert(fold_case(w[0]) == 'n' as u32);
            assert(fold_case(w[1]) == 'o' as u32);
            assert(fold_case(w[2]) == 'p' as u32);
        },
        Mnemonic::Required(Required::Dbg) => {
            assert(w.len() == 3);
            assert(fold_case(w[0]) == 'd' as u32);
            assert(fold_case(w[1]) == 'b' as u32);
            assert(fold_case(w[2]) == 'g' as u32);
        },
        Mnemonic::Required(Required::Sleep) => {
            assert(w.len() == 5);
            assert(fold_case(w[0]) == 's' as u32);
            assert(fold_case(w[1]) == 'l' as u32);
            assert(fold_case(w[2]) == 'e' as u32);
            assert(fold_case(w[3]) == 'e' as u32);
            assert(fold_case(w[4]) == 'p' as u32);
        },
    }
}

/// The names of a table are all different.
pub open spec fn distinct_names<V>(table: Seq<(Seq<char>, V)>) -> bool {
    forall|i: int, j: int| 0 <= i < j < table.len() ==> table[i].0 != table[j].0
}

/// A name that a table does not hold from `from` on is the name of none of
/// its entries from there on.
pub proof fn lemma_lookup_none<V>(table: Seq<(Seq<char>, V)>, name: Seq<char>, from: int)
    requires
        0 <= from,
        lookup_from(table, name, from) is None,
    ensures
        forall|i: int| from <= i < table.len() ==> (#[trigger] table[i]).0 != name,
    decreases table.len() - from,
{
    if from < table.len() {
        lemma_lookup_none(table, name, from + 1);
    }
}

/// The first pass gives no name to two labels: where the labels collected
/// before have different names, so have those collected in the end.
pub proof fn lemma_labels_are_distinct<F: Fn(Op, u64, u64) -> u64, N: Fn(&Vec<char>) -> Option<u64>>(
    text: Seq<char>,
    start: int,
    line: usize,
    symbols: Symbols,
    builtin: Seq<(Seq<char>, u64)>,
    fpu: &F,
    reader: &N,
)
    requires
        distinct_names(symbols.labels),
    ensures
        first_pass(text, start, line, symbols, builtin, fpu, reader) matches Ok(collected)
            ==> distinct_names(collected.labels),
    decreases text.len() - start,
{
    if 0 <= start <= text.len() {
        let end = crate::vm::text::find(text, '\n', start);
        crate::vm::text::lemma_find_bounds(text, '\n', start);
        let code = code_of(text.subrange(start, end));
        match note(code, line, symbols, builtin, fpu, reader) {
            Err(_) => {},
            Ok(next) => {
                assert(distinct_names(next.labels)) by {
                    if next.labels != symbols.labels {
                        let label = next.labels.last().0;
                        lemma_lookup_none(symbols.labels, label, 0);
                    }
                }
                if !(end >= text.len() || line == usize::MAX) {
                    lemma_labels_are_distinct(
                        text,
                        end + 1,
                        (line + 1) as usize,
                        next,
                        builtin,
                        fpu,
                        reader,
                    );
                }
            },
        }
    }
}

/// No two labels of an assembled program have the same name.
pub proof fn lemma_program_labels_are_distinct<
    F: Fn(Op, u64, u64) -> u64,
    N: Fn(&Vec<char>) -> Option<u64>,
>(text: Seq<char>, builtin: Seq<(Seq<char>, u64)>, fpu: &F, reader: &N)
    ensures
        assembled(text, builtin, fpu, reader) matches Ok(program) ==> distinct_names(
            program.labels,
        ),
{
    lemma_labels_are_distinct(
        text,
        0,
        1,
        Symbols { constants: builtin, labels: Seq::empty(), count: 0 },
        builtin,
        fpu,
        reader,
    );
}

} // verus!

verus! {

/// A machine that is about to execute the instruction under its instruction
/// pointer: the robot is active, no fault is latched, no cycles are owed, and
/// the program has an instruction there.
pub open spec fn is_ready(robot: RobotView) -> bool {
    &&& robot.status == RobotStatus::Active
    &&& robot.vm.fault is None
    &&& robot.vm.instruction_cycles_remaining == 0
    &&& robot.vm.ip < robot.program.len()
}

/// A fault halts the machine where it is. Where the instruction under the
/// instruction pointer ends in a fault, the fault is latched and its code
/// stands in the fault register, the cycles owed are as many as can be, the
/// robot is still active, and no command is queued. The instruction pointer
/// has not moved; only after a call that found the call stack full it is one
/// further.
pub proof fn lemma_fault_halts_in_place<F: Fn(Op, u64, u64) -> u64>(
    fpu: &F,
    robot: RobotView,
    others: Seq<RobotInfo>,
    arena: ArenaView,
    fault: crate::vm::error::VMFault,
)
    requires
        is_ready(robot),
        in_bounds(robot.vm),
        robot.program.len() <= usize::MAX,
        executed(robot, others, arena, robot.program[robot.vm.ip as int], fpu).result == Err::<
            (),
            crate::vm::error::VMFault,
        >(fault),
    ensures
        ({
            let instruction = robot.program[robot.vm.ip as int];
            let (after, commands) = after_cycle(fpu, robot, others, arena);
            &&& after.vm.fault == Some(fault)
            &&& after.vm.reg(Register::Fault) == ieee::integer_word(fault.code() as nat)
            &&& after.vm.instruction_cycles_remaining == u32::MAX
            &&& after.status == RobotStatus::Active
            &&& commands == Seq::<crate::types::ArenaCommand>::empty()
            &&& !(instruction is Call) ==> after.vm.ip == robot.vm.ip
            &&& instruction is Call ==> after.vm.ip == robot.vm.ip + 1
        }),
{
}

/// A halted machine retires nothing: a cycle leaves a robot whose machine has
/// a fault latched as it is, and queues no command.
pub proof fn lemma_halted_machine_stays<F: Fn(Op, u64, u64) -> u64>(
    fpu: &F,
    robot: RobotView,
    others: Seq<RobotInfo>,
    arena: ArenaView,
)
    requires
        robot.status == RobotStatus::Active,
        robot.vm.fault is Some,
    ensures
        after_cycle(fpu, robot, others, arena) == (robot, Seq::<crate::types::ArenaCommand>::empty()),
{
}

} // verus!

verus! {

/// A rotation that is used up stays used up. Where what is pending is within
/// a millionth of a degree, a cycle of turning leaves the direction as it is
/// and nothing pending; and a cycle more changes neither.
pub proof fn lemma_small_rotation_is_dropped<F: Fn(Op, u64, u64) -> u64>(
    fpu: &F,
    direction: u64,
    pending: u64,
)
    requires
        ieee::spec_le(ieee::spec_abs(pending), ieee::MICRO),
    ensures
        turned(fpu, direction, pending).0 == direction,
        ieee::spec_eq(turned(fpu, direction, pending).1, ieee::ZERO),
        turned(fpu, direction, turned(fpu, direction, pending).1) == turned(
            fpu,
            direction,
            pending,
        ),
{
}

} // verus!
