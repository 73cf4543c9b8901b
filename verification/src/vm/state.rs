//! The state of one machine: registers, operand stack, memory, instruction
//! pointer, call stack, fault and the cycles still owed to the instruction in
//! progress.
use super::error::{RegisterError, VMFault};
use super::registers::{Register, Registers};
use super::stack::Stack;
use crate::config;
use crate::fpu::{answer, ask, is_unit, Op};
use crate::ieee;
use vstd::prelude::*;

verus! {

/// The state of the machine that runs a robot's program.
#[derive(Debug, Clone)]
pub struct VMState {
    pub registers: Registers,
    pub stack: Stack,
    /// The instruction pointer.
    pub ip: usize,
    /// The return addresses of the calls in progress, the latest last.
    pub call_stack: Vec<usize>,
    /// The fault the machine is halted on, if any.
    pub fault: Option<VMFault>,
    pub turn: u32,
    /// The cycle within the turn.
    pub cycle: u32,
    /// The cycles that the instruction in progress still takes.
    pub instruction_cycles_remaining: u32,
    pub memory: Vec<u64>,
}

/// What a machine state holds, as plain mathematics.
pub struct VMView {
    /// The register slots, in the order of `Register::slot`.
    pub registers: Seq<u64>,
    /// The operand stack, the top last.
    pub stack: Seq<u64>,
    pub ip: usize,
    /// The call stack, the latest return address last.
    pub call_stack: Seq<usize>,
    pub fault: Option<VMFault>,
    pub turn: u32,
    pub cycle: u32,
    pub instruction_cycles_remaining: u32,
    pub memory: Seq<u64>,
}

impl VMView {
    /// The value of a register.
    pub open spec fn reg(self, reg: Register) -> u64 {
        self.registers[reg.slot()]
    }

    /// The state with one register written.
    pub open spec fn with_reg(self, reg: Register, value: u64) -> VMView {
        VMView { registers: self.registers.update(reg.slot(), value), ..self }
    }

    /// The state with another operand stack.
    pub open spec fn with_stack(self, stack: Seq<u64>) -> VMView {
        VMView { stack, ..self }
    }

    /// The state with the instruction pointer elsewhere.
    pub open spec fn with_ip(self, ip: usize) -> VMView {
        VMView { ip, ..self }
    }

    /// The memory cell that the index register points at.
    pub open spec fn memory_index(self) -> int {
        ieee::spec_to_u32(self.reg(Register::Index)) as int
    }

    /// The state with a fault latched: the fault is recorded and its code
    /// stands in the fault register.
    pub open spec fn with_fault(self, fault: VMFault) -> VMView {
        VMView {
            fault: Some(fault),
            ..self.with_reg(Register::Fault, ieee::integer_word(fault.code() as nat))
        }
    }

    /// The state with the fault cleared, and 0.0 in the fault register.
    pub open spec fn without_fault(self) -> VMView {
        VMView { fault: None, ..self.with_reg(Register::Fault, ieee::ZERO) }
    }
}

impl View for VMState {
    type V = VMView;

    open spec fn view(&self) -> VMView {
        VMView {
            registers: self.registers.slots(),
            stack: self.stack.items(),
            ip: self.ip,
            call_stack: self.call_stack@,
            fault: self.fault,
            turn: self.turn,
            cycle: self.cycle,
            instruction_cycles_remaining: self.instruction_cycles_remaining,
            memory: self.memory@,
        }
    }
}

impl VMState {
    /// The operand stack holds at most 32 numbers, the call stack at most 10
    /// addresses, the memory 1024 cells.
    pub open spec fn wf(&self) -> bool {
        &&& self.registers.wf()
        &&& self.stack.wf()
        &&& self.stack.capacity() == config::STACK_SIZE
        &&& self.call_stack@.len() <= config::MAX_CALL_STACK_SIZE
        &&& self.memory@.len() == config::MEMORY_SIZE
    }

    /// A machine at rest: every register and memory cell 0.0, both stacks
    /// empty, no fault, ready for the instruction at 0.
    pub open spec fn rest() -> VMView {
        VMView {
            registers: Seq::new(crate::vm::registers::REGISTER_SLOTS as nat, |i: int| 0u64),
            stack: Seq::empty(),
            ip: 0,
            call_stack: Seq::empty(),
            fault: None,
            turn: 0,
            cycle: 0,
            instruction_cycles_remaining: 0,
            memory: Seq::new(config::MEMORY_SIZE as nat, |i: int| 0u64),
        }
    }

    /// A machine at rest.
    pub fn new() -> (vm: Self)
        ensures
            vm.wf(),
            vm@ == Self::rest(),
    {
        let mut memory: Vec<u64> = Vec::new();
        while memory.len() < config::MEMORY_SIZE
            invariant
                memory.len() <= config::MEMORY_SIZE,
                forall|i: int| 0 <= i < memory.len() ==> memory[i] == 0,
            decreases config::MEMORY_SIZE - memory.len(),
        {
            memory.push(0);
        }
        let vm = VMState {
            registers: Registers::new(),
            stack: Stack::with_size(config::STACK_SIZE),
            ip: 0,
            call_stack: Vec::new(),
            fault: None,
            turn: 0,
            cycle: 0,
            instruction_cycles_remaining: 0,
            memory,
        };
        assert(vm@.registers =~= Seq::new(
            crate::vm::registers::REGISTER_SLOTS as nat,
            |i: int| 0u64,
        ));
        assert(vm@.memory =~= Seq::new(config::MEMORY_SIZE as nat, |i: int| 0u64));
        vm
    }

    /// Moves the instruction pointer to the next instruction.
    pub fn advance_ip(&mut self)
        requires
            old(self).ip < usize::MAX,
        ensures
            final(self)@ == old(self)@.with_ip((old(self).ip + 1) as usize),
            old(self).wf() ==> final(self).wf(),
    {
        self.ip += 1;
    }

    /// Latches a fault, and puts its code in the fault register.
    pub fn set_fault(&mut self, fault: VMFault)
        requires
            old(self).wf(),
        ensures
            final(self).wf(),
            final(self)@ == old(self)@.with_fault(fault),
    {
        let fault_code = ieee::from_u32(fault.code());
        let _ = self.registers.set_internal(Register::Fault, fault_code);
        self.fault = Some(fault);
    }

    /// Puts a return address on the call stack; a full call stack refuses.
    pub fn push_call_stack(&mut self, return_address: usize) -> (res: Result<(), VMFault>)
        ensures
            old(self).wf() ==> final(self).wf(),
            old(self)@.call_stack.len() < config::MAX_CALL_STACK_SIZE ==> res == Ok::<(), VMFault>(
                (),
            ) && final(self)@ == (VMView {
                call_stack: old(self)@.call_stack.push(return_address),
                ..old(self)@
            }),
            old(self)@.call_stack.len() >= config::MAX_CALL_STACK_SIZE ==> res == Err::<
                (),
                VMFault,
            >(VMFault::CallStackOverflow) && final(self)@ == old(self)@,
    {
        if self.call_stack.len() >= config::MAX_CALL_STACK_SIZE {
            return Err(VMFault::CallStackOverflow);
        }
        self.call_stack.push(return_address);
        Ok(())
    }

    /// Takes the latest return address off the call stack; an empty call
    /// stack has none.
    pub fn pop_call_stack(&mut self) -> (res: Result<usize, VMFault>)
        ensures
            old(self).wf() ==> final(self).wf(),
            old(self)@.call_stack.len() > 0 ==> res == Ok::<usize, VMFault>(
                old(self)@.call_stack.last(),
            ) && final(self)@ == (VMView {
                call_stack: old(self)@.call_stack.drop_last(),
                ..old(self)@
            }),
            old(self)@.call_stack.len() == 0 ==> res == Err::<usize, VMFault>(
                VMFault::CallStackUnderflow,
            ) && final(self)@ == old(self)@,
    {
        match self.call_stack.pop() {
            Some(address) => Ok(address),
            None => Err(VMFault::CallStackUnderflow),
        }
    }

    /// Writes the component register, which a program can only read.
    pub fn set_selected_component(&mut self, component_id: u8) -> (res: Result<(), RegisterError>)
        requires
            old(self).wf(),
        ensures
            final(self).wf(),
            res.is_ok(),
            final(self)@ == old(self)@.with_reg(
                Register::Component,
                ieee::integer_word(component_id as nat),
            ),
    {
        let word = ieee::from_u32(component_id as u32);
        self.registers.set_internal(Register::Component, word)
    }

    /// Reads the memory cell that the index register points at. An index
    /// outside the memory is an address fault, reported as `InvalidRegister`.
    pub fn get_memory_at_index(&mut self) -> (res: Result<u64, VMFault>)
        requires
            old(self).wf(),
        ensures
            final(self).wf(),
            final(self)@ == old(self)@,
            old(self)@.memory_index() < config::MEMORY_SIZE ==> res == Ok::<u64, VMFault>(
                old(self)@.memory[old(self)@.memory_index()],
            ),
            old(self)@.memory_index() >= config::MEMORY_SIZE ==> res == Err::<u64, VMFault>(
                VMFault::InvalidRegister,
            ),
    {
        let index = match self.registers.get(Register::Index) {
            Ok(word) => ieee::to_u32(word) as usize,
            Err(_) => {
                return Err(VMFault::InvalidRegister);
            },
        };
        if index < self.memory.len() {
            Ok(self.memory[index])
        } else {
            Err(VMFault::InvalidRegister)
        }
    }

    /// Writes the memory cell that the index register points at, and moves
    /// the index to the next cell. An index outside the memory is an address
    /// fault, reported as `InvalidRegister`, and changes nothing.
    pub fn store_memory_at_index(&mut self, value: u64) -> (res: Result<(), VMFault>)
        requires
            old(self).wf(),
        ensures
            final(self).wf(),
            old(self)@.memory_index() >= config::MEMORY_SIZE ==> res == Err::<(), VMFault>(
                VMFault::InvalidRegister,
            ) && final(self)@ == old(self)@,
            old(self)@.memory_index() < config::MEMORY_SIZE ==> res == Ok::<(), VMFault>(())
                && final(self)@ == (
            VMView {
                memory: old(self)@.memory.update(old(self)@.memory_index(), value),
                ..old(self)@.with_reg(
                    Register::Index,
                    ieee::integer_word((old(self)@.memory_index() + 1) as nat),
                )
            }),
    {
        let index = match self.registers.get(Register::Index) {
            Ok(word) => ieee::to_u32(word) as usize,
            Err(_) => {
                return Err(VMFault::InvalidRegister);
            },
        };
        if index < self.memory.len() {
            self.memory.set(index, value);
            let next_index = ieee::from_u32((index + 1) as u32);
            let _ = self.registers.set_internal(Register::Index, next_index);
            Ok(())
        } else {
            Err(VMFault::InvalidRegister)
        }
    }

    /// Reads the memory cell that the index register points at, and adds one
    /// to the index. An index outside the memory is an address fault,
    /// reported as `InvalidRegister`, and changes nothing.
    pub fn load_memory_at_index<F: Fn(Op, u64, u64) -> u64>(&mut self, fpu: &F) -> (res: Result<
        u64,
        VMFault,
    >)
        requires
            old(self).wf(),
            is_unit(fpu),
        ensures
            final(self).wf(),
            old(self)@.memory_index() >= config::MEMORY_SIZE ==> res == Err::<u64, VMFault>(
                VMFault::InvalidRegister,
            ) && final(self)@ == old(self)@,
            old(self)@.memory_index() < config::MEMORY_SIZE ==> res == Ok::<u64, VMFault>(
                old(self)@.memory[old(self)@.memory_index()],
            ) && final(self)@ == old(self)@.with_reg(
                Register::Index,
                answer(fpu, Op::Add, old(self)@.reg(Register::Index), ieee::ONE),
            ),
    {
        let value = self.get_memory_at_index()?;
        let index = match self.registers.get(Register::Index) {
            Ok(word) => word,
            Err(_) => {
                return Err(VMFault::InvalidRegister);
            },
        };
        let next_index = ask(fpu, Op::Add, index, ieee::ONE);
        let _ = self.registers.set_internal(Register::Index, next_index);
        Ok(value)
    }
}

} // verus!
