//! The register file: a closed set of named slots, some writable by the
//! program, the others kept by the host.
use super::error::RegisterError;
use vstd::prelude::*;

verus! {

/// The registers of the machine.
#[derive(Debug, Clone, Copy, PartialEq, Eq, Hash, Structural)]
pub enum Register {
    // General purpose data registers
    D0,
    D1,
    D2,
    D3,
    D4,
    D5,
    D6,
    D7,
    D8,
    D9,
    D10,
    D11,
    D12,
    D13,
    D14,
    D15,
    D16,
    D17,
    D18,
    /// The loop counter.
    C,
    Result,
    Fault,
    /// The memory index.
    Index,
    // State registers, kept by the host
    Turn,
    Cycle,
    Rand,
    Health,
    Power,
    Component,
    TurretDirection,
    DriveDirection,
    DriveVelocity,
    PosX,
    PosY,
    ForwardDistance,
    BackwardDistance,
    WeaponPower,
    WeaponCooldown,
    TargetDistance,
    TargetDirection,
}

/// The number of slots of the register file.
pub const REGISTER_SLOTS: usize = 42;

impl Register {
    /// The slot that holds the register.
    pub open spec fn slot(self) -> int {
        match self {
            Register::D0 => 0,
            Register::D1 => 1,
            Register::D2 => 2,
            Register::D3 => 3,
            Register::D4 => 4,
            Register::D5 => 5,
            Register::D6 => 6,
            Register::D7 => 7,
            Register::D8 => 8,
            Register::D9 => 9,
            Register::D10 => 10,
            Register::D11 => 11,
            Register::D12 => 12,
            Register::D13 => 13,
            Register::D14 => 14,
            Register::D15 => 15,
            Register::D16 => 16,
            Register::D17 => 17,
            Register::D18 => 18,
            Register::C => 19,
            Register::Result => 20,
            Register::Fault => 21,
            Register::Index => 22,
            Register::Turn => 23,
            Register::Cycle => 24,
            Register::Rand => 25,
            Register::Health => 26,
            Register::Power => 27,
            Register::Component => 28,
            Register::TurretDirection => 29,
            Register::DriveDirection => 30,
            Register::DriveVelocity => 31,
            Register::PosX => 32,
            Register::PosY => 33,
            Register::ForwardDistance => 34,
            Register::BackwardDistance => 35,
            Register::WeaponPower => 36,
            Register::WeaponCooldown => 37,
            Register::TargetDistance => 38,
            Register::TargetDirection => 39,
        }
    }

    /// The registers a program may write: the data registers, the loop
    /// counter, the result, the fault code and the memory index.
    pub open spec fn spec_is_writable(&self) -> bool {
        self.slot() <= Register::Index.slot()
    }

    /// Whether a program may write the register.
    #[verifier::when_used_as_spec(spec_is_writable)]
    pub fn is_writable(&self) -> (w: bool)
        ensures
            w == self.spec_is_writable(),
    {
        matches!(
            self,
            Register::D0
                | Register::D1
                | Register::D2
                | Register::D3
                | Register::D4
                | Register::D5
                | Register::D6
                | Register::D7
                | Register::D8
                | Register::D9
                | Register::D10
                | Register::D11
                | Register::D12
                | Register::D13
                | Register::D14
                | Register::D15
                | Register::D16
                | Register::D17
                | Register::D18
                | Register::C
                | Register::Result
                | Register::Fault
                | Register::Index
        )
    }

    pub open spec fn spec_is_readonly(&self) -> bool {
        !self.spec_is_writable()
    }

    /// Whether the register is one that only the host writes.
    #[verifier::when_used_as_spec(spec_is_readonly)]
    pub fn is_readonly(&self) -> (r: bool)
        ensures
            r == !self.spec_is_writable(),
    {
        !self.is_writable()
    }
}

/// The values of all registers.
#[derive(Debug, Clone)]
pub struct Registers {
    data: Vec<u64>,
}

impl Registers {
    /// The slots, in the order of `Register::slot`.
    pub closed spec fn slots(&self) -> Seq<u64> {
        self.data@
    }

    /// One slot for each register, and two to spare.
    pub open spec fn wf(&self) -> bool {
        self.slots().len() == REGISTER_SLOTS
    }

    /// The value of a register.
    pub open spec fn value(&self, reg: Register) -> u64 {
        self.slots()[reg.slot()]
    }

    /// A register file with 0.0 in every register.
    pub fn new() -> (regs: Self)
        ensures
            regs.wf(),
            forall|i: int| 0 <= i < REGISTER_SLOTS ==> regs.slots()[i] == 0,
    {
        let mut data: Vec<u64> = Vec::new();
        while data.len() < REGISTER_SLOTS
            invariant
                data.len() <= REGISTER_SLOTS,
                forall|i: int| 0 <= i < data.len() ==> data[i] == 0,
            decreases REGISTER_SLOTS - data.len(),
        {
            data.push(0);
        }
        Registers { data }
    }

    fn idx(reg: Register) -> (i: usize)
        ensures
            i == reg.slot(),
            i < 40,
    {
        match reg {
            Register::D0 => 0,
            Register::D1 => 1,
            Register::D2 => 2,
            Register::D3 => 3,
            Register::D4 => 4,
            Register::D5 => 5,
            Register::D6 => 6,
            Register::D7 => 7,
            Register::D8 => 8,
            Register::D9 => 9,
            Register::D10 => 10,
            Register::D11 => 11,
            Register::D12 => 12,
            Register::D13 => 13,
            Register::D14 => 14,
            Register::D15 => 15,
            Register::D16 => 16,
            Register::D17 => 17,
            Register::D18 => 18,
            Register::C => 19,
            Register::Result => 20,
            Register::Fault => 21,
            Register::Index => 22,
            Register::Turn => 23,
            Register::Cycle => 24,
            Register::Rand => 25,
            Register::Health => 26,
            Register::Power => 27,
            Register::Component => 28,
            Register::TurretDirection => 29,
            Register::DriveDirection => 30,
            Register::DriveVelocity => 31,
            Register::PosX => 32,
            Register::PosY => 33,
            Register::ForwardDistance => 34,
            Register::BackwardDistance => 35,
            Register::WeaponPower => 36,
            Register::WeaponCooldown => 37,
            Register::TargetDistance => 38,
            Register::TargetDirection => 39,
        }
    }

    /// Reads a register. Every register of the closed set has a slot, so the
    /// read succeeds.
    pub fn get(&self, reg: Register) -> (res: Result<u64, RegisterError>)
        requires
            self.wf(),
        ensures
            res == Ok::<u64, RegisterError>(self.value(reg)),
    {
        let idx = Self::idx(reg);
        Ok(self.data[idx])
    }

    /// Writes a register on behalf of the program: read-only registers refuse.
    pub fn set(&mut self, reg: Register, value: u64) -> (res: Result<(), RegisterError>)
        requires
            old(self).wf(),
        ensures
            final(self).wf(),
            reg.is_writable() ==> res.is_ok() && final(self).slots() == old(self).slots().update(
                reg.slot(),
                value,
            ),
            !reg.is_writable() ==> res == Err::<(), RegisterError>(RegisterError::ReadOnlyRegister)
                && final(self).slots() == old(self).slots(),
    {
        if !reg.is_writable() {
            return Err(RegisterError::ReadOnlyRegister);
        }
        self.set_internal(reg, value)
    }

    /// Writes a register on behalf of the host, whatever the register.
    pub fn set_internal(&mut self, reg: Register, value: u64) -> (res: Result<(), RegisterError>)
        requires
            old(self).wf(),
        ensures
            final(self).wf(),
            res.is_ok(),
            final(self).slots() == old(self).slots().update(reg.slot(), value),
    {
        let idx = Self::idx(reg);
        self.data.set(idx, value);
        Ok(())
    }
}

/// A write changes the register written and no other.
pub proof fn lemma_write_is_local(before: Registers, after: Registers, reg: Register, value: u64)
    requires
        before.wf(),
        after.slots() == before.slots().update(reg.slot(), value),
    ensures
        after.value(reg) == value,
        forall|other: Register| other != reg ==> after.value(other) == before.value(other),
{
    assert forall|other: Register| other != reg implies after.value(other) == before.value(
        other,
    ) by {
        assert(other.slot() != reg.slot());
    }
}

} // verus!
