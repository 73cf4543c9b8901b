//! The errors of the machine: register access, the operand stack, and the
//! faults that an instruction can end in.
use vstd::prelude::*;
use vstd::string::*;

verus! {

/// What a register access can fail with.
#[derive(Debug, Clone, Copy, PartialEq, Eq, Structural)]
pub enum RegisterError {
    InvalidRegister,
    ReadOnlyRegister,
}

/// What an operation of the operand stack can fail with.
#[derive(Debug, Clone, Copy, PartialEq, Eq, Structural)]
pub enum StackError {
    Overflow,
    Underflow,
}

/// The faults of the machine. A fault is latched in the robot that met it; its
/// code is what the program reads in the fault register.
#[derive(Debug, Clone, Copy, PartialEq, Eq, Structural)]
pub enum VMFault {
    InvalidInstruction,
    InvalidRegister,
    PermissionError,
    StackOverflow,
    StackUnderflow,
    DivisionByZero,
    NoComponentSelected,
    InvalidComponentForOp,
    InsufficientPower,
    WeaponOverheated,
    InvalidWeaponPower,
    InvalidScanResult,
    ProjectileError,
    CallStackOverflow,
    CallStackUnderflow,
    NotImplemented,
}

impl RegisterError {
    /// The error in words.
    pub fn message(&self) -> (s: String)
        ensures
            s@ == match *self {
                RegisterError::InvalidRegister => "Invalid register specified"@,
                RegisterError::ReadOnlyRegister => "Attempted to write to a read-only register"@,
            },
    {
        match self {
            RegisterError::InvalidRegister => String::from_str("Invalid register specified"),
            RegisterError::ReadOnlyRegister => String::from_str(
                "Attempted to write to a read-only register",
            ),
        }
    }
}

impl StackError {
    /// The error in words.
    pub fn message(&self) -> (s: String)
        ensures
            s@ == match *self {
                StackError::Overflow => "Stack overflow"@,
                StackError::Underflow => "Stack underflow"@,
            },
    {
        match self {
            StackError::Overflow => String::from_str("Stack overflow"),
            StackError::Underflow => String::from_str("Stack underflow"),
        }
    }
}

impl VMFault {
    /// The number under which a program sees the fault.
    pub open spec fn spec_code(self) -> u32 {
        match self {
            VMFault::InvalidInstruction => 1,
            VMFault::InvalidRegister => 2,
            VMFault::PermissionError => 3,
            VMFault::StackOverflow => 4,
            VMFault::StackUnderflow => 5,
            VMFault::DivisionByZero => 6,
            VMFault::NoComponentSelected => 7,
            VMFault::InvalidComponentForOp => 8,
            VMFault::InsufficientPower => 9,
            VMFault::WeaponOverheated => 10,
            VMFault::InvalidWeaponPower => 11,
            VMFault::InvalidScanResult => 12,
            VMFault::ProjectileError => 13,
            VMFault::CallStackOverflow => 14,
            VMFault::CallStackUnderflow => 15,
            VMFault::NotImplemented => 99,
        }
    }

    /// The number under which a program sees the fault.
    #[verifier::when_used_as_spec(spec_code)]
    pub fn code(self) -> (c: u32)
        ensures
            c == self.spec_code(),
    {
        match self {
            VMFault::InvalidInstruction => 1,
            VMFault::InvalidRegister => 2,
            VMFault::PermissionError => 3,
            VMFault::StackOverflow => 4,
            VMFault::StackUnderflow => 5,
            VMFault::DivisionByZero => 6,
            VMFault::NoComponentSelected => 7,
            VMFault::InvalidComponentForOp => 8,
            VMFault::InsufficientPower => 9,
            VMFault::WeaponOverheated => 10,
            VMFault::InvalidWeaponPower => 11,
            VMFault::InvalidScanResult => 12,
            VMFault::ProjectileError => 13,
            VMFault::CallStackOverflow => 14,
            VMFault::CallStackUnderflow => 15,
            VMFault::NotImplemented => 99,
        }
    }

    /// The fault in words.
    pub open spec fn spec_message(self) -> Seq<char> {
        match self {
            VMFault::InvalidInstruction => "Invalid instruction encountered"@,
            VMFault::InvalidRegister => "Invalid register specified"@,
            VMFault::PermissionError => "Attempted to write to a read-only register"@,
            VMFault::StackOverflow => "Stack overflow"@,
            VMFault::StackUnderflow => "Stack underflow"@,
            VMFault::DivisionByZero => "Division by zero"@,
            VMFault::NoComponentSelected => "No component selected for operation"@,
            VMFault::InvalidComponentForOp => "Selected component invalid for operation"@,
            VMFault::InsufficientPower => "Not enough power for operation"@,
            VMFault::WeaponOverheated => "Weapon overheated"@,
            VMFault::InvalidWeaponPower => "Invalid weapon power value"@,
            VMFault::InvalidScanResult => "Invalid scan result"@,
            VMFault::ProjectileError => "Error during projectile handling"@,
            VMFault::CallStackOverflow => "Call stack overflow"@,
            VMFault::CallStackUnderflow => "Call stack underflow"@,
            VMFault::NotImplemented => "Instruction or feature not implemented"@,
        }
    }

    /// The fault in words.
    pub fn message(&self) -> (s: String)
        ensures
            s@ == self.spec_message(),
    {
        match self {
            VMFault::InvalidInstruction => String::from_str("Invalid instruction encountered"),
            VMFault::InvalidRegister => String::from_str("Invalid register specified"),
            VMFault::PermissionError => String::from_str(
                "Attempted to write to a read-only register",
            ),
            VMFault::StackOverflow => String::from_str("Stack overflow"),
            VMFault::StackUnderflow => String::from_str("Stack underflow"),
            VMFault::DivisionByZero => String::from_str("Division by zero"),
            VMFault::NoComponentSelected => String::from_str(
                "No component selected for operation",
            ),
            VMFault::InvalidComponentForOp => String::from_str(
                "Selected component invalid for operation",
            ),
            VMFault::InsufficientPower => String::from_str("Not enough power for operation"),
            VMFault::WeaponOverheated => String::from_str("Weapon overheated"),
            VMFault::InvalidWeaponPower => String::from_str("Invalid weapon power value"),
            VMFault::InvalidScanResult => String::from_str("Invalid scan result"),
            VMFault::ProjectileError => String::from_str("Error during projectile handling"),
            VMFault::CallStackOverflow => String::from_str("Call stack overflow"),
            VMFault::CallStackUnderflow => String::from_str("Call stack underflow"),
            VMFault::NotImplemented => String::from_str("Instruction or feature not implemented"),
        }
    }
}

} // verus!
