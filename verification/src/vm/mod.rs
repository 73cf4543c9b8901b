//! The machine that runs a robot's program.
pub mod error;
pub mod executor;
pub mod expression;
pub mod instruction;
pub mod operand;
pub mod parser;
pub mod registers;
pub mod stack;
pub mod state;
pub mod text;
