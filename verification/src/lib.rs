//! A deterministic combat simulation: robots run assembly programs on a
//! stack-and-register machine inside a shared arena.
pub mod arena;
pub mod config;
pub mod fpu;
pub mod game;
pub mod ieee;
pub mod laws;
pub mod listing;
pub mod random;
pub mod robot;
pub mod types;
pub mod utils;
pub mod vm;
