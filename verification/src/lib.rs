//! A small register machine: ten 32-bit registers, a bounded value stack and
//! a linear program of typed instructions, executed one cycle at a time.
//!
//! `registers` and `instructions` define what a program is made of, and
//! `machine` the state it runs on. `engine` gives each instruction its
//! meaning and runs the cycle; `arith` is its arithmetic. `diagnostics` and
//! `text` render the machine and its programs. `assembler` reads programs
//! from text, and `cli` reads the command line. `laws` states what holds of
//! all of them.

pub mod arith;
pub mod assembler;
pub mod cli;
pub mod diagnostics;
pub mod engine;
pub mod instructions;
pub mod laws;
pub mod machine;
pub mod registers;
pub mod text;
