//! The instruction set: the opcode table, the flag-producing arithmetic, and
//! the handlers that execute the instructions.

pub mod arithmetic;
pub mod boolean;
pub mod branching;
pub mod instruction;
pub mod logical;
pub mod transfer;
