//! An instruction-set level emulator for the MCS-51 (8051 family) microcontroller.
//!
//! The machine is modelled as a mathematical state ([`state::State`]): a program
//! counter, code memory, internal data memory with its special function register
//! window, external data memory, and the two lifecycle flags. Every executable
//! operation carries a contract that relates the machine before and after the
//! call in terms of that model.

pub mod addr;
pub mod bits;
pub mod byte;
pub mod cpu;
pub mod emi;
pub mod emulator;
pub mod error;
pub mod execute;
pub mod image;
pub mod instructions;
pub mod memory;
pub mod registers;
pub mod state;
