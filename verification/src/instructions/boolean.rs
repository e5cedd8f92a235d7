//! The handlers of the instructions on single bits. Each decodes its bit
//! address first; an address whose byte is not bit-addressable halts the
//! processor.

#![allow(unused_variables)]

use vstd::prelude::*;
use crate::addr::{decoded_byte, BitAddr};
use crate::bits::bit_addressable;
use crate::cpu::{CPU, PC};
use crate::error::{ErrorType, RuntimeError};
use crate::instructions::instruction::{first_operand, Instruction};
use crate::state::{Outcome, State};

verus! {

/// What an instruction on the bit with address `bit_addr` leads to: `then`
/// where the byte that the address decodes to is bit-addressable; otherwise
/// the processor halts with `InvalidBitAddr`.
pub open spec fn on_bit(s: State, bit_addr: u8, then: Outcome) -> Outcome {
    if bit_addressable(decoded_byte(bit_addr)) {
        then
    } else {
        Outcome::fail(s.halt(), ErrorType::InvalidBitAddr)
    }
}

/// Reads the bit with address `bit_addr`. Where the byte that the address
/// decodes to is not bit-addressable, halts the processor and fails with
/// `InvalidBitAddr`.
pub fn load_bit(cpu: &mut CPU, bit_addr: u8) -> (r: Result<bool, RuntimeError>)
    ensures
        bit_addressable(decoded_byte(bit_addr)) ==> r == Ok::<bool, RuntimeError>(
            old(cpu)@.bit(bit_addr),
        ) && final(cpu)@ == old(cpu)@,
        !bit_addressable(decoded_byte(bit_addr)) ==> r == Err::<bool, RuntimeError>(
            RuntimeError { error_type: ErrorType::InvalidBitAddr },
        ) && final(cpu)@ == old(cpu)@.halt(),
{
    match BitAddr::try_new(bit_addr) {
        Ok(addr) => cpu.read_bit(addr),
        Err(e) => {
            cpu.halt();
            Err(e)
        },
    }
}

/// Stores `value` in the bit with address `bit_addr`. Where the byte that the
/// address decodes to is not bit-addressable, halts the processor and fails
/// with `InvalidBitAddr`.
pub fn store_bit(cpu: &mut CPU, bit_addr: u8, value: bool) -> (r: Result<(), RuntimeError>)
    ensures
        bit_addressable(decoded_byte(bit_addr)) ==> r == Ok::<(), RuntimeError>(()) && final(cpu)@
            == old(cpu)@.set_bit(bit_addr, value),
        !bit_addressable(decoded_byte(bit_addr)) ==> r == Err::<(), RuntimeError>(
            RuntimeError { error_type: ErrorType::InvalidBitAddr },
        ) && final(cpu)@ == old(cpu)@.halt(),
{
    match BitAddr::try_new(bit_addr) {
        Ok(addr) => cpu.write_bit(addr, value),
        Err(e) => {
            cpu.halt();
            Err(e)
        },
    }
}

/// The effect of `SETB bit`: sets the bit that the operand byte addresses.
/// Halts with `InvalidBitAddr` where the address is invalid.
pub open spec fn step_setb_bit(s: State, op: u8, arg0: Option<u8>, arg1: Option<u8>) -> Outcome {
    match arg0 {
        Some(bit_addr) => {
            on_bit(s, bit_addr, Outcome::advance(s.set_bit(bit_addr, true)))
        },
        None => Outcome::fail(s, ErrorType::InstructionArg0Missing),
    }
}

/// Executes `SETB bit`: sets the bit that the operand byte addresses. Halts
/// with `InvalidBitAddr` where the address is invalid.
pub fn insn_setb_bit(
    cpu: &mut CPU,
    insn: Instruction,
    arg0: Option<u8>,
    arg1: Option<u8>,
) -> (r: Result<PC, RuntimeError>)
    ensures
        (Outcome { state: final(cpu)@, result: r }) == step_setb_bit(old(cpu)@, insn@, arg0, arg1),
{
    let bit_addr = first_operand(arg0)?;
    store_bit(cpu, bit_addr, true)?;
    Ok(PC::ADVANCE)
}

/// The effect of `CLR bit`: clears the bit that the operand byte addresses.
/// Halts with `InvalidBitAddr` where the address is invalid.
pub open spec fn step_clr_bit(s: State, op: u8, arg0: Option<u8>, arg1: Option<u8>) -> Outcome {
    match arg0 {
        Some(bit_addr) => {
            on_bit(s, bit_addr, Outcome::advance(s.set_bit(bit_addr, false)))
        },
        None => Outcome::fail(s, ErrorType::InstructionArg0Missing),
    }
}

/// Executes `CLR bit`: clears the bit that the operand byte addresses. Halts
/// with `InvalidBitAddr` where the address is invalid.
pub fn insn_clr_bit(
    cpu: &mut CPU,
    insn: Instruction,
    arg0: Option<u8>,
    arg1: Option<u8>,
) -> (r: Result<PC, RuntimeError>)
    ensures
        (Outcome { state: final(cpu)@, result: r }) == step_clr_bit(old(cpu)@, insn@, arg0, arg1),
{
    let bit_addr = first_operand(arg0)?;
    store_bit(cpu, bit_addr, false)?;
    Ok(PC::ADVANCE)
}

/// The effect of `CPL bit`: inverts the bit that the operand byte addresses.
/// Halts with `InvalidBitAddr` where the address is invalid.
pub open spec fn step_cpl_bit(s: State, op: u8, arg0: Option<u8>, arg1: Option<u8>) -> Outcome {
    match arg0 {
        Some(bit_addr) => {
            on_bit(s, bit_addr, Outcome::advance(s.set_bit(bit_addr, !s.bit(bit_addr))))
        },
        None => Outcome::fail(s, ErrorType::InstructionArg0Missing),
    }
}

/// Executes `CPL bit`: inverts the bit that the operand byte addresses. Halts
/// with `InvalidBitAddr` where the address is invalid.
pub fn insn_cpl_bit(
    cpu: &mut CPU,
    insn: Instruction,
    arg0: Option<u8>,
    arg1: Option<u8>,
) -> (r: Result<PC, RuntimeError>)
    ensures
        (Outcome { state: final(cpu)@, result: r }) == step_cpl_bit(old(cpu)@, insn@, arg0, arg1),
{
    let bit_addr = first_operand(arg0)?;
    let bit = load_bit(cpu, bit_addr)?;
    store_bit(cpu, bit_addr, !bit)?;
    Ok(PC::ADVANCE)
}

/// The effect of `MOV bit,C`: stores the carry flag in the bit that the operand
/// byte addresses. Halts with `InvalidBitAddr` where the address is invalid.
pub open spec fn step_mov_bit_c(s: State, op: u8, arg0: Option<u8>, arg1: Option<u8>) -> Outcome {
    match arg0 {
        Some(bit_addr) => {
            on_bit(s, bit_addr, Outcome::advance(s.set_bit(bit_addr, s.carry())))
        },
        None => Outcome::fail(s, ErrorType::InstructionArg0Missing),
    }
}

/// Executes `MOV bit,C`: stores the carry flag in the bit that the operand byte
/// addresses. Halts with `InvalidBitAddr` where the address is invalid.
pub fn insn_mov_bit_c(
    cpu: &mut CPU,
    insn: Instruction,
    arg0: Option<u8>,
    arg1: Option<u8>,
) -> (r: Result<PC, RuntimeError>)
    ensures
        (Outcome { state: final(cpu)@, result: r }) == step_mov_bit_c(old(cpu)@, insn@, arg0, arg1),
{
    let bit_addr = first_operand(arg0)?;
    let carry = cpu.carry();
    store_bit(cpu, bit_addr, carry)?;
    Ok(PC::ADVANCE)
}

/// The effect of `MOV C,bit`: stores the bit that the operand byte addresses in
/// the carry flag. Halts with `InvalidBitAddr` where the address is invalid.
pub open spec fn step_mov_c_bit(s: State, op: u8, arg0: Option<u8>, arg1: Option<u8>) -> Outcome {
    match arg0 {
        Some(bit_addr) => {
            on_bit(s, bit_addr, Outcome::advance(s.set_carry(s.bit(bit_addr))))
        },
        None => Outcome::fail(s, ErrorType::InstructionArg0Missing),
    }
}

/// Executes `MOV C,bit`: stores the bit that the operand byte addresses in the
/// carry flag. Halts with `InvalidBitAddr` where the address is invalid.
pub fn insn_mov_c_bit(
    cpu: &mut CPU,
    insn: Instruction,
    arg0: Option<u8>,
    arg1: Option<u8>,
) -> (r: Result<PC, RuntimeError>)
    ensures
        (Outcome { state: final(cpu)@, result: r }) == step_mov_c_bit(old(cpu)@, insn@, arg0, arg1),
{
    let bit_addr = first_operand(arg0)?;
    let bit = load_bit(cpu, bit_addr)?;
    cpu.set_carry(bit);
    Ok(PC::ADVANCE)
}

/// The effect of `ANL C,bit`: stores, in the carry flag, the conjunction of the
/// carry flag and the bit that the operand byte addresses. Halts with
/// `InvalidBitAddr` where the address is invalid.
pub open spec fn step_anl_c_bit(s: State, op: u8, arg0: Option<u8>, arg1: Option<u8>) -> Outcome {
    match arg0 {
        Some(bit_addr) => {
            on_bit(s, bit_addr, Outcome::advance(s.set_carry(s.carry() && s.bit(bit_addr))))
        },
        None => Outcome::fail(s, ErrorType::InstructionArg0Missing),
    }
}

/// Executes `ANL C,bit`: stores, in the carry flag, the conjunction of the
/// carry flag and the bit that the operand byte addresses. Halts with
/// `InvalidBitAddr` where the address is invalid.
pub fn insn_anl_c_bit(
    cpu: &mut CPU,
    insn: Instruction,
    arg0: Option<u8>,
    arg1: Option<u8>,
) -> (r: Result<PC, RuntimeError>)
    ensures
        (Outcome { state: final(cpu)@, result: r }) == step_anl_c_bit(old(cpu)@, insn@, arg0, arg1),
{
    let bit_addr = first_operand(arg0)?;
    let bit = load_bit(cpu, bit_addr)?;
    let carry = cpu.carry();
    cpu.set_carry(carry && bit);
    Ok(PC::ADVANCE)
}

/// The effect of `ORL C,bit`: stores, in the carry flag, the disjunction of the
/// carry flag and the bit that the operand byte addresses. Halts with
/// `InvalidBitAddr` where the address is invalid.
pub open spec fn step_orl_c_bit(s: State, op: u8, arg0: Option<u8>, arg1: Option<u8>) -> Outcome {
    match arg0 {
        Some(bit_addr) => {
            on_bit(s, bit_addr, Outcome::advance(s.set_carry(s.carry() || s.bit(bit_addr))))
        },
        None => Outcome::fail(s, ErrorType::InstructionArg0Missing),
    }
}

/// Executes `ORL C,bit`: stores, in the carry flag, the disjunction of the
/// carry flag and the bit that the operand byte addresses. Halts with
/// `InvalidBitAddr` where the address is invalid.
pub fn insn_orl_c_bit(
    cpu: &mut CPU,
    insn: Instruction,
    arg0: Option<u8>,
    arg1: Option<u8>,
) -> (r: Result<PC, RuntimeError>)
    ensures
        (Outcome { state: final(cpu)@, result: r }) == step_orl_c_bit(old(cpu)@, insn@, arg0, arg1),
{
    let bit_addr = first_operand(arg0)?;
    let bit = load_bit(cpu, bit_addr)?;
    let carry = cpu.carry();
    cpu.set_carry(carry || bit);
    Ok(PC::ADVANCE)
}

} // verus!
