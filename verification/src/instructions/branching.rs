//! The handlers of the instructions that set the program counter: jumps,
//! calls, returns and the conditional branches. Each sets the counter itself;
//! a relative operand is a two's-complement offset from the instruction that
//! follows.

#![allow(unused_variables)]

use vstd::prelude::*;
use crate::addr::{addr16, Addr8};
use crate::cpu::{CPU, PC};
use crate::error::{ErrorType, RuntimeError};
use crate::instructions::arithmetic::{decrement, decremented};
use crate::instructions::boolean::{load_bit, on_bit, store_bit};
use crate::instructions::instruction::{first_operand, second_operand, Instruction};
use crate::registers::{GPR, SFR};
use crate::state::{Outcome, State};

verus! {

/// The target of a paged jump or call: the top five bits of `pc`, the counter
/// behind the instruction; below them the top three bits of the opcode; and the
/// operand byte as the low eight bits.
pub open spec fn paged_target(pc: u16, op: u8, arg: u8) -> u16 {
    (pc & 0xF800) | (((op & 0xE0) as u16) << 3) | (arg as u16)
}

/// The target of a long jump or call: the first operand byte above the second.
pub open spec fn long_target(high: u8, low: u8) -> u16 {
    (high * 256 + low) as u16
}

/// The machine after the return address `ret` is pushed: its low byte first,
/// its high byte on top.
pub open spec fn after_call(s: State, ret: u16) -> State {
    s.push((ret % 256) as u8).push((ret / 256) as u8)
}

/// The target of a paged jump or call.
pub fn page_target(pc: u16, op: u8, arg: u8) -> (r: u16)
    ensures
        r == paged_target(pc, op, arg),
{
    (pc & 0xF800) | (((op & 0xE0) as u16) << 3) | (arg as u16)
}

/// A paged jump or call stays in the 2 KiB page of the instruction that
/// follows it: the top five bits of the target are those of `pc`.
pub proof fn lemma_paged_target_keeps_page(pc: u16, op: u8, arg: u8)
    ensures
        paged_target(pc, op, arg) & 0xF800 == pc & 0xF800,
        paged_target(pc, op, arg) / 2048 == pc / 2048,
        paged_target(pc, op, arg) % 256 == arg,
        (paged_target(pc, op, arg) / 256) % 8 == op / 32,
{
    assert({
        let target = (pc & 0xF800) | (((op & 0xE0) as u16) << 3) | (arg as u16);
        &&& target & 0xF800 == pc & 0xF800
        &&& target / 2048 == pc / 2048
        &&& target % 256 == arg
        &&& (target / 256) % 8 == op / 32
    }) by (bit_vector);
}

/// Pushes the return address `ret`: its low byte first, its high byte on top.
pub fn push_return_address(cpu: &mut CPU, ret: u16)
    ensures
        final(cpu)@ == after_call(old(cpu)@, ret),
{
    cpu.push((ret % 256) as u8);
    cpu.push((ret / 256) as u8);
}

/// The counter `n` cells behind the counter of the processor.
pub fn pc_plus(cpu: &CPU, n: u16) -> (r: u16)
    ensures
        r == cpu@.pc_plus(n as int),
{
    ((cpu.get_pc() as u32 + n as u32) % 0x10000) as u16
}

/// The effect of `NOP`: does nothing.
pub open spec fn step_nop(s: State, op: u8, arg0: Option<u8>, arg1: Option<u8>) -> Outcome {
    Outcome::advance(s)
}

/// Executes `NOP`: does nothing.
pub fn insn_nop(
    cpu: &mut CPU,
    insn: Instruction,
    arg0: Option<u8>,
    arg1: Option<u8>,
) -> (r: Result<PC, RuntimeError>)
    ensures
        (Outcome { state: final(cpu)@, result: r }) == step_nop(old(cpu)@, insn@, arg0, arg1),
{
    Ok(PC::ADVANCE)
}

/// The effect of an operation that the emulator does not execute: the processor
/// halts and the instruction fails with `UnimplementedInstruction`.
pub open spec fn step_unimplemented(
    s: State,
    op: u8,
    arg0: Option<u8>,
    arg1: Option<u8>,
) -> Outcome {
    Outcome::fail(s.halt(), ErrorType::UnimplementedInstruction)
}

/// Stands in for every operation that the emulator does not execute: halts the
/// processor and fails with `UnimplementedInstruction`.
pub fn insn_unimplemented(
    cpu: &mut CPU,
    insn: Instruction,
    arg0: Option<u8>,
    arg1: Option<u8>,
) -> (r: Result<PC, RuntimeError>)
    ensures
        (Outcome { state: final(cpu)@, result: r }) == step_unimplemented(
            old(cpu)@,
            insn@,
            arg0,
            arg1,
        ),
{
    cpu.halt();
    Err(RuntimeError::new(ErrorType::UnimplementedInstruction))
}

/// The effect of `AJMP addr11`: jumps within the 2 KiB page of the instruction
/// that follows.
pub open spec fn step_ajmp(s: State, op: u8, arg0: Option<u8>, arg1: Option<u8>) -> Outcome {
    match arg0 {
        Some(low) => {
            Outcome::jump(s.set_pc(paged_target(s.pc_plus(2), op, low)))
        },
        None => Outcome::fail(s, ErrorType::InstructionArg0Missing),
    }
}

/// Executes `AJMP addr11`: jumps within the 2 KiB page of the instruction that
/// follows.
pub fn insn_ajmp(
    cpu: &mut CPU,
    insn: Instruction,
    arg0: Option<u8>,
    arg1: Option<u8>,
) -> (r: Result<PC, RuntimeError>)
    ensures
        (Outcome { state: final(cpu)@, result: r }) == step_ajmp(old(cpu)@, insn@, arg0, arg1),
{
    let low = first_operand(arg0)?;
    let pc = pc_plus(cpu, 2);
    cpu.set_pc(page_target(pc, insn.op(), low));
    Ok(PC::JUMP)
}

/// The effect of `ACALL addr11`: pushes the address of the instruction that
/// follows, low byte first, and jumps within the 2 KiB page of that
/// instruction.
pub open spec fn step_acall(s: State, op: u8, arg0: Option<u8>, arg1: Option<u8>) -> Outcome {
    match arg0 {
        Some(low) => {
            Outcome::jump(after_call(s, s.pc_plus(2)).set_pc(paged_target(s.pc_plus(2), op, low)))
        },
        None => Outcome::fail(s, ErrorType::InstructionArg0Missing),
    }
}

/// Executes `ACALL addr11`: pushes the address of the instruction that follows,
/// low byte first, and jumps within the 2 KiB page of that instruction.
pub fn insn_acall(
    cpu: &mut CPU,
    insn: Instruction,
    arg0: Option<u8>,
    arg1: Option<u8>,
) -> (r: Result<PC, RuntimeError>)
    ensures
        (Outcome { state: final(cpu)@, result: r }) == step_acall(old(cpu)@, insn@, arg0, arg1),
{
    let low = first_operand(arg0)?;
    let pc = pc_plus(cpu, 2);
    push_return_address(cpu, pc);
    cpu.set_pc(page_target(pc, insn.op(), low));
    Ok(PC::JUMP)
}

/// The effect of `LJMP addr16`: jumps to the address that the two operand bytes
/// hold, high byte first.
pub open spec fn step_ljmp(s: State, op: u8, arg0: Option<u8>, arg1: Option<u8>) -> Outcome {
    match (arg0, arg1) {
        (Some(high), Some(low)) => {
            Outcome::jump(s.set_pc(long_target(high, low)))
        },
        (None, _) => Outcome::fail(s, ErrorType::InstructionArg0Missing),
        (_, None) => Outcome::fail(s, ErrorType::InstructionArg1Missing),
    }
}

/// Executes `LJMP addr16`: jumps to the address that the two operand bytes
/// hold, high byte first.
pub fn insn_ljmp(
    cpu: &mut CPU,
    insn: Instruction,
    arg0: Option<u8>,
    arg1: Option<u8>,
) -> (r: Result<PC, RuntimeError>)
    ensures
        (Outcome { state: final(cpu)@, result: r }) == step_ljmp(old(cpu)@, insn@, arg0, arg1),
{
    let high = first_operand(arg0)?;
    let low = second_operand(arg1)?;
    cpu.set_pc(addr16(Addr8::new(high), Addr8::new(low)).as_u16());
    Ok(PC::JUMP)
}

/// The effect of `LCALL addr16`: pushes the address of the instruction that
/// follows, low byte first, and jumps to the address that the two operand bytes
/// hold, high byte first.
pub open spec fn step_lcall(s: State, op: u8, arg0: Option<u8>, arg1: Option<u8>) -> Outcome {
    match (arg0, arg1) {
        (Some(high), Some(low)) => {
            Outcome::jump(after_call(s, s.pc_plus(3)).set_pc(long_target(high, low)))
        },
        (None, _) => Outcome::fail(s, ErrorType::InstructionArg0Missing),
        (_, None) => Outcome::fail(s, ErrorType::InstructionArg1Missing),
    }
}

/// Executes `LCALL addr16`: pushes the address of the instruction that follows,
/// low byte first, and jumps to the address that the two operand bytes hold,
/// high byte first.
pub fn insn_lcall(
    cpu: &mut CPU,
    insn: Instruction,
    arg0: Option<u8>,
    arg1: Option<u8>,
) -> (r: Result<PC, RuntimeError>)
    ensures
        (Outcome { state: final(cpu)@, result: r }) == step_lcall(old(cpu)@, insn@, arg0, arg1),
{
    let high = first_operand(arg0)?;
    let low = second_operand(arg1)?;
    let pc = pc_plus(cpu, 3);
    push_return_address(cpu, pc);
    cpu.set_pc(addr16(Addr8::new(high), Addr8::new(low)).as_u16());
    Ok(PC::JUMP)
}

/// The effect of `RET`: pops the high byte of the return address, then its low
/// byte, and jumps there.
pub open spec fn step_ret(s: State, op: u8, arg0: Option<u8>, arg1: Option<u8>) -> Outcome {
    let high = s.top();
    let low = s.drop_top().top();
    Outcome::jump(s.drop_top().drop_top().set_pc(long_target(high, low)))
}

/// Executes `RET`: pops the high byte of the return address, then its low byte,
/// and jumps there.
pub fn insn_ret(
    cpu: &mut CPU,
    insn: Instruction,
    arg0: Option<u8>,
    arg1: Option<u8>,
) -> (r: Result<PC, RuntimeError>)
    ensures
        (Outcome { state: final(cpu)@, result: r }) == step_ret(old(cpu)@, insn@, arg0, arg1),
{
    let high = cpu.pop();
    let low = cpu.pop();
    cpu.set_pc(addr16(Addr8::new(high), Addr8::new(low)).as_u16());
    Ok(PC::JUMP)
}

/// The effect of `RETI`: returns as `RET` does; interrupts are not modelled.
pub open spec fn step_reti(s: State, op: u8, arg0: Option<u8>, arg1: Option<u8>) -> Outcome {
    let high = s.top();
    let low = s.drop_top().top();
    Outcome::jump(s.drop_top().drop_top().set_pc(long_target(high, low)))
}

/// Executes `RETI`: returns as `RET` does; interrupts are not modelled.
pub fn insn_reti(
    cpu: &mut CPU,
    insn: Instruction,
    arg0: Option<u8>,
    arg1: Option<u8>,
) -> (r: Result<PC, RuntimeError>)
    ensures
        (Outcome { state: final(cpu)@, result: r }) == step_reti(old(cpu)@, insn@, arg0, arg1),
{
    let high = cpu.pop();
    let low = cpu.pop();
    cpu.set_pc(addr16(Addr8::new(high), Addr8::new(low)).as_u16());
    Ok(PC::JUMP)
}

/// The effect of `SJMP rel`: branches by the operand byte.
pub open spec fn step_sjmp(s: State, op: u8, arg0: Option<u8>, arg1: Option<u8>) -> Outcome {
    match arg0 {
        Some(rel) => {
            Outcome::jump(s.branch(2, rel, true))
        },
        None => Outcome::fail(s, ErrorType::InstructionArg0Missing),
    }
}

/// Executes `SJMP rel`: branches by the operand byte.
pub fn insn_sjmp(
    cpu: &mut CPU,
    insn: Instruction,
    arg0: Option<u8>,
    arg1: Option<u8>,
) -> (r: Result<PC, RuntimeError>)
    ensures
        (Outcome { state: final(cpu)@, result: r }) == step_sjmp(old(cpu)@, insn@, arg0, arg1),
{
    let rel = first_operand(arg0)?;
    cpu.branch(2, rel, true);
    Ok(PC::JUMP)
}

/// The effect of `JZ rel`: branches by the operand byte where the accumulator
/// is zero.
pub open spec fn step_jz(s: State, op: u8, arg0: Option<u8>, arg1: Option<u8>) -> Outcome {
    match arg0 {
        Some(rel) => {
            Outcome::jump(s.branch(2, rel, s.acc() == 0))
        },
        None => Outcome::fail(s, ErrorType::InstructionArg0Missing),
    }
}

/// Executes `JZ rel`: branches by the operand byte where the accumulator is
/// zero.
pub fn insn_jz(
    cpu: &mut CPU,
    insn: Instruction,
    arg0: Option<u8>,
    arg1: Option<u8>,
) -> (r: Result<PC, RuntimeError>)
    ensures
        (Outcome { state: final(cpu)@, result: r }) == step_jz(old(cpu)@, insn@, arg0, arg1),
{
    let rel = first_operand(arg0)?;
    let taken = cpu.acc() == 0;
    cpu.branch(2, rel, taken);
    Ok(PC::JUMP)
}

/// The effect of `JNZ rel`: branches by the operand byte where the accumulator
/// is not zero.
pub open spec fn step_jnz(s: State, op: u8, arg0: Option<u8>, arg1: Option<u8>) -> Outcome {
    match arg0 {
        Some(rel) => {
            Outcome::jump(s.branch(2, rel, s.acc() != 0))
        },
        None => Outcome::fail(s, ErrorType::InstructionArg0Missing),
    }
}

/// Executes `JNZ rel`: branches by the operand byte where the accumulator is
/// not zero.
pub fn insn_jnz(
    cpu: &mut CPU,
    insn: Instruction,
    arg0: Option<u8>,
    arg1: Option<u8>,
) -> (r: Result<PC, RuntimeError>)
    ensures
        (Outcome { state: final(cpu)@, result: r }) == step_jnz(old(cpu)@, insn@, arg0, arg1),
{
    let rel = first_operand(arg0)?;
    let taken = cpu.acc() != 0;
    cpu.branch(2, rel, taken);
    Ok(PC::JUMP)
}

/// The effect of `JC rel`: branches by the operand byte where the carry flag is
/// set.
pub open spec fn step_jc(s: State, op: u8, arg0: Option<u8>, arg1: Option<u8>) -> Outcome {
    match arg0 {
        Some(rel) => {
            Outcome::jump(s.branch(2, rel, s.carry()))
        },
        None => Outcome::fail(s, ErrorType::InstructionArg0Missing),
    }
}

/// Executes `JC rel`: branches by the operand byte where the carry flag is set.
pub fn insn_jc(
    cpu: &mut CPU,
    insn: Instruction,
    arg0: Option<u8>,
    arg1: Option<u8>,
) -> (r: Result<PC, RuntimeError>)
    ensures
        (Outcome { state: final(cpu)@, result: r }) == step_jc(old(cpu)@, insn@, arg0, arg1),
{
    let rel = first_operand(arg0)?;
    let taken = cpu.carry();
    cpu.branch(2, rel, taken);
    Ok(PC::JUMP)
}

/// The effect of `JNC rel`: branches by the operand byte where the carry flag
/// is clear.
pub open spec fn step_jnc(s: State, op: u8, arg0: Option<u8>, arg1: Option<u8>) -> Outcome {
    match arg0 {
        Some(rel) => {
            Outcome::jump(s.branch(2, rel, !s.carry()))
        },
        None => Outcome::fail(s, ErrorType::InstructionArg0Missing),
    }
}

/// Executes `JNC rel`: branches by the operand byte where the carry flag is
/// clear.
pub fn insn_jnc(
    cpu: &mut CPU,
    insn: Instruction,
    arg0: Option<u8>,
    arg1: Option<u8>,
) -> (r: Result<PC, RuntimeError>)
    ensures
        (Outcome { state: final(cpu)@, result: r }) == step_jnc(old(cpu)@, insn@, arg0, arg1),
{
    let rel = first_operand(arg0)?;
    let taken = !cpu.carry();
    cpu.branch(2, rel, taken);
    Ok(PC::JUMP)
}

/// The effect of `JB bit,rel`: branches by the second operand byte where the
/// bit that the first addresses is set. Halts with `InvalidBitAddr` where the
/// address is invalid.
pub open spec fn step_jb_bit_code(
    s: State,
    op: u8,
    arg0: Option<u8>,
    arg1: Option<u8>,
) -> Outcome {
    match (arg0, arg1) {
        (Some(bit_addr), Some(rel)) => {
            on_bit(s, bit_addr, Outcome::jump(s.branch(3, rel, s.bit(bit_addr))))
        },
        (None, _) => Outcome::fail(s, ErrorType::InstructionArg0Missing),
        (_, None) => Outcome::fail(s, ErrorType::InstructionArg1Missing),
    }
}

/// Executes `JB bit,rel`: branches by the second operand byte where the bit
/// that the first addresses is set. Halts with `InvalidBitAddr` where the
/// address is invalid.
pub fn insn_jb_bit_code(
    cpu: &mut CPU,
    insn: Instruction,
    arg0: Option<u8>,
    arg1: Option<u8>,
) -> (r: Result<PC, RuntimeError>)
    ensures
        (Outcome { state: final(cpu)@, result: r }) == step_jb_bit_code(
            old(cpu)@,
            insn@,
            arg0,
            arg1,
        ),
{
    let bit_addr = first_operand(arg0)?;
    let rel = second_operand(arg1)?;
    let bit = load_bit(cpu, bit_addr)?;
    cpu.branch(3, rel, bit);
    Ok(PC::JUMP)
}

/// The effect of `JNB bit,rel`: branches by the second operand byte where the
/// bit that the first addresses is clear. Halts with `InvalidBitAddr` where the
/// address is invalid.
pub open spec fn step_jnb_bit_code(
    s: State,
    op: u8,
    arg0: Option<u8>,
    arg1: Option<u8>,
) -> Outcome {
    match (arg0, arg1) {
        (Some(bit_addr), Some(rel)) => {
            on_bit(s, bit_addr, Outcome::jump(s.branch(3, rel, !s.bit(bit_addr))))
        },
        (None, _) => Outcome::fail(s, ErrorType::InstructionArg0Missing),
        (_, None) => Outcome::fail(s, ErrorType::InstructionArg1Missing),
    }
}

/// Executes `JNB bit,rel`: branches by the second operand byte where the bit
/// that the first addresses is clear. Halts with `InvalidBitAddr` where the
/// address is invalid.
pub fn insn_jnb_bit_code(
    cpu: &mut CPU,
    insn: Instruction,
    arg0: Option<u8>,
    arg1: Option<u8>,
) -> (r: Result<PC, RuntimeError>)
    ensures
        (Outcome { state: final(cpu)@, result: r }) == step_jnb_bit_code(
            old(cpu)@,
            insn@,
            arg0,
            arg1,
        ),
{
    let bit_addr = first_operand(arg0)?;
    let rel = second_operand(arg1)?;
    let bit = load_bit(cpu, bit_addr)?;
    cpu.branch(3, rel, !bit);
    Ok(PC::JUMP)
}

/// The effect of `JBC bit,rel`: where the bit that the first operand byte
/// addresses is set, clears it and branches by the second operand byte. Halts
/// with `InvalidBitAddr` where the address is invalid.
pub open spec fn step_jbc_bit_code(
    s: State,
    op: u8,
    arg0: Option<u8>,
    arg1: Option<u8>,
) -> Outcome {
    match (arg0, arg1) {
        (Some(bit_addr), Some(rel)) => {
            on_bit(
                s,
                bit_addr,
                if s.bit(bit_addr) {
                    Outcome::jump(s.set_bit(bit_addr, false).branch(3, rel, true))
                } else {
                    Outcome::jump(s.branch(3, rel, false))
                },
            )
        },
        (None, _) => Outcome::fail(s, ErrorType::InstructionArg0Missing),
        (_, None) => Outcome::fail(s, ErrorType::InstructionArg1Missing),
    }
}

/// Executes `JBC bit,rel`: where the bit that the first operand byte addresses
/// is set, clears it and branches by the second operand byte. Halts with
/// `InvalidBitAddr` where the address is invalid.
pub fn insn_jbc_bit_code(
    cpu: &mut CPU,
    insn: Instruction,
    arg0: Option<u8>,
    arg1: Option<u8>,
) -> (r: Result<PC, RuntimeError>)
    ensures
        (Outcome { state: final(cpu)@, result: r }) == step_jbc_bit_code(
            old(cpu)@,
            insn@,
            arg0,
            arg1,
        ),
{
    let bit_addr = first_operand(arg0)?;
    let rel = second_operand(arg1)?;
    let bit = load_bit(cpu, bit_addr)?;
    if bit {
        store_bit(cpu, bit_addr, false)?;
    }
    cpu.branch(3, rel, bit);
    Ok(PC::JUMP)
}

/// The machine after a compare-and-branch of an instruction of three bytes:
/// the carry flag tells that `first` is below `second`, and the branch by `rel`
/// is taken where the two differ.
pub open spec fn after_compare(s: State, first: u8, second: u8, rel: u8) -> State {
    s.set_carry(first < second).branch(3, rel, first != second)
}

/// Compares `first` with `second`, writes the carry flag and branches by `rel`
/// where the two differ.
pub fn compare_and_branch(cpu: &mut CPU, first: u8, second: u8, rel: u8)
    ensures
        final(cpu)@ == after_compare(old(cpu)@, first, second, rel),
{
    cpu.set_carry(first < second);
    cpu.branch(3, rel, first != second);
}

/// The effect of `CJNE A,#data,rel`: compares the accumulator with the first
/// operand byte: the carry flag tells that the former is below the latter, and
/// the branch by the second operand byte is taken where the two differ.
pub open spec fn step_cjne_a_const_code(
    s: State,
    op: u8,
    arg0: Option<u8>,
    arg1: Option<u8>,
) -> Outcome {
    match (arg0, arg1) {
        (Some(immediate), Some(rel)) => {
            Outcome::jump(after_compare(s, s.acc(), immediate, rel))
        },
        (None, _) => Outcome::fail(s, ErrorType::InstructionArg0Missing),
        (_, None) => Outcome::fail(s, ErrorType::InstructionArg1Missing),
    }
}

/// Executes `CJNE A,#data,rel`: compares the accumulator with the first operand
/// byte: the carry flag tells that the former is below the latter, and the
/// branch by the second operand byte is taken where the two differ.
pub fn insn_cjne_a_const_code(
    cpu: &mut CPU,
    insn: Instruction,
    arg0: Option<u8>,
    arg1: Option<u8>,
) -> (r: Result<PC, RuntimeError>)
    ensures
        (Outcome { state: final(cpu)@, result: r }) == step_cjne_a_const_code(
            old(cpu)@,
            insn@,
            arg0,
            arg1,
        ),
{
    let immediate = first_operand(arg0)?;
    let rel = second_operand(arg1)?;
    let first = cpu.acc();
    let second = immediate;
    compare_and_branch(cpu, first, second, rel);
    Ok(PC::JUMP)
}

/// The effect of `CJNE A,direct,rel`: compares the accumulator with the cell of
/// internal data that the first operand byte names: the carry flag tells that
/// the former is below the latter, and the branch by the second operand byte is
/// taken where the two differ.
pub open spec fn step_cjne_a_data_code(
    s: State,
    op: u8,
    arg0: Option<u8>,
    arg1: Option<u8>,
) -> Outcome {
    match (arg0, arg1) {
        (Some(direct), Some(rel)) => {
            Outcome::jump(after_compare(s, s.acc(), s.read(direct), rel))
        },
        (None, _) => Outcome::fail(s, ErrorType::InstructionArg0Missing),
        (_, None) => Outcome::fail(s, ErrorType::InstructionArg1Missing),
    }
}

/// Executes `CJNE A,direct,rel`: compares the accumulator with the cell of
/// internal data that the first operand byte names: the carry flag tells that
/// the former is below the latter, and the branch by the second operand byte is
/// taken where the two differ.
pub fn insn_cjne_a_data_code(
    cpu: &mut CPU,
    insn: Instruction,
    arg0: Option<u8>,
    arg1: Option<u8>,
) -> (r: Result<PC, RuntimeError>)
    ensures
        (Outcome { state: final(cpu)@, result: r }) == step_cjne_a_data_code(
            old(cpu)@,
            insn@,
            arg0,
            arg1,
        ),
{
    let direct = first_operand(arg0)?;
    let rel = second_operand(arg1)?;
    let first = cpu.acc();
    let second = cpu.read(Addr8::new(direct));
    compare_and_branch(cpu, first, second, rel);
    Ok(PC::JUMP)
}

/// The effect of `CJNE @Ri,#data,rel`: compares the cell of internal data that
/// `R0` or `R1`, as the opcode selects, points to with the first operand byte:
/// the carry flag tells that the former is below the latter, and the branch by
/// the second operand byte is taken where the two differ.
pub open spec fn step_cjne_rn_indirect_const_code(
    s: State,
    op: u8,
    arg0: Option<u8>,
    arg1: Option<u8>,
) -> Outcome {
    match (arg0, arg1) {
        (Some(immediate), Some(rel)) => {
            Outcome::jump(after_compare(s, s.read(s.reg(op % 2)), immediate, rel))
        },
        (None, _) => Outcome::fail(s, ErrorType::InstructionArg0Missing),
        (_, None) => Outcome::fail(s, ErrorType::InstructionArg1Missing),
    }
}

/// Executes `CJNE @Ri,#data,rel`: compares the cell of internal data that `R0`
/// or `R1`, as the opcode selects, points to with the first operand byte: the
/// carry flag tells that the former is below the latter, and the branch by the
/// second operand byte is taken where the two differ.
pub fn insn_cjne_rn_indirect_const_code(
    cpu: &mut CPU,
    insn: Instruction,
    arg0: Option<u8>,
    arg1: Option<u8>,
) -> (r: Result<PC, RuntimeError>)
    ensures
        (Outcome { state: final(cpu)@, result: r }) == step_cjne_rn_indirect_const_code(
            old(cpu)@,
            insn@,
            arg0,
            arg1,
        ),
{
    let immediate = first_operand(arg0)?;
    let rel = second_operand(arg1)?;
    let first = cpu.read(Addr8::new(cpu.get_gpr(GPR::select(insn.op() % 2))));
    let second = immediate;
    compare_and_branch(cpu, first, second, rel);
    Ok(PC::JUMP)
}

/// The effect of `CJNE Rn,#data,rel`: compares the register that the opcode
/// selects with the first operand byte: the carry flag tells that the former is
/// below the latter, and the branch by the second operand byte is taken where
/// the two differ.
pub open spec fn step_cjne_rn_const_code(
    s: State,
    op: u8,
    arg0: Option<u8>,
    arg1: Option<u8>,
) -> Outcome {
    match (arg0, arg1) {
        (Some(immediate), Some(rel)) => {
            Outcome::jump(after_compare(s, s.reg(op % 8), immediate, rel))
        },
        (None, _) => Outcome::fail(s, ErrorType::InstructionArg0Missing),
        (_, None) => Outcome::fail(s, ErrorType::InstructionArg1Missing),
    }
}

/// Executes `CJNE Rn,#data,rel`: compares the register that the opcode selects
/// with the first operand byte: the carry flag tells that the former is below
/// the latter, and the branch by the second operand byte is taken where the two
/// differ.
pub fn insn_cjne_rn_const_code(
    cpu: &mut CPU,
    insn: Instruction,
    arg0: Option<u8>,
    arg1: Option<u8>,
) -> (r: Result<PC, RuntimeError>)
    ensures
        (Outcome { state: final(cpu)@, result: r }) == step_cjne_rn_const_code(
            old(cpu)@,
            insn@,
            arg0,
            arg1,
        ),
{
    let immediate = first_operand(arg0)?;
    let rel = second_operand(arg1)?;
    let first = cpu.get_gpr(GPR::select(insn.op()));
    let second = immediate;
    compare_and_branch(cpu, first, second, rel);
    Ok(PC::JUMP)
}

/// The effect of `DJNZ Rn,rel`: decrements the register that the opcode selects
/// and branches by the operand byte where the register is then not zero.
pub open spec fn step_djnz_rn_code(
    s: State,
    op: u8,
    arg0: Option<u8>,
    arg1: Option<u8>,
) -> Outcome {
    match arg0 {
        Some(rel) => {
            let data = decremented(s.reg(op % 8));
            Outcome::jump(s.set_reg(op % 8, data).branch(2, rel, data != 0))
        },
        None => Outcome::fail(s, ErrorType::InstructionArg0Missing),
    }
}

/// Executes `DJNZ Rn,rel`: decrements the register that the opcode selects and
/// branches by the operand byte where the register is then not zero.
pub fn insn_djnz_rn_code(
    cpu: &mut CPU,
    insn: Instruction,
    arg0: Option<u8>,
    arg1: Option<u8>,
) -> (r: Result<PC, RuntimeError>)
    ensures
        (Outcome { state: final(cpu)@, result: r }) == step_djnz_rn_code(
            old(cpu)@,
            insn@,
            arg0,
            arg1,
        ),
{
    let rel = first_operand(arg0)?;
    let reg = GPR::select(insn.op());
    let data = decrement(cpu.get_gpr(reg));
    cpu.set_gpr(reg, data);
    cpu.branch(2, rel, data != 0);
    Ok(PC::JUMP)
}

/// The effect of `DJNZ direct,rel`: decrements the cell of internal data that
/// the first operand byte names, moves the counter on by two, and branches by
/// the second operand byte where the cell is then not zero.
pub open spec fn step_djnz_data_code(
    s: State,
    op: u8,
    arg0: Option<u8>,
    arg1: Option<u8>,
) -> Outcome {
    match (arg0, arg1) {
        (Some(direct), Some(rel)) => {
            let data = decremented(s.read(direct));
            Outcome::jump(s.write(direct, data).branch(2, rel, data != 0))
        },
        (None, _) => Outcome::fail(s, ErrorType::InstructionArg0Missing),
        (_, None) => Outcome::fail(s, ErrorType::InstructionArg1Missing),
    }
}

/// Executes `DJNZ direct,rel`: decrements the cell of internal data that the
/// first operand byte names, moves the counter on by two, and branches by the
/// second operand byte where the cell is then not zero.
pub fn insn_djnz_data_code(
    cpu: &mut CPU,
    insn: Instruction,
    arg0: Option<u8>,
    arg1: Option<u8>,
) -> (r: Result<PC, RuntimeError>)
    ensures
        (Outcome { state: final(cpu)@, result: r }) == step_djnz_data_code(
            old(cpu)@,
            insn@,
            arg0,
            arg1,
        ),
{
    let direct = first_operand(arg0)?;
    let rel = second_operand(arg1)?;
    let addr = Addr8::new(direct);
    let data = decrement(cpu.read(addr));
    cpu.write(addr, data);
    cpu.branch(2, rel, data != 0);
    Ok(PC::JUMP)
}

/// A return that follows a long call leads to the instruction behind the call
/// and leaves the stack pointer where it was before the call. This holds
/// unless one of the two cells that receive the return address is the stack
/// pointer itself.
pub proof fn lemma_call_then_return(s: State, high: u8, low: u8)
    requires
        s.wf(),
        (s.sp() + 1) % 256 != SFR::SP.location(),
        (s.sp() + 2) % 256 != SFR::SP.location(),
    ensures
        step_ret(step_lcall(s, 0x12, Some(high), Some(low)).state, 0x22, None, None).state.pc
            == s.pc_plus(3),
        step_ret(step_lcall(s, 0x12, Some(high), Some(low)).state, 0x22, None, None).state.sp()
            == s.sp(),
{
    let ret = s.pc_plus(3);
    let first = s.push((ret % 256) as u8);
    let second = first.push((ret / 256) as u8);
    assert(first.sp() == (s.sp() + 1) % 256);
    assert(second.sp() == (s.sp() + 2) % 256);
    assert(second.top() == ret / 256);
    assert(second.drop_top().top() == ret % 256);
}

/// A paged jump and a paged call, run at the counter `P`, stay in the 2 KiB page
/// of the instruction that follows: the top five bits of the new counter are
/// those of `P + 2`.
pub proof fn lemma_paged_jump_stays_in_page(s: State, op: u8, arg0: u8, arg1: Option<u8>)
    ensures
        step_ajmp(s, op, Some(arg0), arg1).state.pc & 0xF800 == s.pc_plus(2) & 0xF800,
        step_acall(s, op, Some(arg0), arg1).state.pc & 0xF800 == s.pc_plus(2) & 0xF800,
{
    lemma_paged_target_keeps_page(s.pc_plus(2), op, arg0);
}

} // verus!
