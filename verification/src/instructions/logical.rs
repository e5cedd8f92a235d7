//! The handlers of the logical instructions and of the rotations of the
//! accumulator. None of them touches a flag but the rotations through carry.

#![allow(unused_variables)]

use vstd::prelude::*;
use crate::addr::Addr8;
use crate::cpu::{CPU, PC};
use crate::error::{ErrorType, RuntimeError};
use crate::instructions::instruction::{first_operand, second_operand, Instruction};
use crate::registers::GPR;
use crate::state::{Outcome, State};

verus! {

/// The byte rotated left by one bit: bit 7 comes back in as bit 0.
pub open spec fn rotated_left(byte: u8) -> u8 {
    ((byte * 2) % 256 + byte / 128) as u8
}

/// The byte rotated right by one bit: bit 0 comes back in as bit 7.
pub open spec fn rotated_right(byte: u8) -> u8 {
    (byte / 2 + (byte % 2) * 128) as u8
}

/// The byte shifted left by one bit, with `carry` coming in as bit 0.
pub open spec fn shifted_left_in(byte: u8, carry: bool) -> u8 {
    ((byte * 2) % 256 + if carry {
        1int
    } else {
        0int
    }) as u8
}

/// The byte shifted right by one bit, with `carry` coming in as bit 7.
pub open spec fn shifted_right_in(byte: u8, carry: bool) -> u8 {
    (byte / 2 + if carry {
        128int
    } else {
        0int
    }) as u8
}

/// The byte rotated left by one bit.
pub fn rotate_left(byte: u8) -> (r: u8)
    ensures
        r == rotated_left(byte),
{
    assert((byte << 1) | (byte >> 7) == ((byte * 2) % 256 + byte / 128) as u8) by (bit_vector);
    (byte << 1) | (byte >> 7)
}

/// The byte rotated right by one bit.
pub fn rotate_right(byte: u8) -> (r: u8)
    ensures
        r == rotated_right(byte),
{
    assert((byte >> 1) | (byte << 7) == (byte / 2 + (byte % 2) * 128) as u8) by (bit_vector);
    (byte >> 1) | (byte << 7)
}

/// The effect of `RL A`: rotates the accumulator left by one bit. No flag
/// changes.
pub open spec fn step_rl_a(s: State, op: u8, arg0: Option<u8>, arg1: Option<u8>) -> Outcome {
    Outcome::advance(s.set_acc(rotated_left(s.acc())))
}

/// Executes `RL A`: rotates the accumulator left by one bit. No flag changes.
pub fn insn_rl_a(
    cpu: &mut CPU,
    insn: Instruction,
    arg0: Option<u8>,
    arg1: Option<u8>,
) -> (r: Result<PC, RuntimeError>)
    ensures
        (Outcome { state: final(cpu)@, result: r }) == step_rl_a(old(cpu)@, insn@, arg0, arg1),
{
    let acc = cpu.acc();
    cpu.set_acc(rotate_left(acc));
    Ok(PC::ADVANCE)
}

/// The effect of `RR A`: rotates the accumulator right by one bit. No flag
/// changes.
pub open spec fn step_rr_a(s: State, op: u8, arg0: Option<u8>, arg1: Option<u8>) -> Outcome {
    Outcome::advance(s.set_acc(rotated_right(s.acc())))
}

/// Executes `RR A`: rotates the accumulator right by one bit. No flag changes.
pub fn insn_rr_a(
    cpu: &mut CPU,
    insn: Instruction,
    arg0: Option<u8>,
    arg1: Option<u8>,
) -> (r: Result<PC, RuntimeError>)
    ensures
        (Outcome { state: final(cpu)@, result: r }) == step_rr_a(old(cpu)@, insn@, arg0, arg1),
{
    let acc = cpu.acc();
    cpu.set_acc(rotate_right(acc));
    Ok(PC::ADVANCE)
}

/// The effect of `RLC A`: rotates the accumulator left through the carry flag:
/// the carry comes in as bit 0, and bit 7 becomes the carry.
pub open spec fn step_rlc_a(s: State, op: u8, arg0: Option<u8>, arg1: Option<u8>) -> Outcome {
    Outcome::advance(s.set_acc(shifted_left_in(s.acc(), s.carry())).set_carry(s.acc() >= 128))
}

/// Executes `RLC A`: rotates the accumulator left through the carry flag: the
/// carry comes in as bit 0, and bit 7 becomes the carry.
pub fn insn_rlc_a(
    cpu: &mut CPU,
    insn: Instruction,
    arg0: Option<u8>,
    arg1: Option<u8>,
) -> (r: Result<PC, RuntimeError>)
    ensures
        (Outcome { state: final(cpu)@, result: r }) == step_rlc_a(old(cpu)@, insn@, arg0, arg1),
{
    let acc = cpu.acc();
    let carry = cpu.carry();
    let shifted: u8 = ((acc % 128) * 2) + if carry {
        1
    } else {
        0
    };
    cpu.set_acc(shifted);
    cpu.set_carry(acc >= 128);
    Ok(PC::ADVANCE)
}

/// The effect of `RRC A`: rotates the accumulator right through the carry flag:
/// the carry comes in as bit 7, and bit 0 becomes the carry.
pub open spec fn step_rrc_a(s: State, op: u8, arg0: Option<u8>, arg1: Option<u8>) -> Outcome {
    Outcome::advance(s.set_acc(shifted_right_in(s.acc(), s.carry())).set_carry(s.acc() % 2 == 1))
}

/// Executes `RRC A`: rotates the accumulator right through the carry flag: the
/// carry comes in as bit 7, and bit 0 becomes the carry.
pub fn insn_rrc_a(
    cpu: &mut CPU,
    insn: Instruction,
    arg0: Option<u8>,
    arg1: Option<u8>,
) -> (r: Result<PC, RuntimeError>)
    ensures
        (Outcome { state: final(cpu)@, result: r }) == step_rrc_a(old(cpu)@, insn@, arg0, arg1),
{
    let acc = cpu.acc();
    let carry = cpu.carry();
    let shifted: u8 = acc / 2 + if carry {
        128
    } else {
        0
    };
    cpu.set_acc(shifted);
    cpu.set_carry(acc % 2 == 1);
    Ok(PC::ADVANCE)
}

/// The effect of `ORL direct,A`: stores, in the cell of internal data that the
/// operand byte names, the bitwise or of that cell and the accumulator. No flag
/// changes.
pub open spec fn step_orl_data_a(
    s: State,
    op: u8,
    arg0: Option<u8>,
    arg1: Option<u8>,
) -> Outcome {
    match arg0 {
        Some(direct) => {
            Outcome::advance(s.write(direct, s.read(direct) | s.acc()))
        },
        None => Outcome::fail(s, ErrorType::InstructionArg0Missing),
    }
}

/// Executes `ORL direct,A`: stores, in the cell of internal data that the
/// operand byte names, the bitwise or of that cell and the accumulator. No flag
/// changes.
pub fn insn_orl_data_a(
    cpu: &mut CPU,
    insn: Instruction,
    arg0: Option<u8>,
    arg1: Option<u8>,
) -> (r: Result<PC, RuntimeError>)
    ensures
        (Outcome { state: final(cpu)@, result: r }) == step_orl_data_a(
            old(cpu)@,
            insn@,
            arg0,
            arg1,
        ),
{
    let direct = first_operand(arg0)?;
    let addr = Addr8::new(direct);
    let data = cpu.read(addr);
    let acc = cpu.acc();
    cpu.write(addr, data | acc);
    Ok(PC::ADVANCE)
}

/// The effect of `ORL direct,#data`: stores, in the cell of internal data that
/// the first operand byte names, the bitwise or of that cell and the second
/// operand byte. No flag changes.
pub open spec fn step_orl_data_const(
    s: State,
    op: u8,
    arg0: Option<u8>,
    arg1: Option<u8>,
) -> Outcome {
    match (arg0, arg1) {
        (Some(direct), Some(immediate)) => {
            Outcome::advance(s.write(direct, s.read(direct) | immediate))
        },
        (None, _) => Outcome::fail(s, ErrorType::InstructionArg0Missing),
        (_, None) => Outcome::fail(s, ErrorType::InstructionArg1Missing),
    }
}

/// Executes `ORL direct,#data`: stores, in the cell of internal data that the
/// first operand byte names, the bitwise or of that cell and the second operand
/// byte. No flag changes.
pub fn insn_orl_data_const(
    cpu: &mut CPU,
    insn: Instruction,
    arg0: Option<u8>,
    arg1: Option<u8>,
) -> (r: Result<PC, RuntimeError>)
    ensures
        (Outcome { state: final(cpu)@, result: r }) == step_orl_data_const(
            old(cpu)@,
            insn@,
            arg0,
            arg1,
        ),
{
    let direct = first_operand(arg0)?;
    let immediate = second_operand(arg1)?;
    let addr = Addr8::new(direct);
    let data = cpu.read(addr);
    cpu.write(addr, data | immediate);
    Ok(PC::ADVANCE)
}

/// The effect of `ORL A,#data`: stores, in the accumulator, the bitwise or of
/// the accumulator and the operand byte. No flag changes.
pub open spec fn step_orl_a_const(
    s: State,
    op: u8,
    arg0: Option<u8>,
    arg1: Option<u8>,
) -> Outcome {
    match arg0 {
        Some(immediate) => {
            Outcome::advance(s.set_acc(s.acc() | immediate))
        },
        None => Outcome::fail(s, ErrorType::InstructionArg0Missing),
    }
}

/// Executes `ORL A,#data`: stores, in the accumulator, the bitwise or of the
/// accumulator and the operand byte. No flag changes.
pub fn insn_orl_a_const(
    cpu: &mut CPU,
    insn: Instruction,
    arg0: Option<u8>,
    arg1: Option<u8>,
) -> (r: Result<PC, RuntimeError>)
    ensures
        (Outcome { state: final(cpu)@, result: r }) == step_orl_a_const(
            old(cpu)@,
            insn@,
            arg0,
            arg1,
        ),
{
    let immediate = first_operand(arg0)?;
    let operand = immediate;
    let acc = cpu.acc();
    cpu.set_acc(acc | operand);
    Ok(PC::ADVANCE)
}

/// The effect of `ORL A,direct`: stores, in the accumulator, the bitwise or of
/// the accumulator and the cell of internal data that the operand byte names.
/// No flag changes.
pub open spec fn step_orl_a_addr(
    s: State,
    op: u8,
    arg0: Option<u8>,
    arg1: Option<u8>,
) -> Outcome {
    match arg0 {
        Some(direct) => {
            Outcome::advance(s.set_acc(s.acc() | s.read(direct)))
        },
        None => Outcome::fail(s, ErrorType::InstructionArg0Missing),
    }
}

/// Executes `ORL A,direct`: stores, in the accumulator, the bitwise or of the
/// accumulator and the cell of internal data that the operand byte names. No
/// flag changes.
pub fn insn_orl_a_addr(
    cpu: &mut CPU,
    insn: Instruction,
    arg0: Option<u8>,
    arg1: Option<u8>,
) -> (r: Result<PC, RuntimeError>)
    ensures
        (Outcome { state: final(cpu)@, result: r }) == step_orl_a_addr(
            old(cpu)@,
            insn@,
            arg0,
            arg1,
        ),
{
    let direct = first_operand(arg0)?;
    let operand = cpu.read(Addr8::new(direct));
    let acc = cpu.acc();
    cpu.set_acc(acc | operand);
    Ok(PC::ADVANCE)
}

/// The effect of `ORL A,Rn`: stores, in the accumulator, the bitwise or of the
/// accumulator and the register that the opcode selects. No flag changes.
pub open spec fn step_orl_a_rn(s: State, op: u8, arg0: Option<u8>, arg1: Option<u8>) -> Outcome {
    Outcome::advance(s.set_acc(s.acc() | s.reg(op % 8)))
}

/// Executes `ORL A,Rn`: stores, in the accumulator, the bitwise or of the
/// accumulator and the register that the opcode selects. No flag changes.
pub fn insn_orl_a_rn(
    cpu: &mut CPU,
    insn: Instruction,
    arg0: Option<u8>,
    arg1: Option<u8>,
) -> (r: Result<PC, RuntimeError>)
    ensures
        (Outcome { state: final(cpu)@, result: r }) == step_orl_a_rn(old(cpu)@, insn@, arg0, arg1),
{
    let operand = cpu.get_gpr(GPR::select(insn.op()));
    let acc = cpu.acc();
    cpu.set_acc(acc | operand);
    Ok(PC::ADVANCE)
}

/// The effect of `ORL A,@Ri`: stores, in the accumulator, the bitwise or of the
/// accumulator and the cell of internal data that `R0` or `R1`, as the opcode
/// selects, points to. No flag changes.
pub open spec fn step_orl_a_rn_indirect(
    s: State,
    op: u8,
    arg0: Option<u8>,
    arg1: Option<u8>,
) -> Outcome {
    Outcome::advance(s.set_acc(s.acc() | s.read(s.reg(op % 2))))
}

/// Executes `ORL A,@Ri`: stores, in the accumulator, the bitwise or of the
/// accumulator and the cell of internal data that `R0` or `R1`, as the opcode
/// selects, points to. No flag changes.
pub fn insn_orl_a_rn_indirect(
    cpu: &mut CPU,
    insn: Instruction,
    arg0: Option<u8>,
    arg1: Option<u8>,
) -> (r: Result<PC, RuntimeError>)
    ensures
        (Outcome { state: final(cpu)@, result: r }) == step_orl_a_rn_indirect(
            old(cpu)@,
            insn@,
            arg0,
            arg1,
        ),
{
    let operand = cpu.read(Addr8::new(cpu.get_gpr(GPR::select(insn.op() % 2))));
    let acc = cpu.acc();
    cpu.set_acc(acc | operand);
    Ok(PC::ADVANCE)
}

/// The effect of `ANL direct,A`: stores, in the cell of internal data that the
/// operand byte names, the bitwise and of that cell and the accumulator. No
/// flag changes.
pub open spec fn step_anl_data_a(
    s: State,
    op: u8,
    arg0: Option<u8>,
    arg1: Option<u8>,
) -> Outcome {
    match arg0 {
        Some(direct) => {
            Outcome::advance(s.write(direct, s.read(direct) & s.acc()))
        },
        None => Outcome::fail(s, ErrorType::InstructionArg0Missing),
    }
}

/// Executes `ANL direct,A`: stores, in the cell of internal data that the
/// operand byte names, the bitwise and of that cell and the accumulator. No
/// flag changes.
pub fn insn_anl_data_a(
    cpu: &mut CPU,
    insn: Instruction,
    arg0: Option<u8>,
    arg1: Option<u8>,
) -> (r: Result<PC, RuntimeError>)
    ensures
        (Outcome { state: final(cpu)@, result: r }) == step_anl_data_a(
            old(cpu)@,
            insn@,
            arg0,
            arg1,
        ),
{
    let direct = first_operand(arg0)?;
    let addr = Addr8::new(direct);
    let data = cpu.read(addr);
    let acc = cpu.acc();
    cpu.write(addr, data & acc);
    Ok(PC::ADVANCE)
}

/// The effect of `ANL direct,#data`: stores, in the cell of internal data that
/// the first operand byte names, the bitwise and of that cell and the second
/// operand byte. No flag changes.
pub open spec fn step_anl_data_const(
    s: State,
    op: u8,
    arg0: Option<u8>,
    arg1: Option<u8>,
) -> Outcome {
    match (arg0, arg1) {
        (Some(direct), Some(immediate)) => {
            Outcome::advance(s.write(direct, s.read(direct) & immediate))
        },
        (None, _) => Outcome::fail(s, ErrorType::InstructionArg0Missing),
        (_, None) => Outcome::fail(s, ErrorType::InstructionArg1Missing),
    }
}

/// Executes `ANL direct,#data`: stores, in the cell of internal data that the
/// first operand byte names, the bitwise and of that cell and the second
/// operand byte. No flag changes.
pub fn insn_anl_data_const(
    cpu: &mut CPU,
    insn: Instruction,
    arg0: Option<u8>,
    arg1: Option<u8>,
) -> (r: Result<PC, RuntimeError>)
    ensures
        (Outcome { state: final(cpu)@, result: r }) == step_anl_data_const(
            old(cpu)@,
            insn@,
            arg0,
            arg1,
        ),
{
    let direct = first_operand(arg0)?;
    let immediate = second_operand(arg1)?;
    let addr = Addr8::new(direct);
    let data = cpu.read(addr);
    cpu.write(addr, data & immediate);
    Ok(PC::ADVANCE)
}

/// The effect of `ANL A,#data`: stores, in the accumulator, the bitwise and of
/// the accumulator and the operand byte. No flag changes.
pub open spec fn step_anl_a_const(
    s: State,
    op: u8,
    arg0: Option<u8>,
    arg1: Option<u8>,
) -> Outcome {
    match arg0 {
        Some(immediate) => {
            Outcome::advance(s.set_acc(s.acc() & immediate))
        },
        None => Outcome::fail(s, ErrorType::InstructionArg0Missing),
    }
}

/// Executes `ANL A,#data`: stores, in the accumulator, the bitwise and of the
/// accumulator and the operand byte. No flag changes.
pub fn insn_anl_a_const(
    cpu: &mut CPU,
    insn: Instruction,
    arg0: Option<u8>,
    arg1: Option<u8>,
) -> (r: Result<PC, RuntimeError>)
    ensures
        (Outcome { state: final(cpu)@, result: r }) == step_anl_a_const(
            old(cpu)@,
            insn@,
            arg0,
            arg1,
        ),
{
    let immediate = first_operand(arg0)?;
    let operand = immediate;
    let acc = cpu.acc();
    cpu.set_acc(acc & operand);
    Ok(PC::ADVANCE)
}

/// The effect of `ANL A,direct`: stores, in the accumulator, the bitwise and of
/// the accumulator and the cell of internal data that the operand byte names.
/// No flag changes.
pub open spec fn step_anl_a_addr(
    s: State,
    op: u8,
    arg0: Option<u8>,
    arg1: Option<u8>,
) -> Outcome {
    match arg0 {
        Some(direct) => {
            Outcome::advance(s.set_acc(s.acc() & s.read(direct)))
        },
        None => Outcome::fail(s, ErrorType::InstructionArg0Missing),
    }
}

/// Executes `ANL A,direct`: stores, in the accumulator, the bitwise and of the
/// accumulator and the cell of internal data that the operand byte names. No
/// flag changes.
pub fn insn_anl_a_addr(
    cpu: &mut CPU,
    insn: Instruction,
    arg0: Option<u8>,
    arg1: Option<u8>,
) -> (r: Result<PC, RuntimeError>)
    ensures
        (Outcome { state: final(cpu)@, result: r }) == step_anl_a_addr(
            old(cpu)@,
            insn@,
            arg0,
            arg1,
        ),
{
    let direct = first_operand(arg0)?;
    let operand = cpu.read(Addr8::new(direct));
    let acc = cpu.acc();
    cpu.set_acc(acc & operand);
    Ok(PC::ADVANCE)
}

/// The effect of `ANL A,Rn`: stores, in the accumulator, the bitwise and of the
/// accumulator and the register that the opcode selects. No flag changes.
pub open spec fn step_anl_a_rn(s: State, op: u8, arg0: Option<u8>, arg1: Option<u8>) -> Outcome {
    Outcome::advance(s.set_acc(s.acc() & s.reg(op % 8)))
}

/// Executes `ANL A,Rn`: stores, in the accumulator, the bitwise and of the
/// accumulator and the register that the opcode selects. No flag changes.
pub fn insn_anl_a_rn(
    cpu: &mut CPU,
    insn: Instruction,
    arg0: Option<u8>,
    arg1: Option<u8>,
) -> (r: Result<PC, RuntimeError>)
    ensures
        (Outcome { state: final(cpu)@, result: r }) == step_anl_a_rn(old(cpu)@, insn@, arg0, arg1),
{
    let operand = cpu.get_gpr(GPR::select(insn.op()));
    let acc = cpu.acc();
    cpu.set_acc(acc & operand);
    Ok(PC::ADVANCE)
}

/// The effect of `ANL A,@Ri`: stores, in the accumulator, the bitwise and of
/// the accumulator and the cell of internal data that `R0` or `R1`, as the
/// opcode selects, points to. No flag changes.
pub open spec fn step_anl_a_rn_indirect(
    s: State,
    op: u8,
    arg0: Option<u8>,
    arg1: Option<u8>,
) -> Outcome {
    Outcome::advance(s.set_acc(s.acc() & s.read(s.reg(op % 2))))
}

/// Executes `ANL A,@Ri`: stores, in the accumulator, the bitwise and of the
/// accumulator and the cell of internal data that `R0` or `R1`, as the opcode
/// selects, points to. No flag changes.
pub fn insn_anl_a_rn_indirect(
    cpu: &mut CPU,
    insn: Instruction,
    arg0: Option<u8>,
    arg1: Option<u8>,
) -> (r: Result<PC, RuntimeError>)
    ensures
        (Outcome { state: final(cpu)@, result: r }) == step_anl_a_rn_indirect(
            old(cpu)@,
            insn@,
            arg0,
            arg1,
        ),
{
    let operand = cpu.read(Addr8::new(cpu.get_gpr(GPR::select(insn.op() % 2))));
    let acc = cpu.acc();
    cpu.set_acc(acc & operand);
    Ok(PC::ADVANCE)
}

/// The effect of `XRL direct,A`: stores, in the cell of internal data that the
/// operand byte names, the bitwise exclusive or of that cell and the
/// accumulator. No flag changes.
pub open spec fn step_xrl_data_a(
    s: State,
    op: u8,
    arg0: Option<u8>,
    arg1: Option<u8>,
) -> Outcome {
    match arg0 {
        Some(direct) => {
            Outcome::advance(s.write(direct, s.read(direct) ^ s.acc()))
        },
        None => Outcome::fail(s, ErrorType::InstructionArg0Missing),
    }
}

/// Executes `XRL direct,A`: stores, in the cell of internal data that the
/// operand byte names, the bitwise exclusive or of that cell and the
/// accumulator. No flag changes.
pub fn insn_xrl_data_a(
    cpu: &mut CPU,
    insn: Instruction,
    arg0: Option<u8>,
    arg1: Option<u8>,
) -> (r: Result<PC, RuntimeError>)
    ensures
        (Outcome { state: final(cpu)@, result: r }) == step_xrl_data_a(
            old(cpu)@,
            insn@,
            arg0,
            arg1,
        ),
{
    let direct = first_operand(arg0)?;
    let addr = Addr8::new(direct);
    let data = cpu.read(addr);
    let acc = cpu.acc();
    cpu.write(addr, data ^ acc);
    Ok(PC::ADVANCE)
}

/// The effect of `XRL direct,#data`: stores, in the cell of internal data that
/// the first operand byte names, the bitwise exclusive or of that cell and the
/// second operand byte. No flag changes.
pub open spec fn step_xrl_data_const(
    s: State,
    op: u8,
    arg0: Option<u8>,
    arg1: Option<u8>,
) -> Outcome {
    match (arg0, arg1) {
        (Some(direct), Some(immediate)) => {
            Outcome::advance(s.write(direct, s.read(direct) ^ immediate))
        },
        (None, _) => Outcome::fail(s, ErrorType::InstructionArg0Missing),
        (_, None) => Outcome::fail(s, ErrorType::InstructionArg1Missing),
    }
}

/// Executes `XRL direct,#data`: stores, in the cell of internal data that the
/// first operand byte names, the bitwise exclusive or of that cell and the
/// second operand byte. No flag changes.
pub fn insn_xrl_data_const(
    cpu: &mut CPU,
    insn: Instruction,
    arg0: Option<u8>,
    arg1: Option<u8>,
) -> (r: Result<PC, RuntimeError>)
    ensures
        (Outcome { state: final(cpu)@, result: r }) == step_xrl_data_const(
            old(cpu)@,
            insn@,
            arg0,
            arg1,
        ),
{
    let direct = first_operand(arg0)?;
    let immediate = second_operand(arg1)?;
    let addr = Addr8::new(direct);
    let data = cpu.read(addr);
    cpu.write(addr, data ^ immediate);
    Ok(PC::ADVANCE)
}

/// The effect of `XRL A,#data`: stores, in the accumulator, the bitwise
/// exclusive or of the accumulator and the operand byte. No flag changes.
pub open spec fn step_xrl_a_const(
    s: State,
    op: u8,
    arg0: Option<u8>,
    arg1: Option<u8>,
) -> Outcome {
    match arg0 {
        Some(immediate) => {
            Outcome::advance(s.set_acc(s.acc() ^ immediate))
        },
        None => Outcome::fail(s, ErrorType::InstructionArg0Missing),
    }
}

/// Executes `XRL A,#data`: stores, in the accumulator, the bitwise exclusive or
/// of the accumulator and the operand byte. No flag changes.
pub fn insn_xrl_a_const(
    cpu: &mut CPU,
    insn: Instruction,
    arg0: Option<u8>,
    arg1: Option<u8>,
) -> (r: Result<PC, RuntimeError>)
    ensures
        (Outcome { state: final(cpu)@, result: r }) == step_xrl_a_const(
            old(cpu)@,
            insn@,
            arg0,
            arg1,
        ),
{
    let immediate = first_operand(arg0)?;
    let operand = immediate;
    let acc = cpu.acc();
    cpu.set_acc(acc ^ operand);
    Ok(PC::ADVANCE)
}

/// The effect of `XRL A,direct`: stores, in the accumulator, the bitwise
/// exclusive or of the accumulator and the cell of internal data that the
/// operand byte names. No flag changes.
pub open spec fn step_xrl_a_addr(
    s: State,
    op: u8,
    arg0: Option<u8>,
    arg1: Option<u8>,
) -> Outcome {
    match arg0 {
        Some(direct) => {
            Outcome::advance(s.set_acc(s.acc() ^ s.read(direct)))
        },
        None => Outcome::fail(s, ErrorType::InstructionArg0Missing),
    }
}

/// Executes `XRL A,direct`: stores, in the accumulator, the bitwise exclusive
/// or of the accumulator and the cell of internal data that the operand byte
/// names. No flag changes.
pub fn insn_xrl_a_addr(
    cpu: &mut CPU,
    insn: Instruction,
    arg0: Option<u8>,
    arg1: Option<u8>,
) -> (r: Result<PC, RuntimeError>)
    ensures
        (Outcome { state: final(cpu)@, result: r }) == step_xrl_a_addr(
            old(cpu)@,
            insn@,
            arg0,
            arg1,
        ),
{
    let direct = first_operand(arg0)?;
    let operand = cpu.read(Addr8::new(direct));
    let acc = cpu.acc();
    cpu.set_acc(acc ^ operand);
    Ok(PC::ADVANCE)
}

/// The effect of `XRL A,Rn`: stores, in the accumulator, the bitwise exclusive
/// or of the accumulator and the register that the opcode selects. No flag
/// changes.
pub open spec fn step_xrl_a_rn(s: State, op: u8, arg0: Option<u8>, arg1: Option<u8>) -> Outcome {
    Outcome::advance(s.set_acc(s.acc() ^ s.reg(op % 8)))
}

/// Executes `XRL A,Rn`: stores, in the accumulator, the bitwise exclusive or of
/// the accumulator and the register that the opcode selects. No flag changes.
pub fn insn_xrl_a_rn(
    cpu: &mut CPU,
    insn: Instruction,
    arg0: Option<u8>,
    arg1: Option<u8>,
) -> (r: Result<PC, RuntimeError>)
    ensures
        (Outcome { state: final(cpu)@, result: r }) == step_xrl_a_rn(old(cpu)@, insn@, arg0, arg1),
{
    let operand = cpu.get_gpr(GPR::select(insn.op()));
    let acc = cpu.acc();
    cpu.set_acc(acc ^ operand);
    Ok(PC::ADVANCE)
}

/// The effect of `XRL A,@Ri`: stores, in the accumulator, the bitwise exclusive
/// or of the accumulator and the cell of internal data that `R0` or `R1`, as
/// the opcode selects, points to. No flag changes.
pub open spec fn step_xrl_a_rn_indirect(
    s: State,
    op: u8,
    arg0: Option<u8>,
    arg1: Option<u8>,
) -> Outcome {
    Outcome::advance(s.set_acc(s.acc() ^ s.read(s.reg(op % 2))))
}

/// Executes `XRL A,@Ri`: stores, in the accumulator, the bitwise exclusive or
/// of the accumulator and the cell of internal data that `R0` or `R1`, as the
/// opcode selects, points to. No flag changes.
pub fn insn_xrl_a_rn_indirect(
    cpu: &mut CPU,
    insn: Instruction,
    arg0: Option<u8>,
    arg1: Option<u8>,
) -> (r: Result<PC, RuntimeError>)
    ensures
        (Outcome { state: final(cpu)@, result: r }) == step_xrl_a_rn_indirect(
            old(cpu)@,
            insn@,
            arg0,
            arg1,
        ),
{
    let operand = cpu.read(Addr8::new(cpu.get_gpr(GPR::select(insn.op() % 2))));
    let acc = cpu.acc();
    cpu.set_acc(acc ^ operand);
    Ok(PC::ADVANCE)
}

} // verus!
