//! The handlers of the instructions that move data: between the accumulator,
//! the registers and internal data, to and from external data, from code
//! memory, and on and off the stack. None of them touches a flag.

#![allow(unused_variables)]

use vstd::prelude::*;
use crate::addr::Addr8;
use crate::cpu::{CPU, PC};
use crate::error::{ErrorType, RuntimeError};
use crate::instructions::arithmetic::{increment, incremented};
use crate::instructions::instruction::{first_operand, second_operand, Instruction};
use crate::registers::{GPR, SFR};
use crate::state::{MemoryState, Outcome, State, MEMORY_FLASH_SIZE, MEMORY_XRAM_SIZE};

verus! {

/// The effect of `MOV A,#data`: stores the operand byte in the accumulator.
pub open spec fn step_mov_a_const(
    s: State,
    op: u8,
    arg0: Option<u8>,
    arg1: Option<u8>,
) -> Outcome {
    match arg0 {
        Some(immediate) => {
            Outcome::advance(s.set_acc(immediate))
        },
        None => Outcome::fail(s, ErrorType::InstructionArg0Missing),
    }
}

/// Executes `MOV A,#data`: stores the operand byte in the accumulator.
pub fn insn_mov_a_const(
    cpu: &mut CPU,
    insn: Instruction,
    arg0: Option<u8>,
    arg1: Option<u8>,
) -> (r: Result<PC, RuntimeError>)
    ensures
        (Outcome { state: final(cpu)@, result: r }) == step_mov_a_const(
            old(cpu)@,
            insn@,
            arg0,
            arg1,
        ),
{
    let immediate = first_operand(arg0)?;
    let operand = immediate;
    cpu.set_acc(operand);
    Ok(PC::ADVANCE)
}

/// The effect of `MOV A,direct`: stores the cell of internal data that the
/// operand byte names in the accumulator.
pub open spec fn step_mov_a_addr(
    s: State,
    op: u8,
    arg0: Option<u8>,
    arg1: Option<u8>,
) -> Outcome {
    match arg0 {
        Some(direct) => {
            Outcome::advance(s.set_acc(s.read(direct)))
        },
        None => Outcome::fail(s, ErrorType::InstructionArg0Missing),
    }
}

/// Executes `MOV A,direct`: stores the cell of internal data that the operand
/// byte names in the accumulator.
pub fn insn_mov_a_addr(
    cpu: &mut CPU,
    insn: Instruction,
    arg0: Option<u8>,
    arg1: Option<u8>,
) -> (r: Result<PC, RuntimeError>)
    ensures
        (Outcome { state: final(cpu)@, result: r }) == step_mov_a_addr(
            old(cpu)@,
            insn@,
            arg0,
            arg1,
        ),
{
    let direct = first_operand(arg0)?;
    let operand = cpu.read(Addr8::new(direct));
    cpu.set_acc(operand);
    Ok(PC::ADVANCE)
}

/// The effect of `MOV A,Rn`: stores the register that the opcode selects in the
/// accumulator.
pub open spec fn step_mov_a_rn(s: State, op: u8, arg0: Option<u8>, arg1: Option<u8>) -> Outcome {
    Outcome::advance(s.set_acc(s.reg(op % 8)))
}

/// Executes `MOV A,Rn`: stores the register that the opcode selects in the
/// accumulator.
pub fn insn_mov_a_rn(
    cpu: &mut CPU,
    insn: Instruction,
    arg0: Option<u8>,
    arg1: Option<u8>,
) -> (r: Result<PC, RuntimeError>)
    ensures
        (Outcome { state: final(cpu)@, result: r }) == step_mov_a_rn(old(cpu)@, insn@, arg0, arg1),
{
    let operand = cpu.get_gpr(GPR::select(insn.op()));
    cpu.set_acc(operand);
    Ok(PC::ADVANCE)
}

/// The effect of `MOV A,@Ri`: stores the cell of internal data that `R0` or
/// `R1`, as the opcode selects, points to in the accumulator.
pub open spec fn step_mov_a_rn_indirect(
    s: State,
    op: u8,
    arg0: Option<u8>,
    arg1: Option<u8>,
) -> Outcome {
    Outcome::advance(s.set_acc(s.read(s.reg(op % 2))))
}

/// Executes `MOV A,@Ri`: stores the cell of internal data that `R0` or `R1`, as
/// the opcode selects, points to in the accumulator.
pub fn insn_mov_a_rn_indirect(
    cpu: &mut CPU,
    insn: Instruction,
    arg0: Option<u8>,
    arg1: Option<u8>,
) -> (r: Result<PC, RuntimeError>)
    ensures
        (Outcome { state: final(cpu)@, result: r }) == step_mov_a_rn_indirect(
            old(cpu)@,
            insn@,
            arg0,
            arg1,
        ),
{
    let operand = cpu.read(Addr8::new(cpu.get_gpr(GPR::select(insn.op() % 2))));
    cpu.set_acc(operand);
    Ok(PC::ADVANCE)
}

/// The effect of `MOV Rn,A`: stores the accumulator in the register that the
/// opcode selects.
pub open spec fn step_mov_rn_a(s: State, op: u8, arg0: Option<u8>, arg1: Option<u8>) -> Outcome {
    Outcome::advance(s.set_reg(op % 8, s.acc()))
}

/// Executes `MOV Rn,A`: stores the accumulator in the register that the opcode
/// selects.
pub fn insn_mov_rn_a(
    cpu: &mut CPU,
    insn: Instruction,
    arg0: Option<u8>,
    arg1: Option<u8>,
) -> (r: Result<PC, RuntimeError>)
    ensures
        (Outcome { state: final(cpu)@, result: r }) == step_mov_rn_a(old(cpu)@, insn@, arg0, arg1),
{
    let acc = cpu.acc();
    cpu.set_gpr(GPR::select(insn.op()), acc);
    Ok(PC::ADVANCE)
}

/// The effect of `MOV Rn,direct`: stores the cell of internal data that the
/// operand byte names in the register that the opcode selects.
pub open spec fn step_mov_rn_addr(
    s: State,
    op: u8,
    arg0: Option<u8>,
    arg1: Option<u8>,
) -> Outcome {
    match arg0 {
        Some(direct) => {
            Outcome::advance(s.set_reg(op % 8, s.read(direct)))
        },
        None => Outcome::fail(s, ErrorType::InstructionArg0Missing),
    }
}

/// Executes `MOV Rn,direct`: stores the cell of internal data that the operand
/// byte names in the register that the opcode selects.
pub fn insn_mov_rn_addr(
    cpu: &mut CPU,
    insn: Instruction,
    arg0: Option<u8>,
    arg1: Option<u8>,
) -> (r: Result<PC, RuntimeError>)
    ensures
        (Outcome { state: final(cpu)@, result: r }) == step_mov_rn_addr(
            old(cpu)@,
            insn@,
            arg0,
            arg1,
        ),
{
    let direct = first_operand(arg0)?;
    let data = cpu.read(Addr8::new(direct));
    cpu.set_gpr(GPR::select(insn.op()), data);
    Ok(PC::ADVANCE)
}

/// The effect of `MOV Rn,#data`: stores the operand byte in the register that
/// the opcode selects.
pub open spec fn step_mov_rn_const(
    s: State,
    op: u8,
    arg0: Option<u8>,
    arg1: Option<u8>,
) -> Outcome {
    match arg0 {
        Some(immediate) => {
            Outcome::advance(s.set_reg(op % 8, immediate))
        },
        None => Outcome::fail(s, ErrorType::InstructionArg0Missing),
    }
}

/// Executes `MOV Rn,#data`: stores the operand byte in the register that the
/// opcode selects.
pub fn insn_mov_rn_const(
    cpu: &mut CPU,
    insn: Instruction,
    arg0: Option<u8>,
    arg1: Option<u8>,
) -> (r: Result<PC, RuntimeError>)
    ensures
        (Outcome { state: final(cpu)@, result: r }) == step_mov_rn_const(
            old(cpu)@,
            insn@,
            arg0,
            arg1,
        ),
{
    let immediate = first_operand(arg0)?;
    cpu.set_gpr(GPR::select(insn.op()), immediate);
    Ok(PC::ADVANCE)
}

/// The effect of `MOV direct,A`: stores the accumulator in the cell of internal
/// data that the operand byte names.
pub open spec fn step_mov_data_a(
    s: State,
    op: u8,
    arg0: Option<u8>,
    arg1: Option<u8>,
) -> Outcome {
    match arg0 {
        Some(direct) => {
            Outcome::advance(s.write(direct, s.acc()))
        },
        None => Outcome::fail(s, ErrorType::InstructionArg0Missing),
    }
}

/// Executes `MOV direct,A`: stores the accumulator in the cell of internal data
/// that the operand byte names.
pub fn insn_mov_data_a(
    cpu: &mut CPU,
    insn: Instruction,
    arg0: Option<u8>,
    arg1: Option<u8>,
) -> (r: Result<PC, RuntimeError>)
    ensures
        (Outcome { state: final(cpu)@, result: r }) == step_mov_data_a(
            old(cpu)@,
            insn@,
            arg0,
            arg1,
        ),
{
    let direct = first_operand(arg0)?;
    let acc = cpu.acc();
    cpu.write(Addr8::new(direct), acc);
    Ok(PC::ADVANCE)
}

/// The effect of `MOV direct,Rn`: stores the register that the opcode selects
/// in the cell of internal data that the operand byte names.
pub open spec fn step_mov_data_rn(
    s: State,
    op: u8,
    arg0: Option<u8>,
    arg1: Option<u8>,
) -> Outcome {
    match arg0 {
        Some(direct) => {
            Outcome::advance(s.write(direct, s.reg(op % 8)))
        },
        None => Outcome::fail(s, ErrorType::InstructionArg0Missing),
    }
}

/// Executes `MOV direct,Rn`: stores the register that the opcode selects in the
/// cell of internal data that the operand byte names.
pub fn insn_mov_data_rn(
    cpu: &mut CPU,
    insn: Instruction,
    arg0: Option<u8>,
    arg1: Option<u8>,
) -> (r: Result<PC, RuntimeError>)
    ensures
        (Outcome { state: final(cpu)@, result: r }) == step_mov_data_rn(
            old(cpu)@,
            insn@,
            arg0,
            arg1,
        ),
{
    let direct = first_operand(arg0)?;
    let data = cpu.get_gpr(GPR::select(insn.op()));
    cpu.write(Addr8::new(direct), data);
    Ok(PC::ADVANCE)
}

/// The effect of `MOV direct,@Ri`: stores the cell of internal data that `R0`
/// or `R1`, as the opcode selects, points to in the cell that the operand byte
/// names.
pub open spec fn step_mov_data_rn_indirect(
    s: State,
    op: u8,
    arg0: Option<u8>,
    arg1: Option<u8>,
) -> Outcome {
    match arg0 {
        Some(direct) => {
            Outcome::advance(s.write(direct, s.read(s.reg(op % 2))))
        },
        None => Outcome::fail(s, ErrorType::InstructionArg0Missing),
    }
}

/// Executes `MOV direct,@Ri`: stores the cell of internal data that `R0` or
/// `R1`, as the opcode selects, points to in the cell that the operand byte
/// names.
pub fn insn_mov_data_rn_indirect(
    cpu: &mut CPU,
    insn: Instruction,
    arg0: Option<u8>,
    arg1: Option<u8>,
) -> (r: Result<PC, RuntimeError>)
    ensures
        (Outcome { state: final(cpu)@, result: r }) == step_mov_data_rn_indirect(
            old(cpu)@,
            insn@,
            arg0,
            arg1,
        ),
{
    let direct = first_operand(arg0)?;
    let data = cpu.read(Addr8::new(cpu.get_gpr(GPR::select(insn.op() % 2))));
    cpu.write(Addr8::new(direct), data);
    Ok(PC::ADVANCE)
}

/// The effect of `MOV direct,#data`: stores the second operand byte in the cell
/// of internal data that the first operand byte names.
pub open spec fn step_mov_data_const(
    s: State,
    op: u8,
    arg0: Option<u8>,
    arg1: Option<u8>,
) -> Outcome {
    match (arg0, arg1) {
        (Some(direct), Some(immediate)) => {
            Outcome::advance(s.write(direct, immediate))
        },
        (None, _) => Outcome::fail(s, ErrorType::InstructionArg0Missing),
        (_, None) => Outcome::fail(s, ErrorType::InstructionArg1Missing),
    }
}

/// Executes `MOV direct,#data`: stores the second operand byte in the cell of
/// internal data that the first operand byte names.
pub fn insn_mov_data_const(
    cpu: &mut CPU,
    insn: Instruction,
    arg0: Option<u8>,
    arg1: Option<u8>,
) -> (r: Result<PC, RuntimeError>)
    ensures
        (Outcome { state: final(cpu)@, result: r }) == step_mov_data_const(
            old(cpu)@,
            insn@,
            arg0,
            arg1,
        ),
{
    let direct = first_operand(arg0)?;
    let immediate = second_operand(arg1)?;
    cpu.write(Addr8::new(direct), immediate);
    Ok(PC::ADVANCE)
}

/// The effect of `MOV direct,direct`: stores the cell of internal data that the
/// first operand byte names in the cell that the second operand byte names.
pub open spec fn step_mov_data_data(
    s: State,
    op: u8,
    arg0: Option<u8>,
    arg1: Option<u8>,
) -> Outcome {
    match (arg0, arg1) {
        (Some(source), Some(destination)) => {
            Outcome::advance(s.write(destination, s.read(source)))
        },
        (None, _) => Outcome::fail(s, ErrorType::InstructionArg0Missing),
        (_, None) => Outcome::fail(s, ErrorType::InstructionArg1Missing),
    }
}

/// Executes `MOV direct,direct`: stores the cell of internal data that the
/// first operand byte names in the cell that the second operand byte names.
pub fn insn_mov_data_data(
    cpu: &mut CPU,
    insn: Instruction,
    arg0: Option<u8>,
    arg1: Option<u8>,
) -> (r: Result<PC, RuntimeError>)
    ensures
        (Outcome { state: final(cpu)@, result: r }) == step_mov_data_data(
            old(cpu)@,
            insn@,
            arg0,
            arg1,
        ),
{
    let source = first_operand(arg0)?;
    let destination = second_operand(arg1)?;
    let data = cpu.read(Addr8::new(source));
    cpu.write(Addr8::new(destination), data);
    Ok(PC::ADVANCE)
}

/// The effect of `MOV @Ri,A`: stores the accumulator in the cell of internal
/// data that `R0` or `R1`, as the opcode selects, points to.
pub open spec fn step_mov_rn_indirect_a(
    s: State,
    op: u8,
    arg0: Option<u8>,
    arg1: Option<u8>,
) -> Outcome {
    Outcome::advance(s.write(s.reg(op % 2), s.acc()))
}

/// Executes `MOV @Ri,A`: stores the accumulator in the cell of internal data
/// that `R0` or `R1`, as the opcode selects, points to.
pub fn insn_mov_rn_indirect_a(
    cpu: &mut CPU,
    insn: Instruction,
    arg0: Option<u8>,
    arg1: Option<u8>,
) -> (r: Result<PC, RuntimeError>)
    ensures
        (Outcome { state: final(cpu)@, result: r }) == step_mov_rn_indirect_a(
            old(cpu)@,
            insn@,
            arg0,
            arg1,
        ),
{
    let addr = Addr8::new(cpu.get_gpr(GPR::select(insn.op() % 2)));
    let acc = cpu.acc();
    cpu.write(addr, acc);
    Ok(PC::ADVANCE)
}

/// The effect of `MOV @Ri,direct`: stores the cell of internal data that the
/// operand byte names in the cell that `R0` or `R1`, as the opcode selects,
/// points to.
pub open spec fn step_mov_rn_indirect_addr(
    s: State,
    op: u8,
    arg0: Option<u8>,
    arg1: Option<u8>,
) -> Outcome {
    match arg0 {
        Some(direct) => {
            Outcome::advance(s.write(s.reg(op % 2), s.read(direct)))
        },
        None => Outcome::fail(s, ErrorType::InstructionArg0Missing),
    }
}

/// Executes `MOV @Ri,direct`: stores the cell of internal data that the operand
/// byte names in the cell that `R0` or `R1`, as the opcode selects, points to.
pub fn insn_mov_rn_indirect_addr(
    cpu: &mut CPU,
    insn: Instruction,
    arg0: Option<u8>,
    arg1: Option<u8>,
) -> (r: Result<PC, RuntimeError>)
    ensures
        (Outcome { state: final(cpu)@, result: r }) == step_mov_rn_indirect_addr(
            old(cpu)@,
            insn@,
            arg0,
            arg1,
        ),
{
    let direct = first_operand(arg0)?;
    let addr = Addr8::new(cpu.get_gpr(GPR::select(insn.op() % 2)));
    let data = cpu.read(Addr8::new(direct));
    cpu.write(addr, data);
    Ok(PC::ADVANCE)
}

/// The effect of `MOV @Ri,#data`: stores the operand byte in the cell of
/// internal data that `R0` or `R1`, as the opcode selects, points to.
pub open spec fn step_mov_rn_indirect_const(
    s: State,
    op: u8,
    arg0: Option<u8>,
    arg1: Option<u8>,
) -> Outcome {
    match arg0 {
        Some(immediate) => {
            Outcome::advance(s.write(s.reg(op % 2), immediate))
        },
        None => Outcome::fail(s, ErrorType::InstructionArg0Missing),
    }
}

/// Executes `MOV @Ri,#data`: stores the operand byte in the cell of internal
/// data that `R0` or `R1`, as the opcode selects, points to.
pub fn insn_mov_rn_indirect_const(
    cpu: &mut CPU,
    insn: Instruction,
    arg0: Option<u8>,
    arg1: Option<u8>,
) -> (r: Result<PC, RuntimeError>)
    ensures
        (Outcome { state: final(cpu)@, result: r }) == step_mov_rn_indirect_const(
            old(cpu)@,
            insn@,
            arg0,
            arg1,
        ),
{
    let immediate = first_operand(arg0)?;
    let addr = Addr8::new(cpu.get_gpr(GPR::select(insn.op() % 2)));
    cpu.write(addr, immediate);
    Ok(PC::ADVANCE)
}

/// The effect of `MOV DPTR,#data16`: stores the first operand byte in the high
/// register of the data pointer and the second in its low register.
pub open spec fn step_mov_dptr_const(
    s: State,
    op: u8,
    arg0: Option<u8>,
    arg1: Option<u8>,
) -> Outcome {
    match (arg0, arg1) {
        (Some(high), Some(low)) => {
            Outcome::advance(s.set_sfr(SFR::DPH, high).set_sfr(SFR::DPL, low))
        },
        (None, _) => Outcome::fail(s, ErrorType::InstructionArg0Missing),
        (_, None) => Outcome::fail(s, ErrorType::InstructionArg1Missing),
    }
}

/// Executes `MOV DPTR,#data16`: stores the first operand byte in the high
/// register of the data pointer and the second in its low register.
pub fn insn_mov_dptr_const(
    cpu: &mut CPU,
    insn: Instruction,
    arg0: Option<u8>,
    arg1: Option<u8>,
) -> (r: Result<PC, RuntimeError>)
    ensures
        (Outcome { state: final(cpu)@, result: r }) == step_mov_dptr_const(
            old(cpu)@,
            insn@,
            arg0,
            arg1,
        ),
{
    let high = first_operand(arg0)?;
    let low = second_operand(arg1)?;
    cpu.set_sfr(SFR::DPH, high);
    cpu.set_sfr(SFR::DPL, low);
    Ok(PC::ADVANCE)
}

/// The effect of `MOVX A,@DPTR`: stores the cell of external data that the data
/// pointer names in the accumulator. Fails with `InvalidAddr`, and changes
/// nothing, where the data pointer lies beyond external data.
pub open spec fn step_movx_a_dptr(
    s: State,
    op: u8,
    arg0: Option<u8>,
    arg1: Option<u8>,
) -> Outcome {
    if s.dptr() < MEMORY_XRAM_SIZE {
        Outcome::advance(s.set_acc(s.mem.xdata[s.dptr() as int]))
    } else {
        Outcome::fail(s, ErrorType::InvalidAddr)
    }
}

/// Executes `MOVX A,@DPTR`: stores the cell of external data that the data
/// pointer names in the accumulator. Fails with `InvalidAddr`, and changes
/// nothing, where the data pointer lies beyond external data.
pub fn insn_movx_a_dptr(
    cpu: &mut CPU,
    insn: Instruction,
    arg0: Option<u8>,
    arg1: Option<u8>,
) -> (r: Result<PC, RuntimeError>)
    ensures
        (Outcome { state: final(cpu)@, result: r }) == step_movx_a_dptr(
            old(cpu)@,
            insn@,
            arg0,
            arg1,
        ),
{
    let dptr = cpu.dptr();
    let data = cpu.read_xdata(dptr)?;
    cpu.set_acc(data);
    Ok(PC::ADVANCE)
}

/// The effect of `MOVX @DPTR,A`: stores the accumulator in the cell of external
/// data that the data pointer names. Fails with `InvalidAddr`, and changes
/// nothing, where the data pointer lies beyond external data.
pub open spec fn step_movx_dptr_a(
    s: State,
    op: u8,
    arg0: Option<u8>,
    arg1: Option<u8>,
) -> Outcome {
    if s.dptr() < MEMORY_XRAM_SIZE {
        Outcome::advance(
            s.with_mem(
                MemoryState { xdata: s.mem.xdata.update(s.dptr() as int, s.acc()), ..s.mem },
            ),
        )
    } else {
        Outcome::fail(s, ErrorType::InvalidAddr)
    }
}

/// Executes `MOVX @DPTR,A`: stores the accumulator in the cell of external data
/// that the data pointer names. Fails with `InvalidAddr`, and changes nothing,
/// where the data pointer lies beyond external data.
pub fn insn_movx_dptr_a(
    cpu: &mut CPU,
    insn: Instruction,
    arg0: Option<u8>,
    arg1: Option<u8>,
) -> (r: Result<PC, RuntimeError>)
    ensures
        (Outcome { state: final(cpu)@, result: r }) == step_movx_dptr_a(
            old(cpu)@,
            insn@,
            arg0,
            arg1,
        ),
{
    let dptr = cpu.dptr();
    let acc = cpu.acc();
    cpu.write_xdata(dptr, acc)?;
    Ok(PC::ADVANCE)
}

/// The address in code memory that `MOVC A,@A+DPTR` reads: the sum of the
/// accumulator and the data pointer, modulo the size of the address space.
pub open spec fn code_operand_addr(s: State) -> int {
    (s.acc() + s.dptr()) % 0x10000
}

/// The effect of `MOVC A,@A+DPTR`: stores, in the accumulator, the cell of code
/// memory at the sum of the accumulator and the data pointer. Fails with
/// `InvalidAddr`, and changes nothing, where that address lies beyond code
/// memory.
pub open spec fn step_movc_a_dptr(
    s: State,
    op: u8,
    arg0: Option<u8>,
    arg1: Option<u8>,
) -> Outcome {
    if code_operand_addr(s) < MEMORY_FLASH_SIZE {
        Outcome::advance(s.set_acc(s.mem.code[code_operand_addr(s)]))
    } else {
        Outcome::fail(s, ErrorType::InvalidAddr)
    }
}

/// Executes `MOVC A,@A+DPTR`: stores, in the accumulator, the cell of code
/// memory at the sum of the accumulator and the data pointer. Fails with
/// `InvalidAddr`, and changes nothing, where that address lies beyond code
/// memory.
pub fn insn_movc_a_dptr(
    cpu: &mut CPU,
    insn: Instruction,
    arg0: Option<u8>,
    arg1: Option<u8>,
) -> (r: Result<PC, RuntimeError>)
    ensures
        (Outcome { state: final(cpu)@, result: r }) == step_movc_a_dptr(
            old(cpu)@,
            insn@,
            arg0,
            arg1,
        ),
{
    let addr: u32 = (cpu.acc() as u32 + cpu.dptr() as u32) % 0x10000;
    let data = cpu.read_code(addr as u16)?;
    cpu.set_acc(data);
    Ok(PC::ADVANCE)
}

/// The effect of `PUSH direct`: increments the stack pointer, then stores the
/// cell of internal data that the operand byte names in the cell that the stack
/// pointer names.
pub open spec fn step_push_data(s: State, op: u8, arg0: Option<u8>, arg1: Option<u8>) -> Outcome {
    match arg0 {
        Some(direct) => {
            let sp = incremented(s.sp());
            let pushed = s.set_sfr(SFR::SP, sp);
            Outcome::advance(pushed.write(sp, pushed.read(direct)))
        },
        None => Outcome::fail(s, ErrorType::InstructionArg0Missing),
    }
}

/// Executes `PUSH direct`: increments the stack pointer, then stores the cell
/// of internal data that the operand byte names in the cell that the stack
/// pointer names.
pub fn insn_push_data(
    cpu: &mut CPU,
    insn: Instruction,
    arg0: Option<u8>,
    arg1: Option<u8>,
) -> (r: Result<PC, RuntimeError>)
    ensures
        (Outcome { state: final(cpu)@, result: r }) == step_push_data(old(cpu)@, insn@, arg0, arg1),
{
    let direct = first_operand(arg0)?;
    let sp = increment(cpu.get_sfr(SFR::SP));
    cpu.set_sfr(SFR::SP, sp);
    let data = cpu.read(Addr8::new(direct));
    cpu.write(Addr8::new(sp), data);
    Ok(PC::ADVANCE)
}

/// The effect of `POP direct`: reads the cell that the stack pointer names,
/// decrements the stack pointer, then stores the byte read in the cell of
/// internal data that the operand byte names.
pub open spec fn step_pop_data(s: State, op: u8, arg0: Option<u8>, arg1: Option<u8>) -> Outcome {
    match arg0 {
        Some(direct) => {
            Outcome::advance(s.drop_top().write(direct, s.top()))
        },
        None => Outcome::fail(s, ErrorType::InstructionArg0Missing),
    }
}

/// Executes `POP direct`: reads the cell that the stack pointer names,
/// decrements the stack pointer, then stores the byte read in the cell of
/// internal data that the operand byte names.
pub fn insn_pop_data(
    cpu: &mut CPU,
    insn: Instruction,
    arg0: Option<u8>,
    arg1: Option<u8>,
) -> (r: Result<PC, RuntimeError>)
    ensures
        (Outcome { state: final(cpu)@, result: r }) == step_pop_data(old(cpu)@, insn@, arg0, arg1),
{
    let direct = first_operand(arg0)?;
    let data = cpu.pop();
    cpu.write(Addr8::new(direct), data);
    Ok(PC::ADVANCE)
}

} // verus!
