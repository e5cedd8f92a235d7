//! Executing instructions: the dispatch from an operation to its handler, the
//! fetch-decode-execute cycle, and running a program for a number of cycles.

use vstd::prelude::*;
use crate::cpu::{CPU, PC};
use crate::error::{ErrorType, RuntimeError};
use crate::instructions::arithmetic;
use crate::instructions::boolean;
use crate::instructions::branching;
use crate::instructions::instruction::{instruction_length, Instruction, Operation};
use crate::instructions::logical;
use crate::instructions::transfer;
use crate::state::{Outcome, State, MEMORY_FLASH_SIZE};

verus! {

/// What executing `operation`, encoded by the opcode byte `op`, leads to. An
/// operation that the emulator does not execute halts the processor.
pub open spec fn execute(
    s: State,
    operation: Operation,
    op: u8,
    arg0: Option<u8>,
    arg1: Option<u8>,
) -> Outcome {
    match operation {
        Operation::Nop => branching::step_nop(s, op, arg0, arg1),
        Operation::Ajmp => branching::step_ajmp(s, op, arg0, arg1),
        Operation::Ljmp => branching::step_ljmp(s, op, arg0, arg1),
        Operation::RrA => logical::step_rr_a(s, op, arg0, arg1),
        Operation::IncA => arithmetic::step_inc_a(s, op, arg0, arg1),
        Operation::IncData => arithmetic::step_inc_data(s, op, arg0, arg1),
        Operation::IncIndirect => arithmetic::step_inc_rn_indirect(s, op, arg0, arg1),
        Operation::IncRn => arithmetic::step_inc_rn(s, op, arg0, arg1),
        Operation::Jbc => branching::step_jbc_bit_code(s, op, arg0, arg1),
        Operation::Acall => branching::step_acall(s, op, arg0, arg1),
        Operation::Lcall => branching::step_lcall(s, op, arg0, arg1),
        Operation::RrcA => logical::step_rrc_a(s, op, arg0, arg1),
        Operation::DecRn => arithmetic::step_dec_rn(s, op, arg0, arg1),
        Operation::Jb => branching::step_jb_bit_code(s, op, arg0, arg1),
        Operation::Ret => branching::step_ret(s, op, arg0, arg1),
        Operation::RlA => logical::step_rl_a(s, op, arg0, arg1),
        Operation::AddAConst => arithmetic::step_add_a_const(s, op, arg0, arg1),
        Operation::AddAData => arithmetic::step_add_a_addr(s, op, arg0, arg1),
        Operation::AddAIndirect => arithmetic::step_add_a_rn_indirect(s, op, arg0, arg1),
        Operation::AddARn => arithmetic::step_add_a_rn(s, op, arg0, arg1),
        Operation::Jnb => branching::step_jnb_bit_code(s, op, arg0, arg1),
        Operation::Reti => branching::step_reti(s, op, arg0, arg1),
        Operation::RlcA => logical::step_rlc_a(s, op, arg0, arg1),
        Operation::AddcAConst => arithmetic::step_addc_a_const(s, op, arg0, arg1),
        Operation::AddcAData => arithmetic::step_addc_a_addr(s, op, arg0, arg1),
        Operation::AddcAIndirect => arithmetic::step_addc_a_rn_indirect(s, op, arg0, arg1),
        Operation::AddcARn => arithmetic::step_addc_a_rn(s, op, arg0, arg1),
        Operation::Jc => branching::step_jc(s, op, arg0, arg1),
        Operation::OrlDataA => logical::step_orl_data_a(s, op, arg0, arg1),
        Operation::OrlDataConst => logical::step_orl_data_const(s, op, arg0, arg1),
        Operation::OrlAConst => logical::step_orl_a_const(s, op, arg0, arg1),
        Operation::OrlAData => logical::step_orl_a_addr(s, op, arg0, arg1),
        Operation::OrlAIndirect => logical::step_orl_a_rn_indirect(s, op, arg0, arg1),
        Operation::OrlARn => logical::step_orl_a_rn(s, op, arg0, arg1),
        Operation::Jnc => branching::step_jnc(s, op, arg0, arg1),
        Operation::AnlDataA => logical::step_anl_data_a(s, op, arg0, arg1),
        Operation::AnlDataConst => logical::step_anl_data_const(s, op, arg0, arg1),
        Operation::AnlAConst => logical::step_anl_a_const(s, op, arg0, arg1),
        Operation::AnlAData => logical::step_anl_a_addr(s, op, arg0, arg1),
        Operation::AnlAIndirect => logical::step_anl_a_rn_indirect(s, op, arg0, arg1),
        Operation::AnlARn => logical::step_anl_a_rn(s, op, arg0, arg1),
        Operation::Jz => branching::step_jz(s, op, arg0, arg1),
        Operation::XrlDataA => logical::step_xrl_data_a(s, op, arg0, arg1),
        Operation::XrlDataConst => logical::step_xrl_data_const(s, op, arg0, arg1),
        Operation::XrlAConst => logical::step_xrl_a_const(s, op, arg0, arg1),
        Operation::XrlAData => logical::step_xrl_a_addr(s, op, arg0, arg1),
        Operation::XrlAIndirect => logical::step_xrl_a_rn_indirect(s, op, arg0, arg1),
        Operation::XrlARn => logical::step_xrl_a_rn(s, op, arg0, arg1),
        Operation::Jnz => branching::step_jnz(s, op, arg0, arg1),
        Operation::OrlCBit => boolean::step_orl_c_bit(s, op, arg0, arg1),
        Operation::MovAConst => transfer::step_mov_a_const(s, op, arg0, arg1),
        Operation::MovDataConst => transfer::step_mov_data_const(s, op, arg0, arg1),
        Operation::MovIndirectConst => transfer::step_mov_rn_indirect_const(s, op, arg0, arg1),
        Operation::MovRnConst => transfer::step_mov_rn_const(s, op, arg0, arg1),
        Operation::Sjmp => branching::step_sjmp(s, op, arg0, arg1),
        Operation::AnlCBit => boolean::step_anl_c_bit(s, op, arg0, arg1),
        Operation::MovDataData => transfer::step_mov_data_data(s, op, arg0, arg1),
        Operation::MovDataIndirect => transfer::step_mov_data_rn_indirect(s, op, arg0, arg1),
        Operation::MovDataRn => transfer::step_mov_data_rn(s, op, arg0, arg1),
        Operation::MovDptrConst => transfer::step_mov_dptr_const(s, op, arg0, arg1),
        Operation::MovBitC => boolean::step_mov_bit_c(s, op, arg0, arg1),
        Operation::MovcADptr => transfer::step_movc_a_dptr(s, op, arg0, arg1),
        Operation::SubbAConst => arithmetic::step_subb_a_const(s, op, arg0, arg1),
        Operation::SubbAData => arithmetic::step_subb_a_addr(s, op, arg0, arg1),
        Operation::SubbAIndirect => arithmetic::step_subb_a_rn_indirect(s, op, arg0, arg1),
        Operation::SubbARn => arithmetic::step_subb_a_rn(s, op, arg0, arg1),
        Operation::MovCBit => boolean::step_mov_c_bit(s, op, arg0, arg1),
        Operation::IncDptr => arithmetic::step_inc_dptr(s, op, arg0, arg1),
        Operation::MovIndirectData => transfer::step_mov_rn_indirect_addr(s, op, arg0, arg1),
        Operation::MovRnData => transfer::step_mov_rn_addr(s, op, arg0, arg1),
        Operation::CplBit => boolean::step_cpl_bit(s, op, arg0, arg1),
        Operation::CjneAConst => branching::step_cjne_a_const_code(s, op, arg0, arg1),
        Operation::CjneAData => branching::step_cjne_a_data_code(s, op, arg0, arg1),
        Operation::CjneIndirectConst => branching::step_cjne_rn_indirect_const_code(
            s,
            op,
            arg0,
            arg1,
        ),
        Operation::CjneRnConst => branching::step_cjne_rn_const_code(s, op, arg0, arg1),
        Operation::PushData => transfer::step_push_data(s, op, arg0, arg1),
        Operation::ClrBit => boolean::step_clr_bit(s, op, arg0, arg1),
        Operation::PopData => transfer::step_pop_data(s, op, arg0, arg1),
        Operation::SetbBit => boolean::step_setb_bit(s, op, arg0, arg1),
        Operation::DjnzData => branching::step_djnz_data_code(s, op, arg0, arg1),
        Operation::DjnzRn => branching::step_djnz_rn_code(s, op, arg0, arg1),
        Operation::MovxADptr => transfer::step_movx_a_dptr(s, op, arg0, arg1),
        Operation::MovAData => transfer::step_mov_a_addr(s, op, arg0, arg1),
        Operation::MovAIndirect => transfer::step_mov_a_rn_indirect(s, op, arg0, arg1),
        Operation::MovARn => transfer::step_mov_a_rn(s, op, arg0, arg1),
        Operation::MovxDptrA => transfer::step_movx_dptr_a(s, op, arg0, arg1),
        Operation::MovDataA => transfer::step_mov_data_a(s, op, arg0, arg1),
        Operation::MovIndirectA => transfer::step_mov_rn_indirect_a(s, op, arg0, arg1),
        Operation::MovRnA => transfer::step_mov_rn_a(s, op, arg0, arg1),
        _ => branching::step_unimplemented(s, op, arg0, arg1),
    }
}

/// What executing the instruction with the opcode byte `op` leads to. A byte
/// that encodes no operation fails with `UnknownInstruction` and changes
/// nothing.
pub open spec fn step(s: State, op: u8, arg0: Option<u8>, arg1: Option<u8>) -> Outcome {
    match Operation::of(op) {
        Some(operation) => execute(s, operation, op, arg0, arg1),
        None => Outcome::fail(s, ErrorType::UnknownInstruction),
    }
}

/// The byte of code memory `offset` cells behind the counter, if code memory
/// reaches that far.
pub open spec fn code_at(s: State, offset: int) -> Option<u8> {
    if s.pc + offset < MEMORY_FLASH_SIZE {
        Some(s.mem.code[s.pc + offset])
    } else {
        None
    }
}

/// The first operand byte of the instruction at the counter: the byte behind
/// the opcode, where the instruction has operands and code memory reaches that
/// far.
pub open spec fn operand0(s: State) -> Option<u8> {
    if instruction_length(s.mem.code[s.pc as int]) >= 2 {
        code_at(s, 1)
    } else {
        None
    }
}

/// The second operand byte of the instruction at the counter, where the
/// instruction has two operands and code memory reaches that far.
pub open spec fn operand1(s: State) -> Option<u8> {
    if instruction_length(s.mem.code[s.pc as int]) >= 3 {
        code_at(s, 2)
    } else {
        None
    }
}

/// The machine after a handler has run and the counter was treated as the
/// handler asked, for an instruction of `length` bytes.
pub open spec fn settle(outcome: Outcome, length: int) -> State {
    match outcome.result {
        Ok(PC::ADVANCE) => outcome.state.advance(length),
        Ok(PC::SKIP) => outcome.state.advance(length + 1),
        Ok(PC::JUMP) => outcome.state,
        Err(_) => outcome.state,
    }
}

/// What the result of a handler becomes as the result of a cycle.
pub open spec fn cycle_result(outcome: Outcome) -> Result<(), RuntimeError> {
    match outcome.result {
        Ok(_) => Ok(()),
        Err(e) => Err(e),
    }
}

/// What the handler of the instruction at the counter leads to, with the
/// operand bytes that follow the opcode in code memory.
#[verifier::opaque]
pub open spec fn fetched_step(s: State) -> Outcome {
    step(s, s.mem.code[s.pc as int], operand0(s), operand1(s))
}

/// The machine after one cycle. A processor without a program, a halted
/// processor and a counter beyond code memory leave the machine as it is.
pub open spec fn after_cycle(s: State) -> State {
    if !s.initialized || s.halted || s.pc >= MEMORY_FLASH_SIZE {
        s
    } else {
        settle(fetched_step(s), instruction_length(s.mem.code[s.pc as int]) as int)
    }
}

/// The result of one cycle: `UninitializedCPU` without a program; nothing to
/// report for a halted processor, which does not step; `InvalidAddr` for a
/// counter beyond code memory; otherwise what the handler reports.
pub open spec fn result_of_cycle(s: State) -> Result<(), RuntimeError> {
    if !s.initialized {
        Err(RuntimeError { error_type: ErrorType::UninitializedCPU })
    } else if s.halted {
        Ok(())
    } else if s.pc >= MEMORY_FLASH_SIZE {
        Err(RuntimeError { error_type: ErrorType::InvalidAddr })
    } else {
        cycle_result(fetched_step(s))
    }
}

/// The machine after a run of at most `limit` cycles: the run ends when the
/// processor is halted, and a cycle that fails halts it.
pub open spec fn after_run(s: State, limit: nat) -> State
    decreases limit,
{
    if limit == 0 || s.halted {
        s
    } else if result_of_cycle(s) is Err {
        after_cycle(s).halt()
    } else {
        after_run(after_cycle(s), (limit - 1) as nat)
    }
}

/// The result of a run of at most `limit` cycles: the number of cycles that
/// succeeded, or the failure of the cycle that ended the run.
pub open spec fn result_of_run(s: State, limit: nat) -> Result<nat, RuntimeError>
    decreases limit,
{
    if limit == 0 || s.halted {
        Ok(0)
    } else {
        match result_of_cycle(s) {
            Err(e) => Err(e),
            Ok(()) => match result_of_run(after_cycle(s), (limit - 1) as nat) {
                Ok(n) => Ok(n + 1),
                Err(e) => Err(e),
            },
        }
    }
}

/// The result of a run, counted from a run that has `done` cycles behind it.
pub open spec fn counted_from(result: Result<nat, RuntimeError>, done: nat) -> Result<
    nat,
    RuntimeError,
> {
    match result {
        Ok(n) => Ok(n + done),
        Err(e) => Err(e),
    }
}

impl CPU {
    /// Executes one instruction on the operands given: hands it to the handler
    /// of its operation. The counter is left to the caller unless the handler
    /// sets it.
    pub fn run_instruction(&mut self, insn: Instruction, arg0: Option<u8>, arg1: Option<u8>) -> (r:
        Result<PC, RuntimeError>)
        ensures
            (Outcome { state: final(self)@, result: r }) == step(old(self)@, insn@, arg0, arg1),
    {
        match insn.operation()? {
            Operation::Nop => branching::insn_nop(self, insn, arg0, arg1),
            Operation::Ajmp => branching::insn_ajmp(self, insn, arg0, arg1),
            Operation::Ljmp => branching::insn_ljmp(self, insn, arg0, arg1),
            Operation::RrA => logical::insn_rr_a(self, insn, arg0, arg1),
            Operation::IncA => arithmetic::insn_inc_a(self, insn, arg0, arg1),
            Operation::IncData => arithmetic::insn_inc_data(self, insn, arg0, arg1),
            Operation::IncIndirect => arithmetic::insn_inc_rn_indirect(self, insn, arg0, arg1),
            Operation::IncRn => arithmetic::insn_inc_rn(self, insn, arg0, arg1),
            Operation::Jbc => branching::insn_jbc_bit_code(self, insn, arg0, arg1),
            Operation::Acall => branching::insn_acall(self, insn, arg0, arg1),
            Operation::Lcall => branching::insn_lcall(self, insn, arg0, arg1),
            Operation::RrcA => logical::insn_rrc_a(self, insn, arg0, arg1),
            Operation::DecRn => arithmetic::insn_dec_rn(self, insn, arg0, arg1),
            Operation::Jb => branching::insn_jb_bit_code(self, insn, arg0, arg1),
            Operation::Ret => branching::insn_ret(self, insn, arg0, arg1),
            Operation::RlA => logical::insn_rl_a(self, insn, arg0, arg1),
            Operation::AddAConst => arithmetic::insn_add_a_const(self, insn, arg0, arg1),
            Operation::AddAData => arithmetic::insn_add_a_addr(self, insn, arg0, arg1),
            Operation::AddAIndirect => arithmetic::insn_add_a_rn_indirect(self, insn, arg0, arg1),
            Operation::AddARn => arithmetic::insn_add_a_rn(self, insn, arg0, arg1),
            Operation::Jnb => branching::insn_jnb_bit_code(self, insn, arg0, arg1),
            Operation::Reti => branching::insn_reti(self, insn, arg0, arg1),
            Operation::RlcA => logical::insn_rlc_a(self, insn, arg0, arg1),
            Operation::AddcAConst => arithmetic::insn_addc_a_const(self, insn, arg0, arg1),
            Operation::AddcAData => arithmetic::insn_addc_a_addr(self, insn, arg0, arg1),
            Operation::AddcAIndirect => arithmetic::insn_addc_a_rn_indirect(self, insn, arg0, arg1),
            Operation::AddcARn => arithmetic::insn_addc_a_rn(self, insn, arg0, arg1),
            Operation::Jc => branching::insn_jc(self, insn, arg0, arg1),
            Operation::OrlDataA => logical::insn_orl_data_a(self, insn, arg0, arg1),
            Operation::OrlDataConst => logical::insn_orl_data_const(self, insn, arg0, arg1),
            Operation::OrlAConst => logical::insn_orl_a_const(self, insn, arg0, arg1),
            Operation::OrlAData => logical::insn_orl_a_addr(self, insn, arg0, arg1),
            Operation::OrlAIndirect => logical::insn_orl_a_rn_indirect(self, insn, arg0, arg1),
            Operation::OrlARn => logical::insn_orl_a_rn(self, insn, arg0, arg1),
            Operation::Jnc => branching::insn_jnc(self, insn, arg0, arg1),
            Operation::AnlDataA => logical::insn_anl_data_a(self, insn, arg0, arg1),
            Operation::AnlDataConst => logical::insn_anl_data_const(self, insn, arg0, arg1),
            Operation::AnlAConst => logical::insn_anl_a_const(self, insn, arg0, arg1),
            Operation::AnlAData => logical::insn_anl_a_addr(self, insn, arg0, arg1),
            Operation::AnlAIndirect => logical::insn_anl_a_rn_indirect(self, insn, arg0, arg1),
            Operation::AnlARn => logical::insn_anl_a_rn(self, insn, arg0, arg1),
            Operation::Jz => branching::insn_jz(self, insn, arg0, arg1),
            Operation::XrlDataA => logical::insn_xrl_data_a(self, insn, arg0, arg1),
            Operation::XrlDataConst => logical::insn_xrl_data_const(self, insn, arg0, arg1),
            Operation::XrlAConst => logical::insn_xrl_a_const(self, insn, arg0, arg1),
            Operation::XrlAData => logical::insn_xrl_a_addr(self, insn, arg0, arg1),
            Operation::XrlAIndirect => logical::insn_xrl_a_rn_indirect(self, insn, arg0, arg1),
            Operation::XrlARn => logical::insn_xrl_a_rn(self, insn, arg0, arg1),
            Operation::Jnz => branching::insn_jnz(self, insn, arg0, arg1),
            Operation::OrlCBit => boolean::insn_orl_c_bit(self, insn, arg0, arg1),
            Operation::MovAConst => transfer::insn_mov_a_const(self, insn, arg0, arg1),
            Operation::MovDataConst => transfer::insn_mov_data_const(self, insn, arg0, arg1),
            Operation::MovIndirectConst => transfer::insn_mov_rn_indirect_const(
                self,
                insn,
                arg0,
                arg1,
            ),
            Operation::MovRnConst => transfer::insn_mov_rn_const(self, insn, arg0, arg1),
            Operation::Sjmp => branching::insn_sjmp(self, insn, arg0, arg1),
            Operation::AnlCBit => boolean::insn_anl_c_bit(self, insn, arg0, arg1),
            Operation::MovDataData => transfer::insn_mov_data_data(self, insn, arg0, arg1),
            Operation::MovDataIndirect => transfer::insn_mov_data_rn_indirect(
                self,
                insn,
                arg0,
                arg1,
            ),
            Operation::MovDataRn => transfer::insn_mov_data_rn(self, insn, arg0, arg1),
            Operation::MovDptrConst => transfer::insn_mov_dptr_const(self, insn, arg0, arg1),
            Operation::MovBitC => boolean::insn_mov_bit_c(self, insn, arg0, arg1),
            Operation::MovcADptr => transfer::insn_movc_a_dptr(self, insn, arg0, arg1),
            Operation::SubbAConst => arithmetic::insn_subb_a_const(self, insn, arg0, arg1),
            Operation::SubbAData => arithmetic::insn_subb_a_addr(self, insn, arg0, arg1),
            Operation::SubbAIndirect => arithmetic::insn_subb_a_rn_indirect(self, insn, arg0, arg1),
            Operation::SubbARn => arithmetic::insn_subb_a_rn(self, insn, arg0, arg1),
            Operation::MovCBit => boolean::insn_mov_c_bit(self, insn, arg0, arg1),
            Operation::IncDptr => arithmetic::insn_inc_dptr(self, insn, arg0, arg1),
            Operation::MovIndirectData => transfer::insn_mov_rn_indirect_addr(
                self,
                insn,
                arg0,
                arg1,
            ),
            Operation::MovRnData => transfer::insn_mov_rn_addr(self, insn, arg0, arg1),
            Operation::CplBit => boolean::insn_cpl_bit(self, insn, arg0, arg1),
            Operation::CjneAConst => branching::insn_cjne_a_const_code(self, insn, arg0, arg1),
            Operation::CjneAData => branching::insn_cjne_a_data_code(self, insn, arg0, arg1),
            Operation::CjneIndirectConst => branching::insn_cjne_rn_indirect_const_code(
                self,
                insn,
                arg0,
                arg1,
            ),
            Operation::CjneRnConst => branching::insn_cjne_rn_const_code(self, insn, arg0, arg1),
            Operation::PushData => transfer::insn_push_data(self, insn, arg0, arg1),
            Operation::ClrBit => boolean::insn_clr_bit(self, insn, arg0, arg1),
            Operation::PopData => transfer::insn_pop_data(self, insn, arg0, arg1),
            Operation::SetbBit => boolean::insn_setb_bit(self, insn, arg0, arg1),
            Operation::DjnzData => branching::insn_djnz_data_code(self, insn, arg0, arg1),
            Operation::DjnzRn => branching::insn_djnz_rn_code(self, insn, arg0, arg1),
            Operation::MovxADptr => transfer::insn_movx_a_dptr(self, insn, arg0, arg1),
            Operation::MovAData => transfer::insn_mov_a_addr(self, insn, arg0, arg1),
            Operation::MovAIndirect => transfer::insn_mov_a_rn_indirect(self, insn, arg0, arg1),
            Operation::MovARn => transfer::insn_mov_a_rn(self, insn, arg0, arg1),
            Operation::MovxDptrA => transfer::insn_movx_dptr_a(self, insn, arg0, arg1),
            Operation::MovDataA => transfer::insn_mov_data_a(self, insn, arg0, arg1),
            Operation::MovIndirectA => transfer::insn_mov_rn_indirect_a(self, insn, arg0, arg1),
            Operation::MovRnA => transfer::insn_mov_rn_a(self, insn, arg0, arg1),
            _ => branching::insn_unimplemented(self, insn, arg0, arg1),
        }
    }

    /// The byte of code memory `offset` cells behind the counter, if code
    /// memory reaches that far.
    fn fetch(&self, offset: u16) -> (r: Option<u8>)
        requires
            offset <= 2,
        ensures
            r == code_at(self@, offset as int),
    {
        let addr: u32 = self.get_pc() as u32 + offset as u32;
        if addr < MEMORY_FLASH_SIZE as u32 {
            match self.read_code(addr as u16) {
                Ok(byte) => Some(byte),
                Err(_) => None,
            }
        } else {
            None
        }
    }

    /// Executes the instruction at the counter: fetches the opcode and its
    /// operands, runs the handler, and moves the counter on as the handler
    /// asks.
    pub fn cycle(&mut self) -> (r: Result<(), RuntimeError>)
        ensures
            final(self)@ == after_cycle(old(self)@),
            r == result_of_cycle(old(self)@),
    {
        proof {
            reveal(fetched_step);
        }
        if !self.is_initialized() {
            return Err(RuntimeError::new(ErrorType::UninitializedCPU));
        }
        if self.is_halted() {
            return Ok(());
        }
        let insn = Instruction::new(self.read_code(self.get_pc())?);
        let insn_bytes = insn.bytes();
        let arg0 = if insn_bytes >= 2 {
            self.fetch(1)
        } else {
            None
        };
        let arg1 = if insn_bytes >= 3 {
            self.fetch(2)
        } else {
            None
        };
        match self.run_instruction(insn, arg0, arg1) {
            Ok(PC::ADVANCE) => {
                self.advance(insn_bytes as u16);
                Ok(())
            },
            Ok(PC::SKIP) => {
                self.advance(insn_bytes as u16 + 1);
                Ok(())
            },
            Ok(PC::JUMP) => Ok(()),
            Err(e) => Err(e),
        }
    }

    /// Runs the program for at most `limit` cycles. The run ends early when the
    /// processor is halted; a cycle that fails halts the processor and ends the
    /// run with its failure. Otherwise the result is the number of cycles run.
    pub fn run(&mut self, limit: u64) -> (r: Result<u64, RuntimeError>)
        ensures
            final(self)@ == after_run(old(self)@, limit as nat),
            match r {
                Ok(n) => result_of_run(old(self)@, limit as nat) == Ok::<nat, RuntimeError>(
                    n as nat,
                ),
                Err(e) => result_of_run(old(self)@, limit as nat) == Err::<nat, RuntimeError>(e),
            },
    {
        let mut done: u64 = 0;
        while done < limit && !self.is_halted()
            invariant
                done <= limit,
                after_run(old(self)@, limit as nat) == after_run(self@, (limit - done) as nat),
                result_of_run(old(self)@, limit as nat) == counted_from(
                    result_of_run(self@, (limit - done) as nat),
                    done as nat,
                ),
            decreases limit - done,
        {
            match self.cycle() {
                Ok(()) => {
                    done += 1;
                },
                Err(e) => {
                    self.halt();
                    return Err(e);
                },
            }
        }
        Ok(done)
    }
}

/// Whether the relative branch of `operation` is taken, for the conditional
/// and unconditional relative branches of the instruction set.
pub open spec fn branch_taken(s: State, operation: Operation, op: u8, arg0: u8) -> bool {
    match operation {
        Operation::Sjmp => true,
        Operation::Jz => s.acc() == 0,
        Operation::Jnz => s.acc() != 0,
        Operation::Jc => s.carry(),
        Operation::Jnc => !s.carry(),
        Operation::Jb | Operation::Jbc => s.bit(arg0),
        Operation::Jnb => !s.bit(arg0),
        Operation::CjneAConst => s.acc() != arg0,
        Operation::CjneAData => s.acc() != s.read(arg0),
        Operation::CjneIndirectConst => s.read(s.reg(op % 2)) != arg0,
        Operation::CjneRnConst => s.reg(op % 8) != arg0,
        Operation::DjnzRn => arithmetic::decremented(s.reg(op % 8)) != 0,
        _ => false,
    }
}

/// The operations that branch by a relative operand and pass their whole
/// instruction first.
pub open spec fn is_relative_branch(operation: Operation) -> bool {
    match operation {
        Operation::Sjmp
        | Operation::Jz
        | Operation::Jnz
        | Operation::Jc
        | Operation::Jnc
        | Operation::Jb
        | Operation::Jbc
        | Operation::Jnb
        | Operation::CjneAConst
        | Operation::CjneAData
        | Operation::CjneIndirectConst
        | Operation::CjneRnConst
        | Operation::DjnzRn => true,
        _ => false,
    }
}

/// A relative branch, run at the counter `P`, leaves the counter at `P` plus
/// the length of the instruction where it is not taken, and moves it on from
/// there by its last operand byte, read as a two's-complement number, where it
/// is taken.
pub proof fn lemma_relative_branch(s: State, operation: Operation, op: u8, arg0: u8, arg1: u8)
    requires
        is_relative_branch(operation),
    ensures
        execute(s, operation, op, Some(arg0), Some(arg1)).result == Ok::<PC, RuntimeError>(
            PC::JUMP,
        ),
        execute(s, operation, op, Some(arg0), Some(arg1)).state.pc == s.pc_plus(
            operation.length() + (if branch_taken(s, operation, op, arg0) {
                crate::bits::signed_value(
                    if operation.length() == 2 {
                        arg0
                    } else {
                        arg1
                    },
                )
            } else {
                0
            }),
        ),
{
    crate::addr::lemma_decoded_byte_is_bit_addressable(arg0);
}

} // verus!
