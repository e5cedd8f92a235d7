//! The mathematical model of the machine, over which every contract of the
//! emulator is stated.

use vstd::prelude::*;
use crate::addr::{decoded_byte, decoded_index};
use crate::bits::{bit_is_set, lemma_with_bit, signed_value, with_bit};
use crate::cpu::PC;
use crate::error::{ErrorType, RuntimeError};
use crate::registers::SFR;

verus! {

/// The number of cells of code memory.
pub const MEMORY_FLASH_SIZE: usize = 0xFFFF;

/// The number of cells of internal data; the upper half holds the special
/// function registers.
pub const MEMORY_RAM_SIZE: usize = 0x100;

/// The number of cells of external data.
pub const MEMORY_XRAM_SIZE: usize = 0x1000;

/// The three memories of the machine.
pub struct MemoryState {
    /// Code memory, read-only once a program is loaded.
    pub code: Seq<u8>,
    /// Internal data.
    pub idata: Seq<u8>,
    /// External data.
    pub xdata: Seq<u8>,
}

impl MemoryState {
    /// Each memory has its fixed size.
    pub open spec fn wf(self) -> bool {
        &&& self.code.len() == MEMORY_FLASH_SIZE
        &&& self.idata.len() == MEMORY_RAM_SIZE
        &&& self.xdata.len() == MEMORY_XRAM_SIZE
    }

    /// Memories in which every cell holds zero.
    pub open spec fn zeroed() -> MemoryState {
        MemoryState {
            code: Seq::new(MEMORY_FLASH_SIZE as nat, |i: int| 0u8),
            idata: Seq::new(MEMORY_RAM_SIZE as nat, |i: int| 0u8),
            xdata: Seq::new(MEMORY_XRAM_SIZE as nat, |i: int| 0u8),
        }
    }

    /// The cell of internal data at `addr`.
    pub open spec fn read(self, addr: u8) -> u8 {
        self.idata[addr as int]
    }

    /// The memories after `val` is stored in the cell of internal data at `addr`.
    pub open spec fn write(self, addr: u8, val: u8) -> MemoryState {
        MemoryState { idata: self.idata.update(addr as int, val), ..self }
    }

    /// The special function register `sfr`.
    pub open spec fn sfr(self, sfr: SFR) -> u8 {
        self.read(sfr.location())
    }

    /// The memories after `val` is stored in the special function register `sfr`.
    pub open spec fn set_sfr(self, sfr: SFR, val: u8) -> MemoryState {
        self.write(sfr.location(), val)
    }

    /// The selected register bank: the two bank-select bits of the status word,
    /// bit 4 above bit 3.
    pub open spec fn bank(self) -> u8 {
        ((self.sfr(SFR::PSW) / 8) % 4) as u8
    }

    /// The address in internal data of register `n` of the selected bank.
    pub open spec fn reg_addr(self, n: u8) -> u8
        recommends
            n < 8,
    {
        (8 * self.bank() + n) as u8
    }

    /// Register `n` of the selected bank.
    pub open spec fn reg(self, n: u8) -> u8
        recommends
            n < 8,
    {
        self.read(self.reg_addr(n))
    }

    /// The memories after `val` is stored in register `n` of the selected bank.
    pub open spec fn set_reg(self, n: u8, val: u8) -> MemoryState
        recommends
            n < 8,
    {
        self.write(self.reg_addr(n), val)
    }

    /// Bit `index` of the byte of internal data at `byte`.
    pub open spec fn bit_at(self, byte: u8, index: u8) -> bool
        recommends
            index < 8,
    {
        bit_is_set(self.read(byte), index)
    }

    /// The memories after `value` is stored in bit `index` of the byte of
    /// internal data at `byte`.
    pub open spec fn set_bit_at(self, byte: u8, index: u8, value: bool) -> MemoryState
        recommends
            index < 8,
    {
        self.write(byte, with_bit(self.read(byte), index, value))
    }

    /// The bit with address `bit_addr`.
    pub open spec fn bit(self, bit_addr: u8) -> bool {
        self.bit_at(decoded_byte(bit_addr), decoded_index(bit_addr))
    }

    /// The memories after `value` is stored in the bit with address `bit_addr`.
    pub open spec fn set_bit(self, bit_addr: u8, value: bool) -> MemoryState {
        self.set_bit_at(decoded_byte(bit_addr), decoded_index(bit_addr), value)
    }

    /// The memories after the registers that a reset defines have their reset
    /// values.
    pub open spec fn reset_registers(self) -> MemoryState {
        self.set_sfr(SFR::ADC0CF, 0xF8).set_sfr(SFR::ADC0GTH, 0xFF).set_sfr(
            SFR::ADC0GTL,
            0xFF,
        ).set_sfr(SFR::CPT0MD, 0x02).set_sfr(SFR::CPT1MD, 0x02).set_sfr(SFR::SP, 0x07).set_sfr(
            SFR::IT01CF,
            0x01,
        ).set_sfr(SFR::PFE0CN, 0x20).set_sfr(SFR::ACC, 0x00)
    }

    /// The memories after `program` is stored in code memory from cell 0 on.
    pub open spec fn load(self, program: Seq<u8>) -> MemoryState
        recommends
            program.len() <= self.code.len(),
    {
        MemoryState {
            code: Seq::new(
                self.code.len(),
                |i: int|
                    if i < program.len() {
                        program[i]
                    } else {
                        self.code[i]
                    },
            ),
            ..self
        }
    }
}

/// The machine: its program counter, its memories and its lifecycle flags.
pub struct State {
    /// The program counter.
    pub pc: u16,
    /// The memories.
    pub mem: MemoryState,
    /// Whether the processor was halted; a halted processor does not step.
    pub halted: bool,
    /// Whether a program was loaded.
    pub initialized: bool,
}

impl State {
    /// Each memory of the machine has its fixed size.
    pub open spec fn wf(self) -> bool {
        self.mem.wf()
    }

    /// The machine as it is created: everything zero, nothing loaded.
    pub open spec fn created() -> State {
        State { pc: 0, mem: MemoryState::zeroed(), halted: false, initialized: false }
    }

    /// The machine with `mem` as its memories.
    pub open spec fn with_mem(self, mem: MemoryState) -> State {
        State { mem, ..self }
    }

    /// The cell of internal data at `addr`.
    pub open spec fn read(self, addr: u8) -> u8 {
        self.mem.read(addr)
    }

    /// The machine after `val` is stored in the cell of internal data at `addr`.
    pub open spec fn write(self, addr: u8, val: u8) -> State {
        self.with_mem(self.mem.write(addr, val))
    }

    /// The special function register `sfr`.
    pub open spec fn sfr(self, sfr: SFR) -> u8 {
        self.mem.sfr(sfr)
    }

    /// The machine after `val` is stored in the special function register `sfr`.
    pub open spec fn set_sfr(self, sfr: SFR, val: u8) -> State {
        self.with_mem(self.mem.set_sfr(sfr, val))
    }

    /// Register `n` of the selected bank.
    pub open spec fn reg(self, n: u8) -> u8 {
        self.mem.reg(n)
    }

    /// The machine after `val` is stored in register `n` of the selected bank.
    pub open spec fn set_reg(self, n: u8, val: u8) -> State {
        self.with_mem(self.mem.set_reg(n, val))
    }

    /// Bit `index` of the byte of internal data at `byte`.
    pub open spec fn bit_at(self, byte: u8, index: u8) -> bool {
        self.mem.bit_at(byte, index)
    }

    /// The machine after `value` is stored in bit `index` of the byte of
    /// internal data at `byte`.
    pub open spec fn set_bit_at(self, byte: u8, index: u8, value: bool) -> State {
        self.with_mem(self.mem.set_bit_at(byte, index, value))
    }

    /// The bit with address `bit_addr`.
    pub open spec fn bit(self, bit_addr: u8) -> bool {
        self.mem.bit(bit_addr)
    }

    /// The machine after `value` is stored in the bit with address `bit_addr`.
    pub open spec fn set_bit(self, bit_addr: u8, value: bool) -> State {
        self.with_mem(self.mem.set_bit(bit_addr, value))
    }

    /// The accumulator.
    pub open spec fn acc(self) -> u8 {
        self.sfr(SFR::ACC)
    }

    /// The machine after `val` is stored in the accumulator.
    pub open spec fn set_acc(self, val: u8) -> State {
        self.set_sfr(SFR::ACC, val)
    }

    /// The program status word.
    pub open spec fn psw(self) -> u8 {
        self.sfr(SFR::PSW)
    }

    /// The carry flag: bit 7 of the status word.
    pub open spec fn carry(self) -> bool {
        bit_is_set(self.psw(), 7)
    }

    /// The machine after the carry flag is written; the other bits of the
    /// status word stay.
    pub open spec fn set_carry(self, carry: bool) -> State {
        self.set_sfr(SFR::PSW, with_bit(self.psw(), 7, carry))
    }

    /// The machine after the three arithmetic flags are written: carry is bit 7
    /// of the status word, auxiliary carry bit 6 and overflow bit 2. The other
    /// bits of the status word stay.
    pub open spec fn set_flags(self, carry: bool, auxiliary_carry: bool, overflow: bool) -> State {
        self.set_sfr(
            SFR::PSW,
            with_bit(with_bit(with_bit(self.psw(), 7, carry), 6, auxiliary_carry), 2, overflow),
        )
    }

    /// The stack pointer.
    pub open spec fn sp(self) -> u8 {
        self.sfr(SFR::SP)
    }

    /// The data pointer: its high register above its low register.
    pub open spec fn dptr(self) -> u16 {
        (self.sfr(SFR::DPH) * 256 + self.sfr(SFR::DPL)) as u16
    }

    /// The machine after `val` is pushed: the stack pointer is incremented
    /// first, then `val` is stored in the cell that it names.
    pub open spec fn push(self, val: u8) -> State {
        let sp = ((self.sp() + 1) % 256) as u8;
        self.set_sfr(SFR::SP, sp).write(sp, val)
    }

    /// The byte on top of the stack.
    pub open spec fn top(self) -> u8 {
        self.read(self.sp())
    }

    /// The machine after the top of the stack is taken off: the stack pointer is
    /// decremented.
    pub open spec fn drop_top(self) -> State {
        self.set_sfr(SFR::SP, ((self.sp() + 255) % 256) as u8)
    }

    /// The machine with its counter at `pc`.
    pub open spec fn set_pc(self, pc: u16) -> State {
        State { pc, ..self }
    }

    /// The counter `n` cells further on, modulo the size of the address space.
    pub open spec fn pc_plus(self, n: int) -> u16 {
        ((self.pc + n) % 0x10000) as u16
    }

    /// The machine with its counter `n` cells further on.
    pub open spec fn advance(self, n: int) -> State {
        self.set_pc(self.pc_plus(n))
    }

    /// The machine after a relative branch of an instruction that is `n` bytes
    /// long: the counter passes the instruction and, where the branch is taken,
    /// moves on by the operand `rel` read as a two's-complement number.
    pub open spec fn branch(self, n: int, rel: u8, taken: bool) -> State {
        if taken {
            self.advance(n + signed_value(rel))
        } else {
            self.advance(n)
        }
    }

    /// The halted machine.
    pub open spec fn halt(self) -> State {
        State { halted: true, ..self }
    }

    /// The machine after `program` is loaded: code memory and internal data
    /// are zeroed, the program stands in code memory from cell 0 on, the
    /// registers that a reset defines have their reset values, and the
    /// processor holds a program. External data, the counter and the halt flag
    /// stay.
    pub open spec fn loaded(self, program: Seq<u8>) -> State
        recommends
            program.len() <= MEMORY_FLASH_SIZE,
    {
        State {
            mem: (MemoryState { xdata: self.mem.xdata, ..MemoryState::zeroed() }).load(
                program,
            ).reset_registers(),
            initialized: true,
            ..self
        }
    }
}

/// A bit that was written reads back as it was written; no other bit of its
/// byte and no other byte of internal data changes.
pub proof fn lemma_bit_round_trip(s: State, byte: u8, index: u8, value: bool)
    requires
        s.wf(),
        index < 8,
    ensures
        s.set_bit_at(byte, index, value).bit_at(byte, index) == value,
        forall|other: u8|
            other < 8 && other != index ==> #[trigger] s.set_bit_at(byte, index, value).bit_at(
                byte,
                other,
            ) == s.bit_at(byte, other),
        forall|addr: u8|
            addr != byte ==> #[trigger] s.set_bit_at(byte, index, value).read(addr) == s.read(addr),
        s.set_bit_at(byte, index, value).wf(),
{
    lemma_with_bit(s.read(byte), index, value);
}

/// A byte that was pushed is on top of the stack, and taking it off leaves the
/// stack pointer where it was. This holds unless the cell that receives the
/// byte is the stack pointer itself.
pub proof fn lemma_push_then_pop(s: State, val: u8)
    requires
        s.wf(),
        (s.sp() + 1) % 256 != SFR::SP.location(),
    ensures
        s.push(val).top() == val,
        s.push(val).drop_top().sp() == s.sp(),
        s.push(val).drop_top().wf(),
{
}

/// Writing the arithmetic flags writes exactly those three: every other bit of
/// the status word and every other cell of internal data stays.
pub proof fn lemma_flags_keep_other_bits(
    s: State,
    carry: bool,
    auxiliary_carry: bool,
    overflow: bool,
)
    requires
        s.wf(),
    ensures
        bit_is_set(s.set_flags(carry, auxiliary_carry, overflow).psw(), 7) == carry,
        bit_is_set(s.set_flags(carry, auxiliary_carry, overflow).psw(), 6) == auxiliary_carry,
        bit_is_set(s.set_flags(carry, auxiliary_carry, overflow).psw(), 2) == overflow,
        forall|other: u8|
            other < 8 && other != 7 && other != 6 && other != 2 ==> #[trigger] bit_is_set(
                s.set_flags(carry, auxiliary_carry, overflow).psw(),
                other,
            ) == bit_is_set(s.psw(), other),
        forall|addr: u8|
            addr != SFR::PSW.location() ==> #[trigger] s.set_flags(
                carry,
                auxiliary_carry,
                overflow,
            ).read(addr) == s.read(addr),
{
    let first = with_bit(s.psw(), 7, carry);
    let second = with_bit(first, 6, auxiliary_carry);
    lemma_with_bit(s.psw(), 7, carry);
    lemma_with_bit(first, 6, auxiliary_carry);
    lemma_with_bit(second, 2, overflow);
}

/// What executing one instruction leads to: the machine afterwards and, as the
/// handler's result, how the counter is to be treated, or the failure.
pub struct Outcome {
    pub state: State,
    pub result: Result<PC, RuntimeError>,
}

impl Outcome {
    /// The instruction is done and the counter is still to pass it.
    pub open spec fn advance(state: State) -> Outcome {
        Outcome { state, result: Ok(PC::ADVANCE) }
    }

    /// The instruction is done and has set the counter itself.
    pub open spec fn jump(state: State) -> Outcome {
        Outcome { state, result: Ok(PC::JUMP) }
    }

    /// The instruction failed and left the machine as `state`.
    pub open spec fn fail(state: State, error_type: ErrorType) -> Outcome {
        Outcome { state, result: Err(RuntimeError { error_type }) }
    }
}

} // verus!
