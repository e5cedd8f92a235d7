//! The processor: the machine state, the accessors through which everything
//! else reads and changes it, and its lifecycle.

use vstd::prelude::*;
use crate::addr::{Addr16, Addr8, BitAddr};
use crate::bits::bit_addressable;
use crate::error::{ErrorType, LoadError, RuntimeError};
use crate::image::{decode_image, image_program};
use crate::memory::Memory;
use crate::registers::{GPR, SFR};
use crate::state::{MemoryState, State, MEMORY_FLASH_SIZE, MEMORY_XRAM_SIZE};

verus! {

/// What the fetch loop is to do with the program counter after a handler has
/// run.
#[derive(Debug, Clone, Copy, PartialEq, Eq, Structural)]
pub enum PC {
    /// Move the counter on by the length of the instruction.
    ADVANCE,
    /// Move the counter on by the length of the instruction and one more.
    SKIP,
    /// Leave the counter: the handler has set it.
    JUMP,
}

/// The power management modes of the processor, selected by writing 1 (idle) or
/// 2 (stop) to the power control register.
#[derive(Debug, Clone, Copy, PartialEq, Eq, Structural)]
pub enum PowerManagementMode {
    /// No power management mode is selected.
    Normal,
    /// The processor clock is stopped; all other clocks run on.
    Idle,
    /// All clocks are stopped.
    Stop,
}

impl PowerManagementMode {
    /// The mode that a value of the power control register selects.
    pub open spec fn selected_by(pcon: u8) -> PowerManagementMode {
        if pcon == 1 {
            PowerManagementMode::Idle
        } else if pcon == 2 {
            PowerManagementMode::Stop
        } else {
            PowerManagementMode::Normal
        }
    }

    /// The name of each mode.
    pub open spec fn name(self) -> Seq<char> {
        match self {
            PowerManagementMode::Normal => "No Mode"@,
            PowerManagementMode::Idle => "Idle Mode"@,
            PowerManagementMode::Stop => "Stop Mode"@,
        }
    }

    /// The mode that a value of the power control register selects.
    pub fn from_pcon(pcon: u8) -> (r: PowerManagementMode)
        ensures
            r == Self::selected_by(pcon),
    {
        if pcon == 1 {
            PowerManagementMode::Idle
        } else if pcon == 2 {
            PowerManagementMode::Stop
        } else {
            PowerManagementMode::Normal
        }
    }

    /// The name of the mode, as text.
    pub fn as_str(&self) -> (s: &'static str)
        ensures
            s@ == self.name(),
    {
        match self {
            PowerManagementMode::Normal => "No Mode",
            PowerManagementMode::Idle => "Idle Mode",
            PowerManagementMode::Stop => "Stop Mode",
        }
    }
}

/// The processor with its memories.
#[derive(Debug)]
pub struct CPU {
    pc: Addr16,
    data: Memory,
    halt: bool,
    initialized: bool,
}

impl View for CPU {
    type V = State;

    closed spec fn view(&self) -> State {
        State { pc: self.pc@, mem: self.data@, halted: self.halt, initialized: self.initialized }
    }
}

impl Default for CPU {
    fn default() -> (cpu: Self)
        ensures
            cpu@ == State::created(),
    {
        CPU::new()
    }
}

impl CPU {
    /// The memories of a processor always have their fixed sizes.
    pub proof fn lemma_wf(&self)
        ensures
            self@.wf(),
    {
        self.data.lemma_wf();
    }

    /// A processor with zeroed memory that holds no program yet.
    pub fn new() -> (cpu: Self)
        ensures
            cpu@ == State::created(),
    {
        CPU { pc: Addr16::zero(), data: Memory::new(), halt: false, initialized: false }
    }

    /// The program counter.
    pub fn get_pc(&self) -> (pc: u16)
        ensures
            pc == self@.pc,
    {
        self.pc.as_u16()
    }

    /// Sets the program counter.
    pub fn set_pc(&mut self, pc: u16)
        ensures
            final(self)@ == old(self)@.set_pc(pc),
    {
        self.pc = Addr16::new(pc);
    }

    /// Whether the processor was halted.
    pub fn is_halted(&self) -> (r: bool)
        ensures
            r == self@.halted,
    {
        self.halt
    }

    /// Whether a program was loaded.
    pub fn is_initialized(&self) -> (r: bool)
        ensures
            r == self@.initialized,
    {
        self.initialized
    }

    /// Halts the processor: from now on it does not step.
    pub fn halt(&mut self)
        ensures
            final(self)@ == old(self)@.halt(),
    {
        self.halt = true;
    }

    /// Loads the program image `image` and marks the processor as holding a
    /// program. Fails with `MalformedHex` where the image holds no program, and
    /// with `ImageTooLarge` where its program has more bytes than code memory
    /// has cells; a failure changes nothing.
    pub fn init(&mut self, image: &[u8]) -> (r: Result<(), LoadError>)
        ensures
            match image_program(image@) {
                Some(program) => if program.len() <= MEMORY_FLASH_SIZE {
                    r == Ok::<(), LoadError>(()) && final(self)@ == old(self)@.loaded(program)
                } else {
                    r == Err::<(), LoadError>(LoadError::ImageTooLarge) && final(self)@ == old(
                        self,
                    )@
                },
                None => r == Err::<(), LoadError>(LoadError::MalformedHex) && final(self)@ == old(
                    self,
                )@,
            },
    {
        let program = decode_image(image)?;
        if program.len() > MEMORY_FLASH_SIZE {
            return Err(LoadError::ImageTooLarge);
        }
        self.data.clear();
        self.data.load_program(program.as_slice())?;
        self.data.reset_registers();
        self.initialized = true;
        Ok(())
    }

    /// Marks the processor as holding no program; its memory stays.
    pub fn reset(&mut self)
        ensures
            final(self)@ == (State { initialized: false, ..old(self)@ }),
    {
        self.initialized = false;
    }

    /// The memories, to read.
    pub fn memory(&self) -> (m: &Memory)
        ensures
            m@ == self@.mem,
    {
        &self.data
    }

    /// The memories, to change.
    pub fn get_memory(&mut self) -> (m: &mut Memory)
        ensures
            m@ == old(self)@.mem,
            final(self)@ == old(self)@.with_mem(final(m)@),
    {
        &mut self.data
    }

    /// The power management mode that the power control register selects.
    pub fn power_mode(&self) -> (r: PowerManagementMode)
        ensures
            r == PowerManagementMode::selected_by(self@.sfr(SFR::PCON)),
    {
        PowerManagementMode::from_pcon(self.data.get_sfr_reg(SFR::PCON))
    }

    /// The cell of internal data at `addr`.
    pub fn read(&self, addr: Addr8) -> (r: u8)
        ensures
            r == self@.read(addr@),
    {
        self.data.read(addr.as_u8())
    }

    /// Stores `val` in the cell of internal data at `addr`.
    pub fn write(&mut self, addr: Addr8, val: u8)
        ensures
            final(self)@ == old(self)@.write(addr@, val),
    {
        self.data.write(addr.as_u8(), val);
    }

    /// The bit at `addr`. Fails with `InvalidBitAddr` exactly when the byte that
    /// holds the bit is not bit-addressable.
    pub fn read_bit(&self, addr: BitAddr) -> (r: Result<bool, RuntimeError>)
        ensures
            bit_addressable(addr.byte_addr()) ==> r == Ok::<bool, RuntimeError>(
                self@.bit_at(addr.byte_addr(), addr.bit_index()),
            ),
            !bit_addressable(addr.byte_addr()) ==> r == Err::<bool, RuntimeError>(
                RuntimeError { error_type: ErrorType::InvalidBitAddr },
            ),
    {
        if !addr.is_bit_addressable() {
            return Err(RuntimeError::new(ErrorType::InvalidBitAddr));
        }
        let value = crate::bits::get_bit(self.read(addr.as_addr8()), addr.index() as usize);
        Ok(value)
    }

    /// Stores `val` in the bit at `addr`; the other bits of its byte stay. Fails
    /// with `InvalidBitAddr`, and changes nothing, exactly when the byte that
    /// holds the bit is not bit-addressable.
    pub fn write_bit(&mut self, addr: BitAddr, val: bool) -> (r: Result<(), RuntimeError>)
        ensures
            bit_addressable(addr.byte_addr()) ==> r == Ok::<(), RuntimeError>(()) && final(self)@
                == old(self)@.set_bit_at(addr.byte_addr(), addr.bit_index(), val),
            !bit_addressable(addr.byte_addr()) ==> r == Err::<(), RuntimeError>(
                RuntimeError { error_type: ErrorType::InvalidBitAddr },
            ) && final(self)@ == old(self)@,
    {
        if !addr.is_bit_addressable() {
            return Err(RuntimeError::new(ErrorType::InvalidBitAddr));
        }
        let bits = crate::bits::set_bit(self.read(addr.as_addr8()), addr.index() as usize, val);
        self.write(addr.as_addr8(), bits);
        Ok(())
    }

    /// The special function register `sfr`.
    pub fn get_sfr(&self, sfr: SFR) -> (r: u8)
        ensures
            r == self@.sfr(sfr),
    {
        self.data.get_sfr_reg(sfr)
    }

    /// Stores `val` in the special function register `sfr`.
    pub fn set_sfr(&mut self, sfr: SFR, val: u8)
        ensures
            final(self)@ == old(self)@.set_sfr(sfr, val),
    {
        self.data.set_sfr_reg(sfr, val);
    }

    /// Register `reg` of the selected bank.
    pub fn get_gpr(&self, reg: GPR) -> (r: u8)
        ensures
            r == self@.reg(reg.index()),
    {
        self.data.get_gpr_reg(reg)
    }

    /// Stores `val` in register `reg` of the selected bank.
    pub fn set_gpr(&mut self, reg: GPR, val: u8)
        ensures
            final(self)@ == old(self)@.set_reg(reg.index(), val),
    {
        self.data.set_gpr_reg(reg, val);
    }

    /// The cell of code memory at `addr`. Fails with `InvalidAddr` exactly when
    /// `addr` lies beyond the last cell.
    pub fn read_code(&self, addr: u16) -> (r: Result<u8, RuntimeError>)
        ensures
            addr < MEMORY_FLASH_SIZE ==> r == Ok::<u8, RuntimeError>(self@.mem.code[addr as int]),
            addr >= MEMORY_FLASH_SIZE ==> r == Err::<u8, RuntimeError>(
                RuntimeError { error_type: ErrorType::InvalidAddr },
            ),
    {
        self.data.read_code(Addr16::new(addr))
    }

    /// The cell of external data at `addr`. Fails with `InvalidAddr` exactly
    /// when `addr` lies beyond the last cell.
    pub fn read_xdata(&self, addr: u16) -> (r: Result<u8, RuntimeError>)
        ensures
            addr < MEMORY_XRAM_SIZE ==> r == Ok::<u8, RuntimeError>(self@.mem.xdata[addr as int]),
            addr >= MEMORY_XRAM_SIZE ==> r == Err::<u8, RuntimeError>(
                RuntimeError { error_type: ErrorType::InvalidAddr },
            ),
    {
        self.data.read_xram(addr)
    }

    /// Stores `val` in the cell of external data at `addr`. Fails with
    /// `InvalidAddr`, and changes nothing, exactly when `addr` lies beyond the
    /// last cell.
    pub fn write_xdata(&mut self, addr: u16, val: u8) -> (r: Result<(), RuntimeError>)
        ensures
            addr < MEMORY_XRAM_SIZE ==> r == Ok::<(), RuntimeError>(()) && final(self)@ == old(
                self,
            )@.with_mem(
                MemoryState {
                    xdata: old(self)@.mem.xdata.update(addr as int, val),
                    ..old(self)@.mem
                },
            ),
            addr >= MEMORY_XRAM_SIZE ==> r == Err::<(), RuntimeError>(
                RuntimeError { error_type: ErrorType::InvalidAddr },
            ) && final(self)@ == old(self)@,
    {
        self.data.write_xram(addr, val)
    }

    /// The accumulator.
    pub fn acc(&self) -> (r: u8)
        ensures
            r == self@.acc(),
    {
        self.get_sfr(SFR::ACC)
    }

    /// Stores `val` in the accumulator.
    pub fn set_acc(&mut self, val: u8)
        ensures
            final(self)@ == old(self)@.set_acc(val),
    {
        self.set_sfr(SFR::ACC, val);
    }

    /// The carry flag.
    pub fn carry(&self) -> (r: bool)
        ensures
            r == self@.carry(),
    {
        crate::bits::get_bit(self.get_sfr(SFR::PSW), 7)
    }

    /// Writes the carry flag; the other bits of the status word stay.
    pub fn set_carry(&mut self, carry: bool)
        ensures
            final(self)@ == old(self)@.set_carry(carry),
    {
        let psw = crate::bits::set_bit(self.get_sfr(SFR::PSW), 7, carry);
        self.set_sfr(SFR::PSW, psw);
    }

    /// Writes the three arithmetic flags; the other bits of the status word
    /// stay.
    pub fn set_flags(&mut self, carry: bool, auxiliary_carry: bool, overflow: bool)
        ensures
            final(self)@ == old(self)@.set_flags(carry, auxiliary_carry, overflow),
    {
        let mut psw = self.get_sfr(SFR::PSW);
        psw = crate::bits::set_bit(psw, 7, carry);
        psw = crate::bits::set_bit(psw, 6, auxiliary_carry);
        psw = crate::bits::set_bit(psw, 2, overflow);
        self.set_sfr(SFR::PSW, psw);
    }

    /// The data pointer.
    pub fn dptr(&self) -> (r: u16)
        ensures
            r == self@.dptr(),
    {
        self.get_sfr(SFR::DPH) as u16 * 256 + self.get_sfr(SFR::DPL) as u16
    }

    /// Pushes `val` on the stack: the stack pointer is incremented first.
    pub fn push(&mut self, val: u8)
        ensures
            final(self)@ == old(self)@.push(val),
    {
        let sp = self.get_sfr(SFR::SP);
        let sp = if sp == 255 {
            0
        } else {
            sp + 1
        };
        self.set_sfr(SFR::SP, sp);
        self.write(Addr8::new(sp), val);
    }

    /// Takes the top byte off the stack: the stack pointer is decremented
    /// after the byte is read.
    pub fn pop(&mut self) -> (val: u8)
        ensures
            val == old(self)@.top(),
            final(self)@ == old(self)@.drop_top(),
    {
        let sp = self.get_sfr(SFR::SP);
        let val = self.read(Addr8::new(sp));
        let sp = if sp == 0 {
            255
        } else {
            sp - 1
        };
        self.set_sfr(SFR::SP, sp);
        val
    }

    /// Moves the program counter on by `n` cells, modulo the size of the address
    /// space.
    pub fn advance(&mut self, n: u16)
        ensures
            final(self)@ == old(self)@.advance(n as int),
    {
        let pc = (self.pc.as_u16() as u32 + n as u32) % 0x10000;
        self.pc = Addr16::new(pc as u16);
    }

    /// Performs the relative branch of an instruction that is `n` bytes long:
    /// the counter passes the instruction and, where `taken` holds, moves on
    /// by `rel` read as a two's-complement number.
    pub fn branch(&mut self, n: u16, rel: u8, taken: bool)
        ensures
            final(self)@ == old(self)@.branch(n as int, rel, taken),
    {
        let offset: u32 = if !taken {
            0
        } else if rel < 128 {
            rel as u32
        } else {
            0x10000 - 256 + rel as u32
        };
        let pc = (self.pc.as_u16() as u32 + n as u32 + offset) % 0x10000;
        self.pc = Addr16::new(pc as u16);
    }
}

} // verus!
