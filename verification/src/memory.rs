//! The memories of the machine and the views of internal data: by direct
//! address, by special function register, by register of the selected bank and
//! by bit address.

use vstd::prelude::*;
use crate::addr::{decoded_byte, decoded_index, Addr16};
use crate::bits::{bit_addressable, bit_is_set};
use crate::emi::EMI;
use crate::error::{ErrorType, LoadError, RuntimeError};
use crate::registers::{GPR, SFR};
use crate::state::{MemoryState, MEMORY_FLASH_SIZE, MEMORY_RAM_SIZE, MEMORY_XRAM_SIZE};

verus! {

/// The selected bank, computed from the two bank-select bits, is the number
/// that the status word holds in bits 4 and 3.
pub proof fn lemma_bank_bits(psw: u8)
    ensures
        (psw / 8) % 4 == (((psw >> 4) & 1) << 1) | ((psw >> 3) & 1),
{
    assert((psw / 8) % 4 == (((psw >> 4) & 1) << 1) | ((psw >> 3) & 1)) by (bit_vector);
}

/// Code memory, internal data and external data.
#[derive(Debug)]
pub struct Memory {
    flash: [u8; 65535],
    mem: [u8; 256],
    emi: EMI,
}

impl View for Memory {
    type V = MemoryState;

    closed spec fn view(&self) -> MemoryState {
        MemoryState { code: self.flash@, idata: self.mem@, xdata: self.emi@ }
    }
}

impl Memory {
    /// The memories always have their fixed sizes.
    pub proof fn lemma_wf(&self)
        ensures
            self@.wf(),
    {
        self.emi.lemma_size();
    }

    /// Memories in which every cell holds zero.
    pub fn new() -> (m: Self)
        ensures
            m@ == MemoryState::zeroed(),
    {
        let m = Memory { flash: [0u8; 65535], mem: [0u8; 256], emi: EMI::default() };
        assert(m.flash@ =~= MemoryState::zeroed().code);
        assert(m.mem@ =~= MemoryState::zeroed().idata);
        m
    }

    /// Zeroed memories in which the accumulator and the stack pointer have
    /// their reset values.
    pub fn init() -> (m: Self)
        ensures
            m@ == MemoryState::zeroed().set_sfr(SFR::ACC, 0x00).set_sfr(SFR::SP, 0x07),
    {
        let mut data_memory = Memory::new();
        data_memory.set_sfr_reg(SFR::ACC, 0x00);
        data_memory.set_sfr_reg(SFR::SP, 0x07);
        data_memory
    }

    /// The bit with address `bit_addr`, as 0 or 1; `None` where the byte that
    /// the address decodes to is not bit-addressable.
    pub fn get_bit(&self, bit_addr: u8) -> (r: Option<u8>)
        ensures
            bit_addressable(decoded_byte(bit_addr)) ==> r == Some(
                if self@.bit(bit_addr) {
                    1u8
                } else {
                    0u8
                },
            ),
            !bit_addressable(decoded_byte(bit_addr)) ==> r is None,
    {
        let bit = bit_addr % 8;
        if bit_addr <= 127 {
            return self.get_bit_internal(bit_addr / 8 + 32, bit);
        }
        self.get_bit_internal(bit_addr - bit, bit)
    }

    /// Bit `bit` of the byte at `addr`, as 0 or 1; `None` where that byte is
    /// not bit-addressable.
    fn get_bit_internal(&self, addr: u8, bit: u8) -> (r: Option<u8>)
        requires
            bit < 8,
        ensures
            bit_addressable(addr) ==> r == Some(
                if bit_is_set(self@.read(addr), bit) {
                    1u8
                } else {
                    0u8
                },
            ),
            !bit_addressable(addr) ==> r is None,
    {
        if !((addr >= 32 && addr <= 47) || (addr >= 128 && addr % 8 == 0)) {
            return None;
        }
        if crate::bits::get_bit(self.read(addr), bit as usize) {
            Some(1)
        } else {
            Some(0)
        }
    }

    /// The selected register bank.
    pub fn cur_reg_bank(&self) -> (r: u8)
        ensures
            r == self@.bank(),
            r < 4,
    {
        let psw = self.get_sfr_reg(SFR::PSW);
        (psw / 8) % 4
    }

    /// The cell of code memory at `addr`, which lies within code memory.
    pub fn read_flash(&self, addr: u16) -> (r: u8)
        requires
            addr < MEMORY_FLASH_SIZE,
        ensures
            r == self@.code[addr as int],
    {
        self.flash[addr as usize]
    }

    /// The cell of code memory at `addr`. Fails with `InvalidAddr` exactly when
    /// `addr` lies beyond the last cell.
    pub fn read_code(&self, addr: Addr16) -> (r: Result<u8, RuntimeError>)
        ensures
            addr@ < MEMORY_FLASH_SIZE ==> r == Ok::<u8, RuntimeError>(self@.code[addr@ as int]),
            addr@ >= MEMORY_FLASH_SIZE ==> r == Err::<u8, RuntimeError>(
                RuntimeError { error_type: ErrorType::InvalidAddr },
            ),
    {
        if addr.as_usize() < MEMORY_FLASH_SIZE {
            Ok(self.flash[addr.as_usize()])
        } else {
            Err(RuntimeError::new(ErrorType::InvalidAddr))
        }
    }

    /// The cell of external data at `addr`. Fails with `InvalidAddr` exactly
    /// when `addr` lies beyond the last cell.
    pub fn read_xram(&self, addr: u16) -> (r: Result<u8, RuntimeError>)
        ensures
            addr < MEMORY_XRAM_SIZE ==> r == Ok::<u8, RuntimeError>(self@.xdata[addr as int]),
            addr >= MEMORY_XRAM_SIZE ==> r == Err::<u8, RuntimeError>(
                RuntimeError { error_type: ErrorType::InvalidAddr },
            ),
    {
        self.emi.read(addr)
    }

    /// Stores `val` in the cell of external data at `addr`. Fails with
    /// `InvalidAddr`, and changes nothing, exactly when `addr` lies beyond the
    /// last cell.
    pub fn write_xram(&mut self, addr: u16, val: u8) -> (r: Result<(), RuntimeError>)
        ensures
            addr < MEMORY_XRAM_SIZE ==> r == Ok::<(), RuntimeError>(()) && final(self)@ == (
            MemoryState { xdata: old(self)@.xdata.update(addr as int, val), ..old(self)@ }),
            addr >= MEMORY_XRAM_SIZE ==> r == Err::<(), RuntimeError>(
                RuntimeError { error_type: ErrorType::InvalidAddr },
            ) && final(self)@ == old(self)@,
    {
        self.emi.write(addr, val)
    }

    /// The cell of internal data at `addr`.
    pub fn read(&self, addr: u8) -> (r: u8)
        ensures
            r == self@.read(addr),
    {
        self.mem[addr as usize]
    }

    /// Stores `val` in the cell of internal data at `addr`.
    pub fn write(&mut self, addr: u8, val: u8)
        ensures
            final(self)@ == old(self)@.write(addr, val),
    {
        self.mem[addr as usize] = val;
    }

    /// The special function register `sfr`.
    pub fn get_sfr_reg(&self, sfr: SFR) -> (r: u8)
        ensures
            r == self@.sfr(sfr),
    {
        self.read(sfr.addr().as_u8())
    }

    /// Stores `val` in the special function register `sfr`.
    pub fn set_sfr_reg(&mut self, sfr: SFR, val: u8)
        ensures
            final(self)@ == old(self)@.set_sfr(sfr, val),
    {
        self.write(sfr.addr().as_u8(), val);
    }

    /// Register `reg` of the selected bank.
    pub fn get_gpr_reg(&self, reg: GPR) -> (r: u8)
        ensures
            r == self@.reg(reg.index()),
    {
        let reg_addr: u8 = reg.addr().as_u8();
        self.read(8 * self.cur_reg_bank() + reg_addr)
    }

    /// Stores `val` in register `reg` of the selected bank.
    pub fn set_gpr_reg(&mut self, reg: GPR, val: u8)
        ensures
            final(self)@ == old(self)@.set_reg(reg.index(), val),
    {
        let reg_addr: u8 = reg.addr().as_u8();
        let bank = self.cur_reg_bank();
        self.write(8 * bank + reg_addr, val);
    }

    /// Gives the registers that a reset defines their reset values.
    pub fn reset_registers(&mut self)
        ensures
            final(self)@ == old(self)@.reset_registers(),
    {
        self.set_sfr_reg(SFR::ADC0CF, 0xF8);
        self.set_sfr_reg(SFR::ADC0GTH, 0xFF);
        self.set_sfr_reg(SFR::ADC0GTL, 0xFF);
        self.set_sfr_reg(SFR::CPT0MD, 0x02);
        self.set_sfr_reg(SFR::CPT1MD, 0x02);
        self.set_sfr_reg(SFR::SP, 0x07);
        self.set_sfr_reg(SFR::IT01CF, 0x01);
        self.set_sfr_reg(SFR::PFE0CN, 0x20);
        self.set_sfr_reg(SFR::ACC, 0x00);
    }

    /// Zeroes code memory and internal data; external data stays.
    pub fn clear(&mut self)
        ensures
            final(self)@ == (MemoryState { xdata: old(self)@.xdata, ..MemoryState::zeroed() }),
    {
        self.flash = [0u8; 65535];
        self.mem = [0u8; 256];
        assert(self.flash@ =~= MemoryState::zeroed().code);
        assert(self.mem@ =~= MemoryState::zeroed().idata);
    }

    /// Stores `program` in code memory from cell 0 on. Fails with
    /// `ImageTooLarge`, and changes nothing, exactly when the program has more
    /// bytes than code memory has cells.
    pub fn load_program(&mut self, program: &[u8]) -> (r: Result<(), LoadError>)
        ensures
            program@.len() <= MEMORY_FLASH_SIZE ==> r == Ok::<(), LoadError>(()) && final(self)@
                == old(self)@.load(program@),
            program@.len() > MEMORY_FLASH_SIZE ==> r == Err::<(), LoadError>(
                LoadError::ImageTooLarge,
            ) && final(self)@ == old(self)@,
    {
        if program.len() > MEMORY_FLASH_SIZE {
            return Err(LoadError::ImageTooLarge);
        }
        let mut pc_offset: usize = 0;
        while pc_offset < program.len()
            invariant
                pc_offset <= program@.len() <= MEMORY_FLASH_SIZE,
                self.mem@ == old(self).mem@,
                self.emi@ == old(self).emi@,
                forall|i: int| 0 <= i < pc_offset ==> self.flash@[i] == program@[i],
                forall|i: int|
                    pc_offset <= i < MEMORY_FLASH_SIZE ==> self.flash@[i] == old(self).flash@[i],
            decreases program@.len() - pc_offset,
        {
            self.flash[pc_offset] = program[pc_offset];
            pc_offset += 1;
        }
        assert(self.flash@ =~= old(self)@.load(program@).code);
        Ok(())
    }
}

} // verus!
