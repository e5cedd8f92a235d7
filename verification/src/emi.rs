//! The external memory interface: the external data memory behind it.

use vstd::prelude::*;
use crate::error::{ErrorType, RuntimeError};
use crate::state::MEMORY_XRAM_SIZE;

verus! {

/// External data memory.
#[derive(Debug)]
pub struct EMI {
    xram: [u8; 4096],
}

impl View for EMI {
    type V = Seq<u8>;

    closed spec fn view(&self) -> Seq<u8> {
        self.xram@
    }
}

impl Default for EMI {
    /// External data in which every cell holds zero.
    fn default() -> (r: Self)
        ensures
            r@ == Seq::new(MEMORY_XRAM_SIZE as nat, |i: int| 0u8),
    {
        let r = Self { xram: [0u8; 4096] };
        assert(r.xram@ =~= Seq::new(MEMORY_XRAM_SIZE as nat, |i: int| 0u8));
        r
    }
}

impl EMI {
    /// External data always has its fixed size.
    pub proof fn lemma_size(&self)
        ensures
            self@.len() == MEMORY_XRAM_SIZE,
    {
    }

    /// The cell at `addr`. Fails with `InvalidAddr` exactly when `addr` lies
    /// beyond the last cell.
    pub fn read(&self, addr: u16) -> (r: Result<u8, RuntimeError>)
        ensures
            addr < MEMORY_XRAM_SIZE ==> r == Ok::<u8, RuntimeError>(self@[addr as int]),
            addr >= MEMORY_XRAM_SIZE ==> r == Err::<u8, RuntimeError>(
                RuntimeError { error_type: ErrorType::InvalidAddr },
            ),
    {
        if (addr as usize) < MEMORY_XRAM_SIZE {
            Ok(self.xram[addr as usize])
        } else {
            Err(RuntimeError::new(ErrorType::InvalidAddr))
        }
    }

    /// Stores `val` in the cell at `addr`. Fails with `InvalidAddr`, and changes
    /// nothing, exactly when `addr` lies beyond the last cell.
    pub fn write(&mut self, addr: u16, val: u8) -> (r: Result<(), RuntimeError>)
        ensures
            addr < MEMORY_XRAM_SIZE ==> r == Ok::<(), RuntimeError>(()) && final(self)@ == old(
                self,
            )@.update(addr as int, val),
            addr >= MEMORY_XRAM_SIZE ==> r == Err::<(), RuntimeError>(
                RuntimeError { error_type: ErrorType::InvalidAddr },
            ) && final(self)@ == old(self)@,
    {
        if (addr as usize) < MEMORY_XRAM_SIZE {
            self.xram[addr as usize] = val;
            Ok(())
        } else {
            Err(RuntimeError::new(ErrorType::InvalidAddr))
        }
    }
}

} // verus!
