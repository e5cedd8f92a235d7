//! The emulator: a processor and the mode that it is run in.

use vstd::prelude::*;
use crate::cpu::CPU;
use crate::error::{LoadError, RuntimeError};
use crate::execute::{after_run, result_of_run};
use crate::image::image_program;
use crate::state::{State, MEMORY_FLASH_SIZE};

verus! {

/// A processor, and whether it runs without a graphical interface.
#[derive(Debug)]
pub struct Emulator {
    cpu: CPU,
    headless: bool,
}

impl View for Emulator {
    type V = State;

    /// The machine that the emulator runs.
    closed spec fn view(&self) -> State {
        self.cpu@
    }
}

impl Emulator {
    /// Whether the emulator runs without a graphical interface.
    pub closed spec fn headless(&self) -> bool {
        self.headless
    }

    /// An emulator with a processor that holds no program yet.
    pub fn new(headless: bool) -> (emulator: Self)
        ensures
            emulator@ == State::created(),
            emulator.headless() == headless,
    {
        Emulator { cpu: CPU::new(), headless }
    }

    /// Whether the emulator runs without a graphical interface.
    pub fn is_headless(&self) -> (r: bool)
        ensures
            r == self.headless(),
    {
        self.headless
    }

    /// The processor, to read.
    pub fn cpu(&self) -> (cpu: &CPU)
        ensures
            cpu@ == self@,
    {
        &self.cpu
    }

    /// Loads the program image `image` into the processor. Fails, and changes
    /// nothing, where the image holds no program or one that is too large.
    pub fn load(&mut self, image: &[u8]) -> (r: Result<(), LoadError>)
        ensures
            final(self).headless() == old(self).headless(),
            match image_program(image@) {
                Some(program) => if program.len() <= MEMORY_FLASH_SIZE {
                    r == Ok::<(), LoadError>(()) && final(self)@ == old(self)@.loaded(program)
                } else {
                    r == Err::<(), LoadError>(LoadError::ImageTooLarge) && final(self)@ == old(
                        self,
                    )@
                },
                None => r == Err::<(), LoadError>(LoadError::MalformedHex) && final(self)@ == old(
                    self,
                )@,
            },
    {
        self.cpu.init(image)
    }

    /// Runs the processor for at most `limit` cycles; a cycle that fails halts
    /// the processor and ends the run with its failure.
    pub fn run(&mut self, limit: u64) -> (r: Result<u64, RuntimeError>)
        ensures
            final(self).headless() == old(self).headless(),
            final(self)@ == after_run(old(self)@, limit as nat),
            match r {
                Ok(n) => result_of_run(old(self)@, limit as nat) == Ok::<nat, RuntimeError>(
                    n as nat,
                ),
                Err(e) => result_of_run(old(self)@, limit as nat) == Err::<nat, RuntimeError>(e),
            },
    {
        self.cpu.run(limit)
    }
}

} // verus!
