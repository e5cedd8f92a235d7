//! The failure kinds that the fallible operations of the emulator return.

use vstd::prelude::*;

verus! {

/// The ways in which an operation of the emulator can fail.
#[derive(Debug, Clone, Copy, PartialEq, Eq, Structural)]
pub enum ErrorType {
    /// An address lies outside the memory that it names.
    InvalidAddr,
    /// A bit address whose byte is not bit-addressable.
    InvalidBitAddr,
    /// A handler expected a first operand byte that was not supplied.
    InstructionArg0Missing,
    /// A handler expected a second operand byte that was not supplied.
    InstructionArg1Missing,
    /// The opcode is known, but nothing executes it.
    UnimplementedInstruction,
    /// The processor was stepped before a program was loaded.
    UninitializedCPU,
    /// The opcode byte names no instruction.
    UnknownInstruction,
}

impl ErrorType {
    /// The description of each failure kind.
    pub open spec fn description(self) -> Seq<char> {
        match self {
            ErrorType::InvalidAddr => "Invalid address"@,
            ErrorType::InvalidBitAddr => "Invalid bit address"@,
            ErrorType::InstructionArg0Missing => "Instruction argument 0 missing"@,
            ErrorType::InstructionArg1Missing => "Instruction argument 1 missing"@,
            ErrorType::UnimplementedInstruction => "Unimplemented instruction"@,
            ErrorType::UninitializedCPU => "Uninitialized CPU"@,
            ErrorType::UnknownInstruction => "Unknown instruction"@,
        }
    }

    /// The description of the failure kind, as text.
    pub fn as_str(&self) -> (s: &'static str)
        ensures
            s@ == self.description(),
    {
        match *self {
            ErrorType::InvalidAddr => "Invalid address",
            ErrorType::InvalidBitAddr => "Invalid bit address",
            ErrorType::InstructionArg0Missing => "Instruction argument 0 missing",
            ErrorType::InstructionArg1Missing => "Instruction argument 1 missing",
            ErrorType::UnimplementedInstruction => "Unimplemented instruction",
            ErrorType::UninitializedCPU => "Uninitialized CPU",
            ErrorType::UnknownInstruction => "Unknown instruction",
        }
    }
}

/// A failure of the emulator, tagged with its kind.
#[derive(Debug, Clone, Copy, PartialEq, Eq, Structural)]
pub struct RuntimeError {
    pub error_type: ErrorType,
}

impl RuntimeError {
    /// The text that introduces every rendered failure.
    pub open spec fn prefix() -> Seq<char> {
        "Runtime error: "@
    }

    /// The failure of the kind `error_type`.
    pub fn new(error_type: ErrorType) -> (e: Self)
        ensures
            e == (RuntimeError { error_type }),
    {
        RuntimeError { error_type }
    }

    /// The kind of this failure.
    pub fn kind(&self) -> (k: ErrorType)
        ensures
            k == self.error_type,
    {
        self.error_type
    }

    /// The failure rendered as text: the prefix followed by the description of its kind.
    pub fn message(&self) -> (s: String)
        ensures
            s@ == Self::prefix() + self.error_type.description(),
    {
        String::from_str("Runtime error: ").concat(self.error_type.as_str())
    }
}

/// The ways in which loading a program image can fail.
#[derive(Debug, Clone, Copy, PartialEq, Eq, Structural)]
pub enum LoadError {
    /// A line of the image is not a sequence of pairs of hexadecimal digits.
    MalformedHex,
    /// The image holds more bytes than code memory has cells.
    ImageTooLarge,
}

} // verus!
