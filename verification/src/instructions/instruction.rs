//! The opcode table: which operation each opcode byte encodes, with its
//! mnemonic and its length in bytes.

use vstd::prelude::*;
use vstd::std_specs::convert::FromSpecImpl;
use crate::error::{ErrorType, RuntimeError};

verus! {

/// The operations of the instruction set. An operation that takes a register
/// in its opcode stands for all the opcodes of its group.
#[derive(Debug, Clone, Copy, PartialEq, Eq, Structural)]
pub enum Operation {
    /// `NOP`
    Nop,
    /// `AJMP addr11`
    Ajmp,
    /// `LJMP addr16`
    Ljmp,
    /// `RR A`
    RrA,
    /// `INC A`
    IncA,
    /// `INC direct`
    IncData,
    /// `INC @Ri`
    IncIndirect,
    /// `INC Rn`
    IncRn,
    /// `JBC bit,rel`
    Jbc,
    /// `ACALL addr11`
    Acall,
    /// `LCALL addr16`
    Lcall,
    /// `RRC A`
    RrcA,
    /// `DEC A`
    DecA,
    /// `DEC direct`
    DecData,
    /// `DEC @Ri`
    DecIndirect,
    /// `DEC Rn`
    DecRn,
    /// `JB bit,rel`
    Jb,
    /// `RET`
    Ret,
    /// `RL A`
    RlA,
    /// `ADD A,#data`
    AddAConst,
    /// `ADD A,direct`
    AddAData,
    /// `ADD A,@Ri`
    AddAIndirect,
    /// `ADD A,Rn`
    AddARn,
    /// `JNB bit,rel`
    Jnb,
    /// `RETI`
    Reti,
    /// `RLC A`
    RlcA,
    /// `ADDC A,#data`
    AddcAConst,
    /// `ADDC A,direct`
    AddcAData,
    /// `ADDC A,@Ri`
    AddcAIndirect,
    /// `ADDC A,Rn`
    AddcARn,
    /// `JC rel`
    Jc,
    /// `ORL direct,A`
    OrlDataA,
    /// `ORL direct,#data`
    OrlDataConst,
    /// `ORL A,#data`
    OrlAConst,
    /// `ORL A,direct`
    OrlAData,
    /// `ORL A,@Ri`
    OrlAIndirect,
    /// `ORL A,Rn`
    OrlARn,
    /// `JNC rel`
    Jnc,
    /// `ANL direct,A`
    AnlDataA,
    /// `ANL direct,#data`
    AnlDataConst,
    /// `ANL A,#data`
    AnlAConst,
    /// `ANL A,direct`
    AnlAData,
    /// `ANL A,@Ri`
    AnlAIndirect,
    /// `ANL A,Rn`
    AnlARn,
    /// `JZ rel`
    Jz,
    /// `XRL direct,A`
    XrlDataA,
    /// `XRL direct,#data`
    XrlDataConst,
    /// `XRL A,#data`
    XrlAConst,
    /// `XRL A,direct`
    XrlAData,
    /// `XRL A,@Ri`
    XrlAIndirect,
    /// `XRL A,Rn`
    XrlARn,
    /// `JNZ rel`
    Jnz,
    /// `ORL C,bit`
    OrlCBit,
    /// `JMP @A+DPTR`
    JmpADptr,
    /// `MOV A,#data`
    MovAConst,
    /// `MOV direct,#data`
    MovDataConst,
    /// `MOV @Ri,#data`
    MovIndirectConst,
    /// `MOV Rn,#data`
    MovRnConst,
    /// `SJMP rel`
    Sjmp,
    /// `ANL C,bit`
    AnlCBit,
    /// `MOVC A,@A+PC`
    MovcAPc,
    /// `DIV AB`
    DivAb,
    /// `MOV direct,direct`
    MovDataData,
    /// `MOV direct,@Ri`
    MovDataIndirect,
    /// `MOV direct,Rn`
    MovDataRn,
    /// `MOV DPTR,#data16`
    MovDptrConst,
    /// `MOV bit,C`
    MovBitC,
    /// `MOVC A,@A+DPTR`
    MovcADptr,
    /// `SUBB A,#data`
    SubbAConst,
    /// `SUBB A,direct`
    SubbAData,
    /// `SUBB A,@Ri`
    SubbAIndirect,
    /// `SUBB A,Rn`
    SubbARn,
    /// `ORL C,/bit`
    OrlCNotBit,
    /// `MOV C,bit`
    MovCBit,
    /// `INC DPTR`
    IncDptr,
    /// `MUL AB`
    MulAb,
    /// `MOV @Ri,direct`
    MovIndirectData,
    /// `MOV Rn,direct`
    MovRnData,
    /// `ANL C,/bit`
    AnlCNotBit,
    /// `CPL bit`
    CplBit,
    /// `CPL C`
    CplC,
    /// `CJNE A,#data,rel`
    CjneAConst,
    /// `CJNE A,direct,rel`
    CjneAData,
    /// `CJNE @Ri,#data,rel`
    CjneIndirectConst,
    /// `CJNE Rn,#data,rel`
    CjneRnConst,
    /// `PUSH direct`
    PushData,
    /// `CLR bit`
    ClrBit,
    /// `CLR C`
    ClrC,
    /// `SWAP A`
    SwapA,
    /// `XCH A,direct`
    XchAData,
    /// `XCH A,@Ri`
    XchAIndirect,
    /// `XCH A,Rn`
    XchARn,
    /// `POP direct`
    PopData,
    /// `SETB bit`
    SetbBit,
    /// `SETB C`
    SetbC,
    /// `DA A`
    DaA,
    /// `DJNZ direct,rel`
    DjnzData,
    /// `XCHD A,@Ri`
    XchdAIndirect,
    /// `DJNZ Rn,rel`
    DjnzRn,
    /// `MOVX A,@DPTR`
    MovxADptr,
    /// `MOVX A,@Ri`
    MovxAIndirect,
    /// `CLR A`
    ClrA,
    /// `MOV A,direct`
    MovAData,
    /// `MOV A,@Ri`
    MovAIndirect,
    /// `MOV A,Rn`
    MovARn,
    /// `MOVX @DPTR,A`
    MovxDptrA,
    /// `MOVX @Ri,A`
    MovxIndirectA,
    /// `CPL A`
    CplA,
    /// `MOV direct,A`
    MovDataA,
    /// `MOV @Ri,A`
    MovIndirectA,
    /// `MOV Rn,A`
    MovRnA,
}

impl Operation {
    /// Whether the opcode byte `op` encodes this operation. The operations on a
    /// register `Rn` take eight consecutive opcodes, those on `@Ri` two, and the
    /// paged jump and call every opcode whose low five bits are theirs.
    pub open spec fn encodes(self, op: u8) -> bool {
        match self {
            Operation::Nop => op == 0x00,
            Operation::Ajmp => op % 32 == 0x01,
            Operation::Ljmp => op == 0x02,
            Operation::RrA => op == 0x03,
            Operation::IncA => op == 0x04,
            Operation::IncData => op == 0x05,
            Operation::IncIndirect => 0x06 <= op <= 0x07,
            Operation::IncRn => 0x08 <= op <= 0x0F,
            Operation::Jbc => op == 0x10,
            Operation::Acall => op % 32 == 0x11,
            Operation::Lcall => op == 0x12,
            Operation::RrcA => op == 0x13,
            Operation::DecA => op == 0x14,
            Operation::DecData => op == 0x15,
            Operation::DecIndirect => 0x16 <= op <= 0x17,
            Operation::DecRn => 0x18 <= op <= 0x1F,
            Operation::Jb => op == 0x20,
            Operation::Ret => op == 0x22,
            Operation::RlA => op == 0x23,
            Operation::AddAConst => op == 0x24,
            Operation::AddAData => op == 0x25,
            Operation::AddAIndirect => 0x26 <= op <= 0x27,
            Operation::AddARn => 0x28 <= op <= 0x2F,
            Operation::Jnb => op == 0x30,
            Operation::Reti => op == 0x32,
            Operation::RlcA => op == 0x33,
            Operation::AddcAConst => op == 0x34,
            Operation::AddcAData => op == 0x35,
            Operation::AddcAIndirect => 0x36 <= op <= 0x37,
            Operation::AddcARn => 0x38 <= op <= 0x3F,
            Operation::Jc => op == 0x40,
            Operation::OrlDataA => op == 0x42,
            Operation::OrlDataConst => op == 0x43,
            Operation::OrlAConst => op == 0x44,
            Operation::OrlAData => op == 0x45,
            Operation::OrlAIndirect => 0x46 <= op <= 0x47,
            Operation::OrlARn => 0x48 <= op <= 0x4F,
            Operation::Jnc => op == 0x50,
            Operation::AnlDataA => op == 0x52,
            Operation::AnlDataConst => op == 0x53,
            Operation::AnlAConst => op == 0x54,
            Operation::AnlAData => op == 0x55,
            Operation::AnlAIndirect => 0x56 <= op <= 0x57,
            Operation::AnlARn => 0x58 <= op <= 0x5F,
            Operation::Jz => op == 0x60,
            Operation::XrlDataA => op == 0x62,
            Operation::XrlDataConst => op == 0x63,
            Operation::XrlAConst => op == 0x64,
            Operation::XrlAData => op == 0x65,
            Operation::XrlAIndirect => 0x66 <= op <= 0x67,
            Operation::XrlARn => 0x68 <= op <= 0x6F,
            Operation::Jnz => op == 0x70,
            Operation::OrlCBit => op == 0x72,
            Operation::JmpADptr => op == 0x73,
            Operation::MovAConst => op == 0x74,
            Operation::MovDataConst => op == 0x75,
            Operation::MovIndirectConst => 0x76 <= op <= 0x77,
            Operation::MovRnConst => 0x78 <= op <= 0x7F,
            Operation::Sjmp => op == 0x80,
            Operation::AnlCBit => op == 0x82,
            Operation::MovcAPc => op == 0x83,
            Operation::DivAb => op == 0x84,
            Operation::MovDataData => op == 0x85,
            Operation::MovDataIndirect => 0x86 <= op <= 0x87,
            Operation::MovDataRn => 0x88 <= op <= 0x8F,
            Operation::MovDptrConst => op == 0x90,
            Operation::MovBitC => op == 0x92,
            Operation::MovcADptr => op == 0x93,
            Operation::SubbAConst => op == 0x94,
            Operation::SubbAData => op == 0x95,
            Operation::SubbAIndirect => 0x96 <= op <= 0x97,
            Operation::SubbARn => 0x98 <= op <= 0x9F,
            Operation::OrlCNotBit => op == 0xA0,
            Operation::MovCBit => op == 0xA2,
            Operation::IncDptr => op == 0xA3,
            Operation::MulAb => op == 0xA4,
            Operation::MovIndirectData => 0xA6 <= op <= 0xA7,
            Operation::MovRnData => 0xA8 <= op <= 0xAF,
            Operation::AnlCNotBit => op == 0xB0,
            Operation::CplBit => op == 0xB2,
            Operation::CplC => op == 0xB3,
            Operation::CjneAConst => op == 0xB4,
            Operation::CjneAData => op == 0xB5,
            Operation::CjneIndirectConst => 0xB6 <= op <= 0xB7,
            Operation::CjneRnConst => 0xB8 <= op <= 0xBF,
            Operation::PushData => op == 0xC0,
            Operation::ClrBit => op == 0xC2,
            Operation::ClrC => op == 0xC3,
            Operation::SwapA => op == 0xC4,
            Operation::XchAData => op == 0xC5,
            Operation::XchAIndirect => 0xC6 <= op <= 0xC7,
            Operation::XchARn => 0xC8 <= op <= 0xCF,
            Operation::PopData => op == 0xD0,
            Operation::SetbBit => op == 0xD2,
            Operation::SetbC => op == 0xD3,
            Operation::DaA => op == 0xD4,
            Operation::DjnzData => op == 0xD5,
            Operation::XchdAIndirect => 0xD6 <= op <= 0xD7,
            Operation::DjnzRn => 0xD8 <= op <= 0xDF,
            Operation::MovxADptr => op == 0xE0,
            Operation::MovxAIndirect => 0xE2 <= op <= 0xE3,
            Operation::ClrA => op == 0xE4,
            Operation::MovAData => op == 0xE5,
            Operation::MovAIndirect => 0xE6 <= op <= 0xE7,
            Operation::MovARn => 0xE8 <= op <= 0xEF,
            Operation::MovxDptrA => op == 0xF0,
            Operation::MovxIndirectA => 0xF2 <= op <= 0xF3,
            Operation::CplA => op == 0xF4,
            Operation::MovDataA => op == 0xF5,
            Operation::MovIndirectA => 0xF6 <= op <= 0xF7,
            Operation::MovRnA => 0xF8 <= op <= 0xFF,
        }
    }

    /// The operation that the opcode byte `op` encodes, if any.
    pub open spec fn of(op: u8) -> Option<Operation> {
        if exists|operation: Operation| operation.encodes(op) {
            Some(choose|operation: Operation| operation.encodes(op))
        } else {
            None
        }
    }

    /// The length of an instruction of this operation, in bytes: the opcode and
    /// its operands.
    pub open spec fn length(self) -> u8 {
        match self {
            Operation::Nop | Operation::RrA | Operation::IncA | Operation::IncIndirect
            | Operation::IncRn | Operation::RrcA | Operation::DecA | Operation::DecIndirect
            | Operation::DecRn | Operation::Ret | Operation::RlA | Operation::AddAIndirect
            | Operation::AddARn | Operation::Reti | Operation::RlcA | Operation::AddcAIndirect
            | Operation::AddcARn | Operation::OrlAIndirect | Operation::OrlARn
            | Operation::AnlAIndirect | Operation::AnlARn | Operation::XrlAIndirect
            | Operation::XrlARn | Operation::JmpADptr | Operation::MovcAPc | Operation::DivAb
            | Operation::MovcADptr | Operation::SubbAIndirect | Operation::SubbARn
            | Operation::IncDptr | Operation::MulAb | Operation::CplC | Operation::ClrC
            | Operation::SwapA | Operation::XchAIndirect | Operation::XchARn | Operation::SetbC
            | Operation::DaA | Operation::XchdAIndirect | Operation::MovxADptr
            | Operation::MovxAIndirect | Operation::ClrA | Operation::MovAIndirect
            | Operation::MovARn | Operation::MovxDptrA | Operation::MovxIndirectA
            | Operation::CplA | Operation::MovIndirectA | Operation::MovRnA => 1,
            Operation::Ajmp | Operation::IncData | Operation::Acall | Operation::DecData
            | Operation::AddAConst | Operation::AddAData | Operation::AddcAConst
            | Operation::AddcAData | Operation::Jc | Operation::OrlDataA | Operation::OrlAConst
            | Operation::OrlAData | Operation::Jnc | Operation::AnlDataA | Operation::AnlAConst
            | Operation::AnlAData | Operation::Jz | Operation::XrlDataA | Operation::XrlAConst
            | Operation::XrlAData | Operation::Jnz | Operation::OrlCBit | Operation::MovAConst
            | Operation::MovIndirectConst | Operation::MovRnConst | Operation::Sjmp
            | Operation::AnlCBit | Operation::MovDataIndirect | Operation::MovDataRn
            | Operation::MovBitC | Operation::SubbAConst | Operation::SubbAData
            | Operation::OrlCNotBit | Operation::MovCBit | Operation::MovIndirectData
            | Operation::MovRnData | Operation::AnlCNotBit | Operation::CplBit
            | Operation::PushData | Operation::ClrBit | Operation::XchAData
            | Operation::PopData | Operation::SetbBit | Operation::DjnzRn | Operation::MovAData
            | Operation::MovDataA => 2,
            _ => 3,
        }
    }

    /// Whether the emulator executes this operation.
    pub open spec fn implemented(self) -> bool {
        match self {
            Operation::DecA | Operation::DecData | Operation::DecIndirect | Operation::JmpADptr
            | Operation::MovcAPc | Operation::DivAb | Operation::OrlCNotBit | Operation::MulAb
            | Operation::AnlCNotBit | Operation::CplC | Operation::ClrC | Operation::SwapA
            | Operation::XchAData | Operation::XchAIndirect | Operation::XchARn
            | Operation::SetbC | Operation::DaA | Operation::XchdAIndirect
            | Operation::MovxAIndirect | Operation::ClrA | Operation::MovxIndirectA
            | Operation::CplA => false,
            _ => true,
        }
    }

    /// The mnemonic of this operation.
    pub open spec fn name(self) -> Seq<char> {
        match self {
            Operation::Nop => "NOP"@,
            Operation::Ajmp => "AJMP addr11"@,
            Operation::Ljmp => "LJMP addr16"@,
            Operation::RrA => "RR A"@,
            Operation::IncA => "INC A"@,
            Operation::IncData => "INC direct"@,
            Operation::IncIndirect => "INC @Ri"@,
            Operation::IncRn => "INC Rn"@,
            Operation::Jbc => "JBC bit,rel"@,
            Operation::Acall => "ACALL addr11"@,
            Operation::Lcall => "LCALL addr16"@,
            Operation::RrcA => "RRC A"@,
            Operation::DecA => "DEC A"@,
            Operation::DecData => "DEC direct"@,
            Operation::DecIndirect => "DEC @Ri"@,
            Operation::DecRn => "DEC Rn"@,
            Operation::Jb => "JB bit,rel"@,
            Operation::Ret => "RET"@,
            Operation::RlA => "RL A"@,
            Operation::AddAConst => "ADD A,#data"@,
            Operation::AddAData => "ADD A,direct"@,
            Operation::AddAIndirect => "ADD A,@Ri"@,
            Operation::AddARn => "ADD A,Rn"@,
            Operation::Jnb => "JNB bit,rel"@,
            Operation::Reti => "RETI"@,
            Operation::RlcA => "RLC A"@,
            Operation::AddcAConst => "ADDC A,#data"@,
            Operation::AddcAData => "ADDC A,direct"@,
            Operation::AddcAIndirect => "ADDC A,@Ri"@,
            Operation::AddcARn => "ADDC A,Rn"@,
            Operation::Jc => "JC rel"@,
            Operation::OrlDataA => "ORL direct,A"@,
            Operation::OrlDataConst => "ORL direct,#data"@,
            Operation::OrlAConst => "ORL A,#data"@,
            Operation::OrlAData => "ORL A,direct"@,
            Operation::OrlAIndirect => "ORL A,@Ri"@,
            Operation::OrlARn => "ORL A,Rn"@,
            Operation::Jnc => "JNC rel"@,
            Operation::AnlDataA => "ANL direct,A"@,
            Operation::AnlDataConst => "ANL direct,#data"@,
            Operation::AnlAConst => "ANL A,#data"@,
            Operation::AnlAData => "ANL A,direct"@,
            Operation::AnlAIndirect => "ANL A,@Ri"@,
            Operation::AnlARn => "ANL A,Rn"@,
            Operation::Jz => "JZ rel"@,
            Operation::XrlDataA => "XRL direct,A"@,
            Operation::XrlDataConst => "XRL direct,#data"@,
            Operation::XrlAConst => "XRL A,#data"@,
            Operation::XrlAData => "XRL A,direct"@,
            Operation::XrlAIndirect => "XRL A,@Ri"@,
            Operation::XrlARn => "XRL A,Rn"@,
            Operation::Jnz => "JNZ rel"@,
            Operation::OrlCBit => "ORL C,bit"@,
            Operation::JmpADptr => "JMP @A+DPTR"@,
            Operation::MovAConst => "MOV A,#data"@,
            Operation::MovDataConst => "MOV direct,#data"@,
            Operation::MovIndirectConst => "MOV @Ri,#data"@,
            Operation::MovRnConst => "MOV Rn,#data"@,
            Operation::Sjmp => "SJMP rel"@,
            Operation::AnlCBit => "ANL C,bit"@,
            Operation::MovcAPc => "MOVC A,@A+PC"@,
            Operation::DivAb => "DIV AB"@,
            Operation::MovDataData => "MOV direct,direct"@,
            Operation::MovDataIndirect => "MOV direct,@Ri"@,
            Operation::MovDataRn => "MOV direct,Rn"@,
            Operation::MovDptrConst => "MOV DPTR,#data16"@,
            Operation::MovBitC => "MOV bit,C"@,
            Operation::MovcADptr => "MOVC A,@A+DPTR"@,
            Operation::SubbAConst => "SUBB A,#data"@,
            Operation::SubbAData => "SUBB A,direct"@,
            Operation::SubbAIndirect => "SUBB A,@Ri"@,
            Operation::SubbARn => "SUBB A,Rn"@,
            Operation::OrlCNotBit => "ORL C,/bit"@,
            Operation::MovCBit => "MOV C,bit"@,
            Operation::IncDptr => "INC DPTR"@,
            Operation::MulAb => "MUL AB"@,
            Operation::MovIndirectData => "MOV @Ri,direct"@,
            Operation::MovRnData => "MOV Rn,direct"@,
            Operation::AnlCNotBit => "ANL C,/bit"@,
            Operation::CplBit => "CPL bit"@,
            Operation::CplC => "CPL C"@,
            Operation::CjneAConst => "CJNE A,#data,rel"@,
            Operation::CjneAData => "CJNE A,direct,rel"@,
            Operation::CjneIndirectConst => "CJNE @Ri,#data,rel"@,
            Operation::CjneRnConst => "CJNE Rn,#data,rel"@,
            Operation::PushData => "PUSH direct"@,
            Operation::ClrBit => "CLR bit"@,
            Operation::ClrC => "CLR C"@,
            Operation::SwapA => "SWAP A"@,
            Operation::XchAData => "XCH A,direct"@,
            Operation::XchAIndirect => "XCH A,@Ri"@,
            Operation::XchARn => "XCH A,Rn"@,
            Operation::PopData => "POP direct"@,
            Operation::SetbBit => "SETB bit"@,
            Operation::SetbC => "SETB C"@,
            Operation::DaA => "DA A"@,
            Operation::DjnzData => "DJNZ direct,rel"@,
            Operation::XchdAIndirect => "XCHD A,@Ri"@,
            Operation::DjnzRn => "DJNZ Rn,rel"@,
            Operation::MovxADptr => "MOVX A,@DPTR"@,
            Operation::MovxAIndirect => "MOVX A,@Ri"@,
            Operation::ClrA => "CLR A"@,
            Operation::MovAData => "MOV A,direct"@,
            Operation::MovAIndirect => "MOV A,@Ri"@,
            Operation::MovARn => "MOV A,Rn"@,
            Operation::MovxDptrA => "MOVX @DPTR,A"@,
            Operation::MovxIndirectA => "MOVX @Ri,A"@,
            Operation::CplA => "CPL A"@,
            Operation::MovDataA => "MOV direct,A"@,
            Operation::MovIndirectA => "MOV @Ri,A"@,
            Operation::MovRnA => "MOV Rn,A"@,
        }
    }

    /// The operation that the opcode byte `op` encodes; `None` for the one byte
    /// that encodes nothing.
    pub fn decode(op: u8) -> (r: Option<Operation>)
        ensures
            r == Operation::of(op),
            r is None <==> op == 0xA5,
    {
        let r = match op {
            0x00 => Some(Operation::Nop),
            0x01 | 0x21 | 0x41 | 0x61 | 0x81 | 0xA1 | 0xC1 | 0xE1 => Some(Operation::Ajmp),
            0x02 => Some(Operation::Ljmp),
            0x03 => Some(Operation::RrA),
            0x04 => Some(Operation::IncA),
            0x05 => Some(Operation::IncData),
            0x06..=0x07 => Some(Operation::IncIndirect),
            0x08..=0x0F => Some(Operation::IncRn),
            0x10 => Some(Operation::Jbc),
            0x11 | 0x31 | 0x51 | 0x71 | 0x91 | 0xB1 | 0xD1 | 0xF1 => Some(Operation::Acall),
            0x12 => Some(Operation::Lcall),
            0x13 => Some(Operation::RrcA),
            0x14 => Some(Operation::DecA),
            0x15 => Some(Operation::DecData),
            0x16..=0x17 => Some(Operation::DecIndirect),
            0x18..=0x1F => Some(Operation::DecRn),
            0x20 => Some(Operation::Jb),
            0x22 => Some(Operation::Ret),
            0x23 => Some(Operation::RlA),
            0x24 => Some(Operation::AddAConst),
            0x25 => Some(Operation::AddAData),
            0x26..=0x27 => Some(Operation::AddAIndirect),
            0x28..=0x2F => Some(Operation::AddARn),
            0x30 => Some(Operation::Jnb),
            0x32 => Some(Operation::Reti),
            0x33 => Some(Operation::RlcA),
            0x34 => Some(Operation::AddcAConst),
            0x35 => Some(Operation::AddcAData),
            0x36..=0x37 => Some(Operation::AddcAIndirect),
            0x38..=0x3F => Some(Operation::AddcARn),
            0x40 => Some(Operation::Jc),
            0x42 => Some(Operation::OrlDataA),
            0x43 => Some(Operation::OrlDataConst),
            0x44 => Some(Operation::OrlAConst),
            0x45 => Some(Operation::OrlAData),
            0x46..=0x47 => Some(Operation::OrlAIndirect),
            0x48..=0x4F => Some(Operation::OrlARn),
            0x50 => Some(Operation::Jnc),
            0x52 => Some(Operation::AnlDataA),
            0x53 => Some(Operation::AnlDataConst),
            0x54 => Some(Operation::AnlAConst),
            0x55 => Some(Operation::AnlAData),
            0x56..=0x57 => Some(Operation::AnlAIndirect),
            0x58..=0x5F => Some(Operation::AnlARn),
            0x60 => Some(Operation::Jz),
            0x62 => Some(Operation::XrlDataA),
            0x63 => Some(Operation::XrlDataConst),
            0x64 => Some(Operation::XrlAConst),
            0x65 => Some(Operation::XrlAData),
            0x66..=0x67 => Some(Operation::XrlAIndirect),
            0x68..=0x6F => Some(Operation::XrlARn),
            0x70 => Some(Operation::Jnz),
            0x72 => Some(Operation::OrlCBit),
            0x73 => Some(Operation::JmpADptr),
            0x74 => Some(Operation::MovAConst),
            0x75 => Some(Operation::MovDataConst),
            0x76..=0x77 => Some(Operation::MovIndirectConst),
            0x78..=0x7F => Some(Operation::MovRnConst),
            0x80 => Some(Operation::Sjmp),
            0x82 => Some(Operation::AnlCBit),
            0x83 => Some(Operation::MovcAPc),
            0x84 => Some(Operation::DivAb),
            0x85 => Some(Operation::MovDataData),
            0x86..=0x87 => Some(Operation::MovDataIndirect),
            0x88..=0x8F => Some(Operation::MovDataRn),
            0x90 => Some(Operation::MovDptrConst),
            0x92 => Some(Operation::MovBitC),
            0x93 => Some(Operation::MovcADptr),
            0x94 => Some(Operation::SubbAConst),
            0x95 => Some(Operation::SubbAData),
            0x96..=0x97 => Some(Operation::SubbAIndirect),
            0x98..=0x9F => Some(Operation::SubbARn),
            0xA0 => Some(Operation::OrlCNotBit),
            0xA2 => Some(Operation::MovCBit),
            0xA3 => Some(Operation::IncDptr),
            0xA4 => Some(Operation::MulAb),
            0xA6..=0xA7 => Some(Operation::MovIndirectData),
            0xA8..=0xAF => Some(Operation::MovRnData),
            0xB0 => Some(Operation::AnlCNotBit),
            0xB2 => Some(Operation::CplBit),
            0xB3 => Some(Operation::CplC),
            0xB4 => Some(Operation::CjneAConst),
            0xB5 => Some(Operation::CjneAData),
            0xB6..=0xB7 => Some(Operation::CjneIndirectConst),
            0xB8..=0xBF => Some(Operation::CjneRnConst),
            0xC0 => Some(Operation::PushData),
            0xC2 => Some(Operation::ClrBit),
            0xC3 => Some(Operation::ClrC),
            0xC4 => Some(Operation::SwapA),
            0xC5 => Some(Operation::XchAData),
            0xC6..=0xC7 => Some(Operation::XchAIndirect),
            0xC8..=0xCF => Some(Operation::XchARn),
            0xD0 => Some(Operation::PopData),
            0xD2 => Some(Operation::SetbBit),
            0xD3 => Some(Operation::SetbC),
            0xD4 => Some(Operation::DaA),
            0xD5 => Some(Operation::DjnzData),
            0xD6..=0xD7 => Some(Operation::XchdAIndirect),
            0xD8..=0xDF => Some(Operation::DjnzRn),
            0xE0 => Some(Operation::MovxADptr),
            0xE2..=0xE3 => Some(Operation::MovxAIndirect),
            0xE4 => Some(Operation::ClrA),
            0xE5 => Some(Operation::MovAData),
            0xE6..=0xE7 => Some(Operation::MovAIndirect),
            0xE8..=0xEF => Some(Operation::MovARn),
            0xF0 => Some(Operation::MovxDptrA),
            0xF2..=0xF3 => Some(Operation::MovxIndirectA),
            0xF4 => Some(Operation::CplA),
            0xF5 => Some(Operation::MovDataA),
            0xF6..=0xF7 => Some(Operation::MovIndirectA),
            0xF8..=0xFF => Some(Operation::MovRnA),
            _ => None,
        };
        proof {
            match r {
                Some(operation) => {
                    lemma_operation_of(operation, op);
                },
                None => {
                    assert forall|operation: Operation| !operation.encodes(op) by {}
                },
            }
        }
        r
    }

    /// The length of an instruction of this operation, in bytes.
    pub fn bytes(self) -> (r: u8)
        ensures
            r == self.length(),
            1 <= r <= 3,
    {
        match self {
            Operation::Nop | Operation::RrA | Operation::IncA | Operation::IncIndirect
            | Operation::IncRn | Operation::RrcA | Operation::DecA | Operation::DecIndirect
            | Operation::DecRn | Operation::Ret | Operation::RlA | Operation::AddAIndirect
            | Operation::AddARn | Operation::Reti | Operation::RlcA | Operation::AddcAIndirect
            | Operation::AddcARn | Operation::OrlAIndirect | Operation::OrlARn
            | Operation::AnlAIndirect | Operation::AnlARn | Operation::XrlAIndirect
            | Operation::XrlARn | Operation::JmpADptr | Operation::MovcAPc | Operation::DivAb
            | Operation::MovcADptr | Operation::SubbAIndirect | Operation::SubbARn
            | Operation::IncDptr | Operation::MulAb | Operation::CplC | Operation::ClrC
            | Operation::SwapA | Operation::XchAIndirect | Operation::XchARn | Operation::SetbC
            | Operation::DaA | Operation::XchdAIndirect | Operation::MovxADptr
            | Operation::MovxAIndirect | Operation::ClrA | Operation::MovAIndirect
            | Operation::MovARn | Operation::MovxDptrA | Operation::MovxIndirectA
            | Operation::CplA | Operation::MovIndirectA | Operation::MovRnA => 1,
            Operation::Ajmp | Operation::IncData | Operation::Acall | Operation::DecData
            | Operation::AddAConst | Operation::AddAData | Operation::AddcAConst
            | Operation::AddcAData | Operation::Jc | Operation::OrlDataA | Operation::OrlAConst
            | Operation::OrlAData | Operation::Jnc | Operation::AnlDataA | Operation::AnlAConst
            | Operation::AnlAData | Operation::Jz | Operation::XrlDataA | Operation::XrlAConst
            | Operation::XrlAData | Operation::Jnz | Operation::OrlCBit | Operation::MovAConst
            | Operation::MovIndirectConst | Operation::MovRnConst | Operation::Sjmp
            | Operation::AnlCBit | Operation::MovDataIndirect | Operation::MovDataRn
            | Operation::MovBitC | Operation::SubbAConst | Operation::SubbAData
            | Operation::OrlCNotBit | Operation::MovCBit | Operation::MovIndirectData
            | Operation::MovRnData | Operation::AnlCNotBit | Operation::CplBit
            | Operation::PushData | Operation::ClrBit | Operation::XchAData
            | Operation::PopData | Operation::SetbBit | Operation::DjnzRn | Operation::MovAData
            | Operation::MovDataA => 2,
            _ => 3,
        }
    }

    /// Whether the emulator executes this operation.
    pub fn is_implemented(self) -> (r: bool)
        ensures
            r == self.implemented(),
    {
        match self {
            Operation::DecA | Operation::DecData | Operation::DecIndirect | Operation::JmpADptr
            | Operation::MovcAPc | Operation::DivAb | Operation::OrlCNotBit | Operation::MulAb
            | Operation::AnlCNotBit | Operation::CplC | Operation::ClrC | Operation::SwapA
            | Operation::XchAData | Operation::XchAIndirect | Operation::XchARn
            | Operation::SetbC | Operation::DaA | Operation::XchdAIndirect
            | Operation::MovxAIndirect | Operation::ClrA | Operation::MovxIndirectA
            | Operation::CplA => false,
            _ => true,
        }
    }

    /// The mnemonic of this operation, as text.
    pub fn mnemonic(self) -> (s: &'static str)
        ensures
            s@ == self.name(),
    {
        match self {
            Operation::Nop => "NOP",
            Operation::Ajmp => "AJMP addr11",
            Operation::Ljmp => "LJMP addr16",
            Operation::RrA => "RR A",
            Operation::IncA => "INC A",
            Operation::IncData => "INC direct",
            Operation::IncIndirect => "INC @Ri",
            Operation::IncRn => "INC Rn",
            Operation::Jbc => "JBC bit,rel",
            Operation::Acall => "ACALL addr11",
            Operation::Lcall => "LCALL addr16",
            Operation::RrcA => "RRC A",
            Operation::DecA => "DEC A",
            Operation::DecData => "DEC direct",
            Operation::DecIndirect => "DEC @Ri",
            Operation::DecRn => "DEC Rn",
            Operation::Jb => "JB bit,rel",
            Operation::Ret => "RET",
            Operation::RlA => "RL A",
            Operation::AddAConst => "ADD A,#data",
            Operation::AddAData => "ADD A,direct",
            Operation::AddAIndirect => "ADD A,@Ri",
            Operation::AddARn => "ADD A,Rn",
            Operation::Jnb => "JNB bit,rel",
            Operation::Reti => "RETI",
            Operation::RlcA => "RLC A",
            Operation::AddcAConst => "ADDC A,#data",
            Operation::AddcAData => "ADDC A,direct",
            Operation::AddcAIndirect => "ADDC A,@Ri",
            Operation::AddcARn => "ADDC A,Rn",
            Operation::Jc => "JC rel",
            Operation::OrlDataA => "ORL direct,A",
            Operation::OrlDataConst => "ORL direct,#data",
            Operation::OrlAConst => "ORL A,#data",
            Operation::OrlAData => "ORL A,direct",
            Operation::OrlAIndirect => "ORL A,@Ri",
            Operation::OrlARn => "ORL A,Rn",
            Operation::Jnc => "JNC rel",
            Operation::AnlDataA => "ANL direct,A",
            Operation::AnlDataConst => "ANL direct,#data",
            Operation::AnlAConst => "ANL A,#data",
            Operation::AnlAData => "ANL A,direct",
            Operation::AnlAIndirect => "ANL A,@Ri",
            Operation::AnlARn => "ANL A,Rn",
            Operation::Jz => "JZ rel",
            Operation::XrlDataA => "XRL direct,A",
            Operation::XrlDataConst => "XRL direct,#data",
            Operation::XrlAConst => "XRL A,#data",
            Operation::XrlAData => "XRL A,direct",
            Operation::XrlAIndirect => "XRL A,@Ri",
            Operation::XrlARn => "XRL A,Rn",
            Operation::Jnz => "JNZ rel",
            Operation::OrlCBit => "ORL C,bit",
            Operation::JmpADptr => "JMP @A+DPTR",
            Operation::MovAConst => "MOV A,#data",
            Operation::MovDataConst => "MOV direct,#data",
            Operation::MovIndirectConst => "MOV @Ri,#data",
            Operation::MovRnConst => "MOV Rn,#data",
            Operation::Sjmp => "SJMP rel",
            Operation::AnlCBit => "ANL C,bit",
            Operation::MovcAPc => "MOVC A,@A+PC",
            Operation::DivAb => "DIV AB",
            Operation::MovDataData => "MOV direct,direct",
            Operation::MovDataIndirect => "MOV direct,@Ri",
            Operation::MovDataRn => "MOV direct,Rn",
            Operation::MovDptrConst => "MOV DPTR,#data16",
            Operation::MovBitC => "MOV bit,C",
            Operation::MovcADptr => "MOVC A,@A+DPTR",
            Operation::SubbAConst => "SUBB A,#data",
            Operation::SubbAData => "SUBB A,direct",
            Operation::SubbAIndirect => "SUBB A,@Ri",
            Operation::SubbARn => "SUBB A,Rn",
            Operation::OrlCNotBit => "ORL C,/bit",
            Operation::MovCBit => "MOV C,bit",
            Operation::IncDptr => "INC DPTR",
            Operation::MulAb => "MUL AB",
            Operation::MovIndirectData => "MOV @Ri,direct",
            Operation::MovRnData => "MOV Rn,direct",
            Operation::AnlCNotBit => "ANL C,/bit",
            Operation::CplBit => "CPL bit",
            Operation::CplC => "CPL C",
            Operation::CjneAConst => "CJNE A,#data,rel",
            Operation::CjneAData => "CJNE A,direct,rel",
            Operation::CjneIndirectConst => "CJNE @Ri,#data,rel",
            Operation::CjneRnConst => "CJNE Rn,#data,rel",
            Operation::PushData => "PUSH direct",
            Operation::ClrBit => "CLR bit",
            Operation::ClrC => "CLR C",
            Operation::SwapA => "SWAP A",
            Operation::XchAData => "XCH A,direct",
            Operation::XchAIndirect => "XCH A,@Ri",
            Operation::XchARn => "XCH A,Rn",
            Operation::PopData => "POP direct",
            Operation::SetbBit => "SETB bit",
            Operation::SetbC => "SETB C",
            Operation::DaA => "DA A",
            Operation::DjnzData => "DJNZ direct,rel",
            Operation::XchdAIndirect => "XCHD A,@Ri",
            Operation::DjnzRn => "DJNZ Rn,rel",
            Operation::MovxADptr => "MOVX A,@DPTR",
            Operation::MovxAIndirect => "MOVX A,@Ri",
            Operation::ClrA => "CLR A",
            Operation::MovAData => "MOV A,direct",
            Operation::MovAIndirect => "MOV A,@Ri",
            Operation::MovARn => "MOV A,Rn",
            Operation::MovxDptrA => "MOVX @DPTR,A",
            Operation::MovxIndirectA => "MOVX @Ri,A",
            Operation::CplA => "CPL A",
            Operation::MovDataA => "MOV direct,A",
            Operation::MovIndirectA => "MOV @Ri,A",
            Operation::MovRnA => "MOV Rn,A",
        }
    }
}

/// No opcode byte encodes two operations.
pub proof fn lemma_encoding_is_unique(a: Operation, b: Operation, op: u8)
    requires
        a.encodes(op),
        b.encodes(op),
    ensures
        a == b,
{
}

/// An operation that an opcode byte encodes is the operation of that byte.
pub proof fn lemma_operation_of(operation: Operation, op: u8)
    requires
        operation.encodes(op),
    ensures
        Operation::of(op) == Some(operation),
{
    lemma_encoding_is_unique(choose|other: Operation| other.encodes(op), operation, op);
}

/// One instruction, as its opcode byte.
#[derive(Debug, Clone, Copy, PartialEq, Eq, Structural)]
pub struct Instruction {
    pub op: u8,
}

impl View for Instruction {
    type V = u8;

    open spec fn view(&self) -> u8 {
        self.op
    }
}

impl Instruction {
    pub const NOP: u8 = 0x00;

    pub const AJMP1: u8 = 0x01;

    pub const LJMP: u8 = 0x02;

    pub const RR_A: u8 = 0x03;

    pub const INC_A: u8 = 0x04;

    pub const INC_DATA: u8 = 0x05;

    pub const INC_INDIRECT_R0: u8 = 0x06;

    pub const INC_INDIRECT_R1: u8 = 0x07;

    pub const INC_R0: u8 = 0x08;

    pub const INC_R1: u8 = 0x09;

    pub const INC_R2: u8 = 0x0A;

    pub const INC_R3: u8 = 0x0B;

    pub const INC_R4: u8 = 0x0C;

    pub const INC_R5: u8 = 0x0D;

    pub const INC_R6: u8 = 0x0E;

    pub const INC_R7: u8 = 0x0F;

    pub const JBC_BIT_CODE: u8 = 0x10;

    pub const ACALL1: u8 = 0x11;

    pub const LCALL: u8 = 0x12;

    pub const RRC_A: u8 = 0x13;

    pub const DEC_A: u8 = 0x14;

    pub const DEC_DATA: u8 = 0x15;

    pub const DEC_INDIRECT_R0: u8 = 0x16;

    pub const DEC_INDIRECT_R1: u8 = 0x17;

    pub const DEC_R0: u8 = 0x18;

    pub const DEC_R1: u8 = 0x19;

    pub const DEC_R2: u8 = 0x1A;

    pub const DEC_R3: u8 = 0x1B;

    pub const DEC_R4: u8 = 0x1C;

    pub const DEC_R5: u8 = 0x1D;

    pub const DEC_R6: u8 = 0x1E;

    pub const DEC_R7: u8 = 0x1F;

    pub const JB_BIT_CODE: u8 = 0x20;

    pub const AJMP2: u8 = 0x21;

    pub const RET: u8 = 0x22;

    pub const RL_A: u8 = 0x23;

    pub const ADD_A_CONST: u8 = 0x24;

    pub const ADD_A_DATA: u8 = 0x25;

    pub const ADD_A_INDIRECT_R0: u8 = 0x26;

    pub const ADD_A_INDIRECT_R1: u8 = 0x27;

    pub const ADD_A_R0: u8 = 0x28;

    pub const ADD_A_R1: u8 = 0x29;

    pub const ADD_A_R2: u8 = 0x2A;

    pub const ADD_A_R3: u8 = 0x2B;

    pub const ADD_A_R4: u8 = 0x2C;

    pub const ADD_A_R5: u8 = 0x2D;

    pub const ADD_A_R6: u8 = 0x2E;

    pub const ADD_A_R7: u8 = 0x2F;

    pub const JNB_BIT_CODE: u8 = 0x30;

    pub const ACALL2: u8 = 0x31;

    pub const RETI: u8 = 0x32;

    pub const RLC_A: u8 = 0x33;

    pub const ADDC_A_CONST: u8 = 0x34;

    pub const ADDC_A_DATA: u8 = 0x35;

    pub const ADDC_A_INDIRECT_R0: u8 = 0x36;

    pub const ADDC_A_INDIRECT_R1: u8 = 0x37;

    pub const ADDC_A_R0: u8 = 0x38;

    pub const ADDC_A_R1: u8 = 0x39;

    pub const ADDC_A_R2: u8 = 0x3A;

    pub const ADDC_A_R3: u8 = 0x3B;

    pub const ADDC_A_R4: u8 = 0x3C;

    pub const ADDC_A_R5: u8 = 0x3D;

    pub const ADDC_A_R6: u8 = 0x3E;

    pub const ADDC_A_R7: u8 = 0x3F;

    pub const JC: u8 = 0x40;

    pub const AJMP3: u8 = 0x41;

    pub const ORL_DATA_A: u8 = 0x42;

    pub const ORL_DATA_CONST: u8 = 0x43;

    pub const ORL_A_CONST: u8 = 0x44;

    pub const ORL_A_DATA: u8 = 0x45;

    pub const ORL_A_INDIRECT_R0: u8 = 0x46;

    pub const ORL_A_INDIRECT_R1: u8 = 0x47;

    pub const ORL_A_R0: u8 = 0x48;

    pub const ORL_A_R1: u8 = 0x49;

    pub const ORL_A_R2: u8 = 0x4A;

    pub const ORL_A_R3: u8 = 0x4B;

    pub const ORL_A_R4: u8 = 0x4C;

    pub const ORL_A_R5: u8 = 0x4D;

    pub const ORL_A_R6: u8 = 0x4E;

    pub const ORL_A_R7: u8 = 0x4F;

    pub const JNC: u8 = 0x50;

    pub const ACALL3: u8 = 0x51;

    pub const ANL_DATA_A: u8 = 0x52;

    pub const ANL_DATA_CONST: u8 = 0x53;

    pub const ANL_A_CONST: u8 = 0x54;

    pub const ANL_A_DATA: u8 = 0x55;

    pub const ANL_A_INDIRECT_R0: u8 = 0x56;

    pub const ANL_A_INDIRECT_R1: u8 = 0x57;

    pub const ANL_A_R0: u8 = 0x58;

    pub const ANL_A_R1: u8 = 0x59;

    pub const ANL_A_R2: u8 = 0x5A;

    pub const ANL_A_R3: u8 = 0x5B;

    pub const ANL_A_R4: u8 = 0x5C;

    pub const ANL_A_R5: u8 = 0x5D;

    pub const ANL_A_R6: u8 = 0x5E;

    pub const ANL_A_R7: u8 = 0x5F;

    pub const JZ: u8 = 0x60;

    pub const AJMP4: u8 = 0x61;

    pub const XRL_DATA_A: u8 = 0x62;

    pub const XRL_DATA_CONST: u8 = 0x63;

    pub const XRL_A_CONST: u8 = 0x64;

    pub const XRL_A_DATA: u8 = 0x65;

    pub const XRL_A_INDIRECT_R0: u8 = 0x66;

    pub const XRL_A_INDIRECT_R1: u8 = 0x67;

    pub const XRL_A_R0: u8 = 0x68;

    pub const XRL_A_R1: u8 = 0x69;

    pub const XRL_A_R2: u8 = 0x6A;

    pub const XRL_A_R3: u8 = 0x6B;

    pub const XRL_A_R4: u8 = 0x6C;

    pub const XRL_A_R5: u8 = 0x6D;

    pub const XRL_A_R6: u8 = 0x6E;

    pub const XRL_A_R7: u8 = 0x6F;

    pub const JNZ: u8 = 0x70;

    pub const ACALL4: u8 = 0x71;

    pub const ORL_C_BIT: u8 = 0x72;

    pub const JMP_INDIRECT_A_DPTR: u8 = 0x73;

    pub const MOV_A_CONST: u8 = 0x74;

    pub const MOV_DATA_CONST: u8 = 0x75;

    pub const MOV_INDIRECT_R0_CONST: u8 = 0x76;

    pub const MOV_INDIRECT_R1_CONST: u8 = 0x77;

    pub const MOV_R0_CONST: u8 = 0x78;

    pub const MOV_R1_CONST: u8 = 0x79;

    pub const MOV_R2_CONST: u8 = 0x7A;

    pub const MOV_R3_CONST: u8 = 0x7B;

    pub const MOV_R4_CONST: u8 = 0x7C;

    pub const MOV_R5_CONST: u8 = 0x7D;

    pub const MOV_R6_CONST: u8 = 0x7E;

    pub const MOV_R7_CONST: u8 = 0x7F;

    pub const SJMP: u8 = 0x80;

    pub const AJMP5: u8 = 0x81;

    pub const ANL_C_BIT: u8 = 0x82;

    pub const MOVC_A_INDIRECT_A_PC: u8 = 0x83;

    pub const DIV_AB: u8 = 0x84;

    pub const MOV_DATA_DATA: u8 = 0x85;

    pub const MOV_DATA_INDIRECT_R0: u8 = 0x86;

    pub const MOV_DATA_INDIRECT_R1: u8 = 0x87;

    pub const MOV_DATA_R0: u8 = 0x88;

    pub const MOV_DATA_R1: u8 = 0x89;

    pub const MOV_DATA_R2: u8 = 0x8A;

    pub const MOV_DATA_R3: u8 = 0x8B;

    pub const MOV_DATA_R4: u8 = 0x8C;

    pub const MOV_DATA_R5: u8 = 0x8D;

    pub const MOV_DATA_R6: u8 = 0x8E;

    pub const MOV_DATA_R7: u8 = 0x8F;

    pub const MOV_DPTR_CONST: u8 = 0x90;

    pub const ACALL5: u8 = 0x91;

    pub const MOV_BIT_C: u8 = 0x92;

    pub const MOVC_A_INDIRECT_A_DPTR: u8 = 0x93;

    pub const SUBB_A_CONST: u8 = 0x94;

    pub const SUBB_A_DATA: u8 = 0x95;

    pub const SUBB_A_INDIRECT_R0: u8 = 0x96;

    pub const SUBB_A_INDIRECT_R1: u8 = 0x97;

    pub const SUBB_A_R0: u8 = 0x98;

    pub const SUBB_A_R1: u8 = 0x99;

    pub const SUBB_A_R2: u8 = 0x9A;

    pub const SUBB_A_R3: u8 = 0x9B;

    pub const SUBB_A_R4: u8 = 0x9C;

    pub const SUBB_A_R5: u8 = 0x9D;

    pub const SUBB_A_R6: u8 = 0x9E;

    pub const SUBB_A_R7: u8 = 0x9F;

    pub const ORL_C_NOT_BIT: u8 = 0xA0;

    pub const AJMP6: u8 = 0xA1;

    pub const MOV_C_BIT: u8 = 0xA2;

    pub const INC_DPTR: u8 = 0xA3;

    pub const MUL_AB: u8 = 0xA4;

    pub const MOV_INDIRECT_R0_DATA: u8 = 0xA6;

    pub const MOV_INDIRECT_R1_DATA: u8 = 0xA7;

    pub const MOV_R0_DATA: u8 = 0xA8;

    pub const MOV_R1_DATA: u8 = 0xA9;

    pub const MOV_R2_DATA: u8 = 0xAA;

    pub const MOV_R3_DATA: u8 = 0xAB;

    pub const MOV_R4_DATA: u8 = 0xAC;

    pub const MOV_R5_DATA: u8 = 0xAD;

    pub const MOV_R6_DATA: u8 = 0xAE;

    pub const MOV_R7_DATA: u8 = 0xAF;

    pub const ANL_C_NOT_BIT: u8 = 0xB0;

    pub const ACALL6: u8 = 0xB1;

    pub const CPL_BIT: u8 = 0xB2;

    pub const CPL_C: u8 = 0xB3;

    pub const CJNE_A_CONST_CODE: u8 = 0xB4;

    pub const CJNE_A_DATA_CODE: u8 = 0xB5;

    pub const CJNE_INDIRECT_R0_CONST_CODE: u8 = 0xB6;

    pub const CJNE_INDIRECT_R1_CONST_CODE: u8 = 0xB7;

    pub const CJNE_R0_CONST_CODE: u8 = 0xB8;

    pub const CJNE_R1_CONST_CODE: u8 = 0xB9;

    pub const CJNE_R2_CONST_CODE: u8 = 0xBA;

    pub const CJNE_R3_CONST_CODE: u8 = 0xBB;

    pub const CJNE_R4_CONST_CODE: u8 = 0xBC;

    pub const CJNE_R5_CONST_CODE: u8 = 0xBD;

    pub const CJNE_R6_CONST_CODE: u8 = 0xBE;

    pub const CJNE_R7_CONST_CODE: u8 = 0xBF;

    pub const PUSH_DATA: u8 = 0xC0;

    pub const AJMP7: u8 = 0xC1;

    pub const CLR_BIT: u8 = 0xC2;

    pub const CLR_C: u8 = 0xC3;

    pub const SWAP_A: u8 = 0xC4;

    pub const XCH_A_DATA: u8 = 0xC5;

    pub const XCH_A_INDIRECT_R0: u8 = 0xC6;

    pub const XCH_A_INDIRECT_R1: u8 = 0xC7;

    pub const XCH_A_R0: u8 = 0xC8;

    pub const XCH_A_R1: u8 = 0xC9;

    pub const XCH_A_R2: u8 = 0xCA;

    pub const XCH_A_R3: u8 = 0xCB;

    pub const XCH_A_R4: u8 = 0xCC;

    pub const XCH_A_R5: u8 = 0xCD;

    pub const XCH_A_R6: u8 = 0xCE;

    pub const XCH_A_R7: u8 = 0xCF;

    pub const POP_DATA: u8 = 0xD0;

    pub const ACALL7: u8 = 0xD1;

    pub const SETB_BIT: u8 = 0xD2;

    pub const SETB_C: u8 = 0xD3;

    pub const DA_A: u8 = 0xD4;

    pub const DJNZ_DATA_CODE: u8 = 0xD5;

    pub const XCHD_A_INDIRECT_R0: u8 = 0xD6;

    pub const XCHD_A_INDIRECT_R1: u8 = 0xD7;

    pub const DJNZ_R0_CODE: u8 = 0xD8;

    pub const DJNZ_R1_CODE: u8 = 0xD9;

    pub const DJNZ_R2_CODE: u8 = 0xDA;

    pub const DJNZ_R3_CODE: u8 = 0xDB;

    pub const DJNZ_R4_CODE: u8 = 0xDC;

    pub const DJNZ_R5_CODE: u8 = 0xDD;

    pub const DJNZ_R6_CODE: u8 = 0xDE;

    pub const DJNZ_R7_CODE: u8 = 0xDF;

    pub const MOVX_A_INDIRECT_DPTR: u8 = 0xE0;

    pub const AJMP8: u8 = 0xE1;

    pub const MOVX_A_INDIRECT_R0: u8 = 0xE2;

    pub const MOVX_A_INDIRECT_R1: u8 = 0xE3;

    pub const CLR_A: u8 = 0xE4;

    pub const MOV_A_DATA: u8 = 0xE5;

    pub const MOV_A_INDIRECT_R0: u8 = 0xE6;

    pub const MOV_A_INDIRECT_R1: u8 = 0xE7;

    pub const MOV_A_R0: u8 = 0xE8;

    pub const MOV_A_R1: u8 = 0xE9;

    pub const MOV_A_R2: u8 = 0xEA;

    pub const MOV_A_R3: u8 = 0xEB;

    pub const MOV_A_R4: u8 = 0xEC;

    pub const MOV_A_R5: u8 = 0xED;

    pub const MOV_A_R6: u8 = 0xEE;

    pub const MOV_A_R7: u8 = 0xEF;

    pub const MOVX_INDIRECT_DPTR_A: u8 = 0xF0;

    pub const ACALL8: u8 = 0xF1;

    pub const MOVX_INDIRECT_R0_A: u8 = 0xF2;

    pub const MOVX_INDIRECT_R1_A: u8 = 0xF3;

    pub const CPL_A: u8 = 0xF4;

    pub const MOV_DATA_A: u8 = 0xF5;

    pub const MOV_INDIRECT_R0_A: u8 = 0xF6;

    pub const MOV_INDIRECT_R1_A: u8 = 0xF7;

    pub const MOV_R0_A: u8 = 0xF8;

    pub const MOV_R1_A: u8 = 0xF9;

    pub const MOV_R2_A: u8 = 0xFA;

    pub const MOV_R3_A: u8 = 0xFB;

    pub const MOV_R4_A: u8 = 0xFC;

    pub const MOV_R5_A: u8 = 0xFD;

    pub const MOV_R6_A: u8 = 0xFE;

    pub const MOV_R7_A: u8 = 0xFF;

    /// The instruction with the opcode byte `op`.
    pub fn new(op: u8) -> (insn: Self)
        ensures
            insn@ == op,
    {
        Instruction { op }
    }

    /// The opcode byte.
    pub fn op(&self) -> (op: u8)
        ensures
            op == self@,
    {
        self.op
    }

    /// The operation that the instruction performs. Fails with
    /// `UnknownInstruction` exactly when the opcode byte encodes none.
    pub fn operation(&self) -> (r: Result<Operation, RuntimeError>)
        ensures
            Operation::of(self@) matches Some(operation) ==> r == Ok::<Operation, RuntimeError>(
                operation,
            ),
            Operation::of(self@) is None ==> r == Err::<Operation, RuntimeError>(
                RuntimeError { error_type: ErrorType::UnknownInstruction },
            ),
    {
        match Operation::decode(self.op) {
            Some(operation) => Ok(operation),
            None => Err(RuntimeError::new(ErrorType::UnknownInstruction)),
        }
    }

    /// The length of the instruction in bytes; 1 where the opcode byte encodes
    /// no operation.
    pub fn bytes(&self) -> (r: u8)
        ensures
            r == instruction_length(self@),
            1 <= r <= 3,
    {
        match Operation::decode(self.op) {
            Some(operation) => operation.bytes(),
            None => 1,
        }
    }

    /// The mnemonic of the instruction; the empty text where the opcode byte
    /// encodes no operation.
    pub fn mnemonic(&self) -> (s: &'static str)
        ensures
            s@ == (match Operation::of(self@) {
                Some(operation) => operation.name(),
                None => ""@,
            }),
    {
        match Operation::decode(self.op) {
            Some(operation) => operation.mnemonic(),
            None => "",
        }
    }
}

impl From<u8> for Instruction {
    /// The instruction with the opcode byte `op`.
    fn from(op: u8) -> (insn: Instruction) {
        Instruction { op }
    }
}

impl FromSpecImpl<u8> for Instruction {
    open spec fn obeys_from_spec() -> bool {
        true
    }

    open spec fn from_spec(op: u8) -> Instruction {
        Instruction { op }
    }
}

impl From<Instruction> for u8 {
    /// The opcode byte of the instruction.
    fn from(insn: Instruction) -> (op: u8) {
        insn.op
    }
}

impl FromSpecImpl<Instruction> for u8 {
    open spec fn obeys_from_spec() -> bool {
        true
    }

    open spec fn from_spec(insn: Instruction) -> u8 {
        insn@
    }
}

/// The first operand byte of an instruction. Fails with
/// `InstructionArg0Missing` exactly when none was supplied.
pub fn first_operand(arg0: Option<u8>) -> (r: Result<u8, RuntimeError>)
    ensures
        r == (match arg0 {
            Some(operand) => Ok::<u8, RuntimeError>(operand),
            None => Err::<u8, RuntimeError>(
                RuntimeError { error_type: ErrorType::InstructionArg0Missing },
            ),
        }),
{
    match arg0 {
        Some(operand) => Ok(operand),
        None => Err(RuntimeError::new(ErrorType::InstructionArg0Missing)),
    }
}

/// The second operand byte of an instruction. Fails with
/// `InstructionArg1Missing` exactly when none was supplied.
pub fn second_operand(arg1: Option<u8>) -> (r: Result<u8, RuntimeError>)
    ensures
        r == (match arg1 {
            Some(operand) => Ok::<u8, RuntimeError>(operand),
            None => Err::<u8, RuntimeError>(
                RuntimeError { error_type: ErrorType::InstructionArg1Missing },
            ),
        }),
{
    match arg1 {
        Some(operand) => Ok(operand),
        None => Err(RuntimeError::new(ErrorType::InstructionArg1Missing)),
    }
}

/// The length in bytes of the instruction with the opcode byte `op`; 1 where
/// the byte encodes no operation.
pub open spec fn instruction_length(op: u8) -> u8 {
    match Operation::of(op) {
        Some(operation) => operation.length(),
        None => 1,
    }
}

} // verus!
