use shiro51::error::{ErrorType, RuntimeError};
use shiro51::instructions::instruction::{Instruction, Operation};

#[test]
fn every_opcode_but_one_encodes_an_operation() {
    for op in 0..=255u8 {
        let insn = Instruction::new(op);
        assert_eq!(insn.op(), op);
        if op == 0xa5 {
            assert_eq!(Operation::decode(op), None);
            assert_eq!(insn.operation(), Err(RuntimeError::new(ErrorType::UnknownInstruction)));
            assert_eq!(insn.bytes(), 1);
            assert_eq!(insn.mnemonic(), "");
        } else {
            let operation = Operation::decode(op).unwrap();
            assert_eq!(insn.operation(), Ok(operation));
            assert_eq!(insn.bytes(), operation.bytes());
            assert_eq!(insn.mnemonic(), operation.mnemonic());
            assert!((1..=3).contains(&insn.bytes()));
            assert!(!insn.mnemonic().is_empty());
        }
    }
}

#[test]
fn register_groups_share_their_operation() {
    let groups: [(u8, Operation); 13] = [
        (0x08, Operation::IncRn),
        (0x18, Operation::DecRn),
        (0x28, Operation::AddARn),
        (0x38, Operation::AddcARn),
        (0x48, Operation::OrlARn),
        (0x58, Operation::AnlARn),
        (0x68, Operation::XrlARn),
        (0x78, Operation::MovRnConst),
        (0x88, Operation::MovDataRn),
        (0x98, Operation::SubbARn),
        (0xa8, Operation::MovRnData),
        (0xb8, Operation::CjneRnConst),
        (0xd8, Operation::DjnzRn),
    ];
    for (base, operation) in groups {
        for n in 0..8u8 {
            assert_eq!(Operation::decode(base + n), Some(operation));
        }
        assert_ne!(Operation::decode(base - 1), Some(operation));
    }
    for page in 0..8u8 {
        assert_eq!(Operation::decode(0x01 + 0x20 * page), Some(Operation::Ajmp));
        assert_eq!(Operation::decode(0x11 + 0x20 * page), Some(Operation::Acall));
    }
    assert_eq!(Operation::decode(0x06), Some(Operation::IncIndirect));
    assert_eq!(Operation::decode(0x07), Some(Operation::IncIndirect));
    assert_eq!(Operation::decode(0xe6), Some(Operation::MovAIndirect));
    assert_eq!(Operation::decode(0xe7), Some(Operation::MovAIndirect));
}

#[test]
fn instructions_convert_to_and_from_their_opcode() {
    for op in 0..=255u8 {
        let insn = Instruction::from(op);
        assert_eq!(insn, Instruction::new(op));
        assert_eq!(u8::from(insn), op);
    }
}

#[test]
fn lengths_follow_the_operands() {
    assert_eq!(Instruction::new(Instruction::NOP).bytes(), 1);
    assert_eq!(Instruction::new(Instruction::RET).bytes(), 1);
    assert_eq!(Instruction::new(Instruction::ADD_A_R5).bytes(), 1);
    assert_eq!(Instruction::new(Instruction::MOVX_A_INDIRECT_DPTR).bytes(), 1);
    assert_eq!(Instruction::new(Instruction::AJMP1).bytes(), 2);
    assert_eq!(Instruction::new(Instruction::ACALL8).bytes(), 2);
    assert_eq!(Instruction::new(Instruction::SJMP).bytes(), 2);
    assert_eq!(Instruction::new(Instruction::ADD_A_CONST).bytes(), 2);
    assert_eq!(Instruction::new(Instruction::DJNZ_R0_CODE).bytes(), 2);
    assert_eq!(Instruction::new(Instruction::PUSH_DATA).bytes(), 2);
    assert_eq!(Instruction::new(Instruction::SETB_BIT).bytes(), 2);
    assert_eq!(Instruction::new(Instruction::LJMP).bytes(), 3);
    assert_eq!(Instruction::new(Instruction::LCALL).bytes(), 3);
    assert_eq!(Instruction::new(Instruction::JB_BIT_CODE).bytes(), 3);
    assert_eq!(Instruction::new(Instruction::CJNE_A_CONST_CODE).bytes(), 3);
    assert_eq!(Instruction::new(Instruction::DJNZ_DATA_CODE).bytes(), 3);
    assert_eq!(Instruction::new(Instruction::MOV_DPTR_CONST).bytes(), 3);
    assert_eq!(Instruction::new(Instruction::ORL_DATA_CONST).bytes(), 3);
    assert_eq!(Instruction::new(Instruction::MOV_DATA_DATA).bytes(), 3);
}

#[test]
fn mnemonics_name_the_operation() {
    assert_eq!(Instruction::new(Instruction::NOP).mnemonic(), "NOP");
    assert_eq!(Instruction::new(Instruction::ADD_A_R3).mnemonic(), "ADD A,Rn");
    assert_eq!(Instruction::new(Instruction::ADDC_A_CONST).mnemonic(), "ADDC A,#data");
    assert_eq!(Instruction::new(Instruction::SUBB_A_INDIRECT_R1).mnemonic(), "SUBB A,@Ri");
    assert_eq!(Instruction::new(Instruction::AJMP5).mnemonic(), "AJMP addr11");
    assert_eq!(Instruction::new(Instruction::JB_BIT_CODE).mnemonic(), "JB bit,rel");
    assert_eq!(Instruction::new(Instruction::MOVC_A_INDIRECT_A_DPTR).mnemonic(), "MOVC A,@A+DPTR");
    assert_eq!(Operation::MulAb.mnemonic(), "MUL AB");
}

#[test]
fn the_opcode_names_have_their_values() {
    assert_eq!(Instruction::NOP, 0x00);
    assert_eq!(Instruction::AJMP1, 0x01);
    assert_eq!(Instruction::AJMP2, 0x21);
    assert_eq!(Instruction::AJMP8, 0xe1);
    assert_eq!(Instruction::ACALL1, 0x11);
    assert_eq!(Instruction::ACALL4, 0x71);
    assert_eq!(Instruction::LJMP, 0x02);
    assert_eq!(Instruction::JB_BIT_CODE, 0x20);
    assert_eq!(Instruction::RET, 0x22);
    assert_eq!(Instruction::JNB_BIT_CODE, 0x30);
    assert_eq!(Instruction::ADDC_A_R2, 0x3a);
    assert_eq!(Instruction::ORL_DATA_CONST, 0x43);
    assert_eq!(Instruction::SJMP, 0x80);
    assert_eq!(Instruction::SUBB_A_R2, 0x9a);
    assert_eq!(Instruction::PUSH_DATA, 0xc0);
    assert_eq!(Instruction::POP_DATA, 0xd0);
    assert_eq!(Instruction::DJNZ_DATA_CODE, 0xd5);
    assert_eq!(Instruction::MOV_R7_A, 0xff);
}

#[test]
fn the_operations_that_are_not_executed() {
    let not_executed = [
        Operation::DecA,
        Operation::DecData,
        Operation::DecIndirect,
        Operation::JmpADptr,
        Operation::MovcAPc,
        Operation::DivAb,
        Operation::MulAb,
        Operation::OrlCNotBit,
        Operation::AnlCNotBit,
        Operation::CplC,
        Operation::ClrC,
        Operation::SetbC,
        Operation::SwapA,
        Operation::XchAData,
        Operation::XchAIndirect,
        Operation::XchARn,
        Operation::DaA,
        Operation::XchdAIndirect,
        Operation::MovxAIndirect,
        Operation::MovxIndirectA,
        Operation::ClrA,
        Operation::CplA,
    ];
    let mut count = 0;
    for op in 0..=255u8 {
        if let Some(operation) = Operation::decode(op) {
            assert_eq!(operation.is_implemented(), !not_executed.contains(&operation));
            if !operation.is_implemented() {
                count += 1;
            }
        }
    }
    assert_eq!(count, 34);
}
