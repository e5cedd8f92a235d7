use shiro51::addr::Addr8;
use shiro51::cpu::{CPU, PC};
use shiro51::error::{ErrorType, RuntimeError};
use shiro51::instructions::arithmetic::{insn_add_a_addr, insn_add_a_rn, insn_inc_data};
use shiro51::instructions::branching::{insn_acall, insn_ajmp, insn_nop};
use shiro51::instructions::instruction::Instruction;
use shiro51::instructions::logical::{insn_anl_a_rn, insn_orl_a_rn, insn_rl_a, insn_rr_a};
use shiro51::registers::{GPR, SFR};

const CY: u8 = 0x80;
const AC: u8 = 0x40;
const OV: u8 = 0x04;

fn exec(cpu: &mut CPU, op: u8, arg0: u8, arg1: u8) -> PC {
    cpu.run_instruction(Instruction::new(op), Some(arg0), Some(arg1)).unwrap()
}

#[test]
fn add_a_r0_sets_carry_and_overflow() {
    let mut cpu = CPU::new();
    cpu.set_sfr(SFR::ACC, 0xc3);
    cpu.set_gpr(GPR::R0, 0xaa);
    cpu.set_sfr(SFR::PSW, 0x00);

    let res = insn_add_a_rn(&mut cpu, Instruction::new(Instruction::ADD_A_R0), None, None);

    assert_eq!(res, Ok(PC::ADVANCE));
    assert_eq!(cpu.get_sfr(SFR::ACC), 0x6d);
    assert_eq!(cpu.get_sfr(SFR::PSW), CY | OV);
    assert_eq!(cpu.get_pc(), 0);
}

#[test]
fn arithmetic_keeps_the_other_bits_of_the_status_word() {
    let mut cpu = CPU::new();
    // Every bit set: bank 3, user flag, parity and the reserved bit.
    cpu.set_sfr(SFR::PSW, 0xff);
    cpu.set_sfr(SFR::ACC, 0x01);
    cpu.write(Addr8::new(0x40), 0x01);
    assert_eq!(
        insn_add_a_addr(&mut cpu, Instruction::new(Instruction::ADD_A_DATA), Some(0x40), None),
        Ok(PC::ADVANCE)
    );
    assert_eq!(cpu.get_sfr(SFR::ACC), 0x02);
    assert_eq!(cpu.get_sfr(SFR::PSW), 0xff & !(CY | AC | OV));

    cpu.set_sfr(SFR::PSW, 0x00);
    cpu.set_sfr(SFR::ACC, 0x0f);
    exec(&mut cpu, Instruction::ADD_A_CONST, 0x01, 0);
    assert_eq!(cpu.get_sfr(SFR::ACC), 0x10);
    assert_eq!(cpu.get_sfr(SFR::PSW), AC);
}

#[test]
fn registers_live_in_the_selected_bank() {
    let mut cpu = CPU::new();
    for bank in 0..4u8 {
        cpu.set_sfr(SFR::PSW, bank << 3);
        assert_eq!(cpu.get_memory().cur_reg_bank(), bank);
        cpu.set_gpr(GPR::R3, 0x10 + bank);
        assert_eq!(cpu.read(Addr8::new(8 * bank + 3)), 0x10 + bank);
        assert_eq!(cpu.get_gpr(GPR::R3), 0x10 + bank);
    }
    // The other bits of the status word do not select.
    cpu.set_sfr(SFR::PSW, 0xe7);
    assert_eq!(cpu.get_memory().cur_reg_bank(), 0);
    assert_eq!(cpu.get_gpr(GPR::R3), 0x10);

    cpu.set_sfr(SFR::PSW, 0x10);
    cpu.set_sfr(SFR::ACC, 0x01);
    exec(&mut cpu, Instruction::ADD_A_R3, 0, 0);
    assert_eq!(cpu.get_sfr(SFR::ACC), 0x13);
}

#[test]
fn indirect_operands_go_through_r0_and_r1() {
    let mut cpu = CPU::new();
    cpu.set_gpr(GPR::R0, 0x40);
    cpu.set_gpr(GPR::R1, 0x41);
    cpu.write(Addr8::new(0x40), 0x05);
    cpu.write(Addr8::new(0x41), 0x06);

    cpu.set_sfr(SFR::ACC, 0x10);
    exec(&mut cpu, Instruction::ADD_A_INDIRECT_R0, 0, 0);
    assert_eq!(cpu.get_sfr(SFR::ACC), 0x15);
    exec(&mut cpu, Instruction::ADD_A_INDIRECT_R1, 0, 0);
    assert_eq!(cpu.get_sfr(SFR::ACC), 0x1b);

    exec(&mut cpu, Instruction::MOV_INDIRECT_R1_A, 0, 0);
    assert_eq!(cpu.read(Addr8::new(0x41)), 0x1b);
    exec(&mut cpu, Instruction::INC_INDIRECT_R0, 0, 0);
    assert_eq!(cpu.read(Addr8::new(0x40)), 0x06);
    exec(&mut cpu, Instruction::MOV_INDIRECT_R0_CONST, 0x77, 0);
    assert_eq!(cpu.read(Addr8::new(0x40)), 0x77);
    exec(&mut cpu, Instruction::MOV_INDIRECT_R1_DATA, 0x40, 0);
    assert_eq!(cpu.read(Addr8::new(0x41)), 0x77);
    exec(&mut cpu, Instruction::MOV_A_INDIRECT_R1, 0, 0);
    assert_eq!(cpu.get_sfr(SFR::ACC), 0x77);
    exec(&mut cpu, Instruction::MOV_DATA_INDIRECT_R0, 0x50, 0);
    assert_eq!(cpu.read(Addr8::new(0x50)), 0x77);
}

#[test]
fn addc_and_subb_take_the_carry_in() {
    let mut cpu = CPU::new();
    cpu.set_sfr(SFR::ACC, 0x10);
    cpu.set_sfr(SFR::PSW, CY);
    exec(&mut cpu, Instruction::ADDC_A_CONST, 0x01, 0);
    assert_eq!(cpu.get_sfr(SFR::ACC), 0x12);
    assert_eq!(cpu.get_sfr(SFR::PSW), 0x00);

    // Without a carry nothing is added in.
    exec(&mut cpu, Instruction::ADDC_A_CONST, 0x01, 0);
    assert_eq!(cpu.get_sfr(SFR::ACC), 0x13);

    cpu.write(Addr8::new(0x30), 0x13);
    exec(&mut cpu, Instruction::SUBB_A_DATA, 0x30, 0);
    assert_eq!(cpu.get_sfr(SFR::ACC), 0x00);
    assert_eq!(cpu.get_sfr(SFR::PSW), 0x00);

    exec(&mut cpu, Instruction::SUBB_A_CONST, 0x01, 0);
    assert_eq!(cpu.get_sfr(SFR::ACC), 0xff);
    assert_eq!(cpu.get_sfr(SFR::PSW), CY | AC);

    // The borrow is taken off too, and counts against the low nibble:
    // 0xFF - 0x0F - 1.
    exec(&mut cpu, Instruction::SUBB_A_CONST, 0x0f, 0);
    assert_eq!(cpu.get_sfr(SFR::ACC), 0xef);
    assert_eq!(cpu.get_sfr(SFR::PSW), AC);
}

#[test]
fn increments_and_decrements_wrap_without_flags() {
    let mut cpu = CPU::new();
    cpu.set_sfr(SFR::ACC, 0xff);
    exec(&mut cpu, Instruction::INC_A, 0, 0);
    assert_eq!(cpu.get_sfr(SFR::ACC), 0x00);
    assert_eq!(cpu.get_sfr(SFR::PSW), 0x00);

    cpu.write(Addr8::new(0x30), 0xff);
    assert_eq!(
        insn_inc_data(&mut cpu, Instruction::new(Instruction::INC_DATA), Some(0x30), None),
        Ok(PC::ADVANCE)
    );
    assert_eq!(cpu.read(Addr8::new(0x30)), 0x00);
    exec(&mut cpu, Instruction::INC_DATA, 0x30, 0);
    assert_eq!(cpu.read(Addr8::new(0x30)), 0x01);

    cpu.set_gpr(GPR::R7, 0x00);
    exec(&mut cpu, Instruction::DEC_R7, 0, 0);
    assert_eq!(cpu.get_gpr(GPR::R7), 0xff);
    exec(&mut cpu, Instruction::INC_R7, 0, 0);
    assert_eq!(cpu.get_gpr(GPR::R7), 0x00);

    cpu.set_sfr(SFR::DPH, 0x12);
    cpu.set_sfr(SFR::DPL, 0xff);
    exec(&mut cpu, Instruction::INC_DPTR, 0, 0);
    assert_eq!(cpu.dptr(), 0x1300);
    cpu.set_sfr(SFR::DPH, 0xff);
    cpu.set_sfr(SFR::DPL, 0xff);
    exec(&mut cpu, Instruction::INC_DPTR, 0, 0);
    assert_eq!(cpu.dptr(), 0x0000);
}

#[test]
fn logical_instructions_touch_no_flag() {
    let mut cpu = CPU::new();
    cpu.set_sfr(SFR::PSW, CY | OV);
    cpu.set_sfr(SFR::ACC, 0b1100_1010);
    cpu.set_gpr(GPR::R1, 0b1010_0110);

    assert_eq!(
        insn_orl_a_rn(&mut cpu, Instruction::new(Instruction::ORL_A_R1), None, None),
        Ok(PC::ADVANCE)
    );
    assert_eq!(cpu.get_sfr(SFR::ACC), 0b1110_1110);
    assert_eq!(
        insn_anl_a_rn(&mut cpu, Instruction::new(Instruction::ANL_A_R1), None, None),
        Ok(PC::ADVANCE)
    );
    assert_eq!(cpu.get_sfr(SFR::ACC), 0b1010_0110);
    exec(&mut cpu, Instruction::XRL_A_CONST, 0xff, 0);
    assert_eq!(cpu.get_sfr(SFR::ACC), 0b0101_1001);

    cpu.write(Addr8::new(0x30), 0x0f);
    exec(&mut cpu, Instruction::ANL_DATA_CONST, 0x30, 0x3c);
    assert_eq!(cpu.read(Addr8::new(0x30)), 0x0c);
    exec(&mut cpu, Instruction::XRL_DATA_CONST, 0x30, 0xff);
    assert_eq!(cpu.read(Addr8::new(0x30)), 0xf3);
    cpu.set_sfr(SFR::ACC, 0x0f);
    exec(&mut cpu, Instruction::ANL_DATA_A, 0x30, 0);
    assert_eq!(cpu.read(Addr8::new(0x30)), 0x03);
    exec(&mut cpu, Instruction::ORL_DATA_A, 0x30, 0);
    assert_eq!(cpu.read(Addr8::new(0x30)), 0x0f);
    exec(&mut cpu, Instruction::XRL_DATA_A, 0x30, 0);
    assert_eq!(cpu.read(Addr8::new(0x30)), 0x00);
    exec(&mut cpu, Instruction::ORL_A_DATA, 0x30, 0);
    assert_eq!(cpu.get_sfr(SFR::ACC), 0x0f);

    assert_eq!(cpu.get_sfr(SFR::PSW), CY | OV);
}

#[test]
fn rotations_bring_the_bit_that_leaves_back_in() {
    let mut cpu = CPU::new();
    cpu.set_sfr(SFR::ACC, 0b1000_0001);
    assert_eq!(insn_rl_a(&mut cpu, Instruction::new(Instruction::RL_A), None, None), Ok(PC::ADVANCE));
    assert_eq!(cpu.get_sfr(SFR::ACC), 0b0000_0011);
    assert_eq!(insn_rr_a(&mut cpu, Instruction::new(Instruction::RR_A), None, None), Ok(PC::ADVANCE));
    assert_eq!(cpu.get_sfr(SFR::ACC), 0b1000_0001);
    exec(&mut cpu, Instruction::RR_A, 0, 0);
    assert_eq!(cpu.get_sfr(SFR::ACC), 0b1100_0000);
    assert_eq!(cpu.get_sfr(SFR::PSW), 0x00);
}

#[test]
fn rotations_through_carry_use_nine_bits() {
    let mut cpu = CPU::new();
    cpu.set_sfr(SFR::ACC, 0b1000_0001);
    cpu.set_sfr(SFR::PSW, 0x00);
    exec(&mut cpu, Instruction::RLC_A, 0, 0);
    assert_eq!(cpu.get_sfr(SFR::ACC), 0b0000_0010);
    assert_eq!(cpu.get_sfr(SFR::PSW), CY);
    exec(&mut cpu, Instruction::RLC_A, 0, 0);
    assert_eq!(cpu.get_sfr(SFR::ACC), 0b0000_0101);
    assert_eq!(cpu.get_sfr(SFR::PSW), 0x00);

    exec(&mut cpu, Instruction::RRC_A, 0, 0);
    assert_eq!(cpu.get_sfr(SFR::ACC), 0b0000_0010);
    assert_eq!(cpu.get_sfr(SFR::PSW), CY);
    exec(&mut cpu, Instruction::RRC_A, 0, 0);
    assert_eq!(cpu.get_sfr(SFR::ACC), 0b1000_0001);
    assert_eq!(cpu.get_sfr(SFR::PSW), 0x00);
}

#[test]
fn moves_between_accumulator_registers_and_data() {
    let mut cpu = CPU::new();
    exec(&mut cpu, Instruction::MOV_A_CONST, 0x5a, 0);
    assert_eq!(cpu.get_sfr(SFR::ACC), 0x5a);
    exec(&mut cpu, Instruction::MOV_R4_A, 0, 0);
    assert_eq!(cpu.get_gpr(GPR::R4), 0x5a);
    exec(&mut cpu, Instruction::MOV_DATA_R4, 0x33, 0);
    assert_eq!(cpu.read(Addr8::new(0x33)), 0x5a);
    exec(&mut cpu, Instruction::MOV_R5_DATA, 0x33, 0);
    assert_eq!(cpu.get_gpr(GPR::R5), 0x5a);
    exec(&mut cpu, Instruction::MOV_R6_CONST, 0x11, 0);
    assert_eq!(cpu.get_gpr(GPR::R6), 0x11);
    exec(&mut cpu, Instruction::MOV_A_R6, 0, 0);
    assert_eq!(cpu.get_sfr(SFR::ACC), 0x11);
    exec(&mut cpu, Instruction::MOV_DATA_A, 0x34, 0);
    assert_eq!(cpu.read(Addr8::new(0x34)), 0x11);
    exec(&mut cpu, Instruction::MOV_DATA_CONST, 0x35, 0x99);
    assert_eq!(cpu.read(Addr8::new(0x35)), 0x99);
    exec(&mut cpu, Instruction::MOV_A_DATA, 0x35, 0);
    assert_eq!(cpu.get_sfr(SFR::ACC), 0x99);
    // The first operand byte names the source, the second the destination.
    exec(&mut cpu, Instruction::MOV_DATA_DATA, 0x33, 0x36);
    assert_eq!(cpu.read(Addr8::new(0x36)), 0x5a);
    assert_eq!(cpu.read(Addr8::new(0x33)), 0x5a);
    exec(&mut cpu, Instruction::MOV_DPTR_CONST, 0x12, 0x34);
    assert_eq!(cpu.get_sfr(SFR::DPH), 0x12);
    assert_eq!(cpu.get_sfr(SFR::DPL), 0x34);
    assert_eq!(cpu.dptr(), 0x1234);
    assert_eq!(cpu.get_sfr(SFR::PSW), 0x00);
}

#[test]
fn external_data_is_reached_through_the_data_pointer() {
    let mut cpu = CPU::new();
    cpu.set_sfr(SFR::DPH, 0x0f);
    cpu.set_sfr(SFR::DPL, 0xff);
    cpu.set_sfr(SFR::ACC, 0xab);
    assert_eq!(exec(&mut cpu, Instruction::MOVX_INDIRECT_DPTR_A, 0, 0), PC::ADVANCE);
    assert_eq!(cpu.read_xdata(0x0fff), Ok(0xab));
    // External data is not internal data.
    assert_eq!(cpu.read(Addr8::new(0xff)), 0x00);

    cpu.set_sfr(SFR::ACC, 0x00);
    assert_eq!(exec(&mut cpu, Instruction::MOVX_A_INDIRECT_DPTR, 0, 0), PC::ADVANCE);
    assert_eq!(cpu.get_sfr(SFR::ACC), 0xab);

    // One cell further lies beyond external data.
    cpu.set_sfr(SFR::DPH, 0x10);
    cpu.set_sfr(SFR::DPL, 0x00);
    let invalid = Err(RuntimeError::new(ErrorType::InvalidAddr));
    assert_eq!(
        cpu.run_instruction(Instruction::new(Instruction::MOVX_A_INDIRECT_DPTR), None, None),
        invalid
    );
    assert_eq!(
        cpu.run_instruction(Instruction::new(Instruction::MOVX_INDIRECT_DPTR_A), None, None),
        invalid
    );
    assert_eq!(cpu.get_sfr(SFR::ACC), 0xab);
    assert!(!cpu.is_halted());
    assert_eq!(cpu.read_xdata(0x1000), Err(RuntimeError::new(ErrorType::InvalidAddr)));
    assert_eq!(cpu.write_xdata(0x1000, 1), Err(RuntimeError::new(ErrorType::InvalidAddr)));
    assert_eq!(cpu.write_xdata(0xffff, 1), Err(RuntimeError::new(ErrorType::InvalidAddr)));
}

#[test]
fn code_is_read_at_the_accumulator_plus_the_data_pointer() {
    let mut cpu = CPU::new();
    cpu.init(b"00112233445566").unwrap();
    cpu.set_sfr(SFR::DPH, 0x00);
    cpu.set_sfr(SFR::DPL, 0x02);
    cpu.set_sfr(SFR::ACC, 0x03);
    assert_eq!(exec(&mut cpu, Instruction::MOVC_A_INDIRECT_A_DPTR, 0, 0), PC::ADVANCE);
    assert_eq!(cpu.get_sfr(SFR::ACC), 0x55);

    // The sum wraps: 0xFFFF + 2 reads cell 1.
    cpu.set_sfr(SFR::DPH, 0xff);
    cpu.set_sfr(SFR::DPL, 0xff);
    cpu.set_sfr(SFR::ACC, 0x02);
    exec(&mut cpu, Instruction::MOVC_A_INDIRECT_A_DPTR, 0, 0);
    assert_eq!(cpu.get_sfr(SFR::ACC), 0x11);

    // Address 0xFFFF lies beyond code memory.
    cpu.set_sfr(SFR::ACC, 0x00);
    assert_eq!(
        cpu.run_instruction(Instruction::new(Instruction::MOVC_A_INDIRECT_A_DPTR), None, None),
        Err(RuntimeError::new(ErrorType::InvalidAddr))
    );
    assert_eq!(cpu.get_sfr(SFR::ACC), 0x00);
    assert_eq!(cpu.read_code(0xffff), Err(RuntimeError::new(ErrorType::InvalidAddr)));
}

#[test]
fn the_stack_grows_upwards_and_wraps() {
    let mut cpu = CPU::new();
    cpu.set_sfr(SFR::SP, 0xff);
    cpu.push(0x42);
    assert_eq!(cpu.get_sfr(SFR::SP), 0x00);
    assert_eq!(cpu.read(Addr8::new(0x00)), 0x42);
    assert_eq!(cpu.pop(), 0x42);
    assert_eq!(cpu.get_sfr(SFR::SP), 0xff);

    cpu.set_sfr(SFR::SP, 0x20);
    cpu.write(Addr8::new(0x30), 0x99);
    exec(&mut cpu, Instruction::PUSH_DATA, 0x30, 0);
    assert_eq!(cpu.get_sfr(SFR::SP), 0x21);
    assert_eq!(cpu.read(Addr8::new(0x21)), 0x99);
    exec(&mut cpu, Instruction::POP_DATA, 0x31, 0);
    assert_eq!(cpu.get_sfr(SFR::SP), 0x20);
    assert_eq!(cpu.read(Addr8::new(0x31)), 0x99);
}

#[test]
fn a_push_into_the_stack_pointer_moves_the_stack() {
    // The cell behind 0x80 is the stack pointer itself: the byte pushed
    // becomes the stack pointer.
    let mut cpu = CPU::new();
    cpu.set_sfr(SFR::SP, 0x80);
    cpu.push(0x42);
    assert_eq!(cpu.get_sfr(SFR::SP), 0x42);
    assert_eq!(cpu.read(Addr8::new(0x81)), 0x42);
}

#[test]
fn lcall_pushes_the_address_behind_it_and_ret_comes_back() {
    let mut cpu = CPU::new();
    cpu.set_pc(0x0123);
    cpu.set_sfr(SFR::SP, 0x07);

    assert_eq!(exec(&mut cpu, Instruction::LCALL, 0x12, 0x34), PC::JUMP);
    assert_eq!(cpu.get_pc(), 0x1234);
    assert_eq!(cpu.get_sfr(SFR::SP), 0x09);
    assert_eq!(cpu.read(Addr8::new(0x08)), 0x26);
    assert_eq!(cpu.read(Addr8::new(0x09)), 0x01);

    assert_eq!(exec(&mut cpu, Instruction::RET, 0, 0), PC::JUMP);
    assert_eq!(cpu.get_pc(), 0x0126);
    assert_eq!(cpu.get_sfr(SFR::SP), 0x07);

    cpu.push(0x78);
    cpu.push(0x56);
    assert_eq!(exec(&mut cpu, Instruction::RETI, 0, 0), PC::JUMP);
    assert_eq!(cpu.get_pc(), 0x5678);
    assert_eq!(cpu.get_sfr(SFR::SP), 0x07);
}

#[test]
fn paged_jumps_and_calls_stay_in_their_page() {
    let ajmp = [0x01u8, 0x21, 0x41, 0x61, 0x81, 0xa1, 0xc1, 0xe1];
    let acall = [0x11u8, 0x31, 0x51, 0x71, 0x91, 0xb1, 0xd1, 0xf1];
    for pc in [0x0000u16, 0x07fd, 0x07fe, 0x07ff, 0x1234, 0xf7ff, 0xfffd, 0xfffe, 0xffff] {
        let behind = pc.wrapping_add(2);
        for (page, (jump, call)) in ajmp.iter().zip(acall.iter()).enumerate() {
            let mut cpu = CPU::new();
            cpu.set_pc(pc);
            assert_eq!(
                insn_ajmp(&mut cpu, Instruction::new(*jump), Some(0xc7), None),
                Ok(PC::JUMP)
            );
            assert_eq!(cpu.get_pc() & 0xf800, behind & 0xf800);
            assert_eq!(cpu.get_pc(), (behind & 0xf800) | ((page as u16) << 8) | 0xc7);

            let mut cpu = CPU::new();
            cpu.set_pc(pc);
            cpu.set_sfr(SFR::SP, 0x30);
            assert_eq!(
                insn_acall(&mut cpu, Instruction::new(*call), Some(0xc7), None),
                Ok(PC::JUMP)
            );
            assert_eq!(cpu.get_pc() & 0xf800, behind & 0xf800);
            assert_eq!(cpu.get_pc(), (behind & 0xf800) | ((page as u16) << 8) | 0xc7);
            assert_eq!(cpu.read(Addr8::new(0x31)), (behind & 0xff) as u8);
            assert_eq!(cpu.read(Addr8::new(0x32)), (behind >> 8) as u8);
            assert_eq!(cpu.get_sfr(SFR::SP), 0x32);
        }
    }
}

#[test]
fn sjmp_branches_backwards() {
    let mut cpu = CPU::new();
    cpu.set_pc(0x0100);
    assert_eq!(exec(&mut cpu, Instruction::SJMP, 0xf9, 0), PC::JUMP);
    assert_eq!(cpu.get_pc(), 0x00fb);

    // The longest branches either way.
    cpu.set_pc(0x0100);
    exec(&mut cpu, Instruction::SJMP, 0x80, 0);
    assert_eq!(cpu.get_pc(), 0x0100 + 2 - 128);
    cpu.set_pc(0x0100);
    exec(&mut cpu, Instruction::SJMP, 0x7f, 0);
    assert_eq!(cpu.get_pc(), 0x0100 + 2 + 127);
}

#[test]
fn conditional_branches_pass_the_instruction_or_branch_from_behind_it() {
    // (opcode, length, accumulator, status word) with the branch taken.
    let taken: [(u8, u16, u8, u8); 4] = [
        (Instruction::JZ, 2, 0x00, 0x00),
        (Instruction::JNZ, 2, 0x01, 0x00),
        (Instruction::JC, 2, 0x00, CY),
        (Instruction::JNC, 2, 0x00, 0x00),
    ];
    let not_taken: [(u8, u16, u8, u8); 4] = [
        (Instruction::JZ, 2, 0x01, 0x00),
        (Instruction::JNZ, 2, 0x00, 0x00),
        (Instruction::JC, 2, 0x00, 0x00),
        (Instruction::JNC, 2, 0x00, CY),
    ];
    for rel in [0x00u8, 0x01, 0x7f, 0x80, 0xf9, 0xff] {
        let signed = rel as i8 as i32;
        for (op, length, acc, psw) in taken {
            let mut cpu = CPU::new();
            cpu.set_pc(0x0200);
            cpu.set_sfr(SFR::ACC, acc);
            cpu.set_sfr(SFR::PSW, psw);
            assert_eq!(exec(&mut cpu, op, rel, 0), PC::JUMP);
            assert_eq!(cpu.get_pc() as i32, 0x0200 + length as i32 + signed);
        }
        for (op, length, acc, psw) in not_taken {
            let mut cpu = CPU::new();
            cpu.set_pc(0x0200);
            cpu.set_sfr(SFR::ACC, acc);
            cpu.set_sfr(SFR::PSW, psw);
            assert_eq!(exec(&mut cpu, op, rel, 0), PC::JUMP);
            assert_eq!(cpu.get_pc(), 0x0200 + length);
        }
    }
}

#[test]
fn bit_branches_are_three_bytes_long() {
    let mut cpu = CPU::new();
    cpu.write(Addr8::new(0x20), 0b0000_0100);

    cpu.set_pc(0x0200);
    exec(&mut cpu, Instruction::JB_BIT_CODE, 0x02, 0xf0);
    assert_eq!(cpu.get_pc(), 0x0200 + 3 - 16);
    cpu.set_pc(0x0200);
    exec(&mut cpu, Instruction::JB_BIT_CODE, 0x03, 0xf0);
    assert_eq!(cpu.get_pc(), 0x0200 + 3);

    cpu.set_pc(0x0200);
    exec(&mut cpu, Instruction::JNB_BIT_CODE, 0x03, 0x10);
    assert_eq!(cpu.get_pc(), 0x0200 + 3 + 16);
    cpu.set_pc(0x0200);
    exec(&mut cpu, Instruction::JNB_BIT_CODE, 0x02, 0x10);
    assert_eq!(cpu.get_pc(), 0x0200 + 3);

    // JBC clears the bit that it branches on.
    cpu.set_pc(0x0200);
    exec(&mut cpu, Instruction::JBC_BIT_CODE, 0x02, 0x10);
    assert_eq!(cpu.get_pc(), 0x0200 + 3 + 16);
    assert_eq!(cpu.read(Addr8::new(0x20)), 0x00);
    cpu.set_pc(0x0200);
    exec(&mut cpu, Instruction::JBC_BIT_CODE, 0x02, 0x10);
    assert_eq!(cpu.get_pc(), 0x0200 + 3);
    assert_eq!(cpu.read(Addr8::new(0x20)), 0x00);
}

#[test]
fn cjne_compares_unsigned_and_branches_where_the_operands_differ() {
    let mut cpu = CPU::new();
    cpu.set_sfr(SFR::ACC, 0x10);

    cpu.set_pc(0x0100);
    exec(&mut cpu, Instruction::CJNE_A_CONST_CODE, 0x20, 0x05);
    assert_eq!(cpu.get_pc(), 0x0100 + 3 + 5);
    assert_eq!(cpu.get_sfr(SFR::PSW), CY);

    cpu.set_pc(0x0100);
    exec(&mut cpu, Instruction::CJNE_A_CONST_CODE, 0x10, 0x05);
    assert_eq!(cpu.get_pc(), 0x0100 + 3);
    assert_eq!(cpu.get_sfr(SFR::PSW), 0x00);

    // 0x10 is above 0x05, though 0x80 is "negative": the comparison is unsigned.
    cpu.set_sfr(SFR::ACC, 0x80);
    cpu.set_pc(0x0100);
    exec(&mut cpu, Instruction::CJNE_A_CONST_CODE, 0x05, 0xfd);
    assert_eq!(cpu.get_pc(), 0x0100);
    assert_eq!(cpu.get_sfr(SFR::PSW), 0x00);

    cpu.write(Addr8::new(0x30), 0x81);
    cpu.set_pc(0x0100);
    exec(&mut cpu, Instruction::CJNE_A_DATA_CODE, 0x30, 0x02);
    assert_eq!(cpu.get_pc(), 0x0105);
    assert_eq!(cpu.get_sfr(SFR::PSW), CY);

    cpu.set_sfr(SFR::PSW, 0x00);
    cpu.set_gpr(GPR::R2, 0x07);
    cpu.set_pc(0x0100);
    exec(&mut cpu, Instruction::CJNE_R2_CONST_CODE, 0x07, 0x02);
    assert_eq!(cpu.get_pc(), 0x0103);
    cpu.set_pc(0x0100);
    exec(&mut cpu, Instruction::CJNE_R2_CONST_CODE, 0x06, 0x02);
    assert_eq!(cpu.get_pc(), 0x0105);
    assert_eq!(cpu.get_sfr(SFR::PSW), 0x00);

    cpu.set_gpr(GPR::R1, 0x30);
    cpu.set_pc(0x0100);
    exec(&mut cpu, Instruction::CJNE_INDIRECT_R1_CONST_CODE, 0x82, 0x02);
    assert_eq!(cpu.get_pc(), 0x0105);
    assert_eq!(cpu.get_sfr(SFR::PSW), CY);
}

#[test]
fn djnz_decrements_and_branches_until_zero() {
    let mut cpu = CPU::new();
    cpu.set_gpr(GPR::R3, 0x02);
    cpu.set_pc(0x0100);
    assert_eq!(exec(&mut cpu, Instruction::DJNZ_R3_CODE, 0xfe, 0), PC::JUMP);
    assert_eq!(cpu.get_gpr(GPR::R3), 0x01);
    assert_eq!(cpu.get_pc(), 0x0100);
    exec(&mut cpu, Instruction::DJNZ_R3_CODE, 0xfe, 0);
    assert_eq!(cpu.get_gpr(GPR::R3), 0x00);
    assert_eq!(cpu.get_pc(), 0x0102);
    // Zero becomes 255, which is not zero.
    exec(&mut cpu, Instruction::DJNZ_R3_CODE, 0x10, 0);
    assert_eq!(cpu.get_gpr(GPR::R3), 0xff);
    assert_eq!(cpu.get_pc(), 0x0102 + 2 + 16);

    let mut cpu = CPU::new();
    cpu.write(Addr8::new(0x40), 0x01);
    assert_eq!(exec(&mut cpu, Instruction::DJNZ_DATA_CODE, 0x40, 0x01), PC::JUMP);
    assert_eq!(cpu.read(Addr8::new(0x40)), 0x00);
    assert_eq!(cpu.get_pc(), 2);
}

#[test]
fn nop_changes_nothing() {
    let mut cpu = CPU::new();
    cpu.set_pc(0x0123);
    cpu.set_sfr(SFR::PSW, 0x55);
    assert_eq!(insn_nop(&mut cpu, Instruction::new(Instruction::NOP), None, None), Ok(PC::ADVANCE));
    assert_eq!(cpu.get_pc(), 0x0123);
    assert_eq!(cpu.get_sfr(SFR::PSW), 0x55);
}
