use shiro51::bits::BitOps;
use shiro51::cpu::{CPU, PC};
use shiro51::instructions::instruction::Instruction;
use shiro51::registers::{GPR, SFR};

fn init_cpu(pc: u16) -> CPU {
    let mut cpu = CPU::new();

    cpu.set_pc(pc);

    cpu
}

fn run_instruction_test(cpu: &mut CPU, op: u8, arg0: u8, arg1: u8) -> PC {
    cpu.run_instruction(Instruction::new(op), Some(arg0), Some(arg1)).unwrap()
}

#[test]
fn cpu_tests_ajmp() {
    let mut cpu = init_cpu(0x0345);

    let res = run_instruction_test(&mut cpu, Instruction::AJMP2, 0x23, 0);

    assert_eq!(cpu.get_pc(), 0x0123);
    assert_eq!(res, PC::JUMP);
}

#[test]
fn cpu_tests_ljmp() {
    let mut cpu = init_cpu(0x0000);

    run_instruction_test(&mut cpu, Instruction::LJMP, 0x12, 0x34);

    assert_eq!(cpu.get_pc(), 0x1234);
}

#[test]
fn cpu_tests_jb_bit_code() {
    let mut cpu = init_cpu(0x0000);

    cpu.get_memory().set_sfr_reg(SFR::P1, 0b11001010);
    cpu.get_memory().set_sfr_reg(SFR::ACC, 0b01010110);

    let p1addr: u8 = SFR::P1.into();
    let accaddr: u8 = SFR::ACC.into();

    run_instruction_test(&mut cpu, Instruction::JB_BIT_CODE, p1addr + 2, 0x2);
    assert_eq!(cpu.get_pc(), 3);
    run_instruction_test(&mut cpu, Instruction::JB_BIT_CODE, accaddr + 2, 0x2);
    assert_eq!(cpu.get_pc(), 8);
}

#[test]
fn cpu_tests_jnb_bit_addr() {
    let mut cpu = init_cpu(0x0000);

    cpu.get_memory().set_sfr_reg(SFR::P1, 0b11001010);
    cpu.get_memory().set_sfr_reg(SFR::ACC, 0b01010110);

    let p1addr: u8 = SFR::P1.into();
    let accaddr: u8 = SFR::ACC.into();

    run_instruction_test(&mut cpu, Instruction::JNB_BIT_CODE, p1addr + 3, 0x2);
    assert_eq!(cpu.get_pc(), 3);
    run_instruction_test(&mut cpu, Instruction::JNB_BIT_CODE, accaddr + 3, 0x2);
    assert_eq!(cpu.get_pc(), 8);
}

#[test]
fn cpu_tests_acall() {
    let mut cpu = init_cpu(0x0123);

    cpu.get_memory().set_sfr_reg(SFR::SP, 0x07);

    run_instruction_test(&mut cpu, Instruction::ACALL4, 0x45, 0);

    assert_eq!(cpu.get_memory().get_sfr_reg(SFR::SP), 0x09);
    assert_eq!(cpu.get_memory().read(0x08), 0x25);
    assert_eq!(cpu.get_memory().read(0x09), 0x01);
    assert_eq!(cpu.get_pc(), 0x0345);
}

#[test]
fn cpu_tests_ret() {
    let mut cpu = init_cpu(0x0000);

    cpu.get_memory().set_sfr_reg(SFR::SP, 0x0b);
    cpu.get_memory().write(0x0a, 0x23);
    cpu.get_memory().write(0x0b, 0x01);

    run_instruction_test(&mut cpu, Instruction::RET, 0, 0);

    assert_eq!(cpu.get_memory().get_sfr_reg(SFR::SP), 0x09);
    assert_eq!(cpu.get_pc(), 0x0123);
}

#[test]
fn cpu_tests_addc_a_r2() {
    let mut cpu = init_cpu(0x0000);

    cpu.get_memory().set_sfr_reg(SFR::ACC, 0xc3);
    cpu.get_memory().set_gpr_reg(GPR::R2, 0xaa);
    cpu.get_memory().set_sfr_reg(SFR::PSW, 0x80);

    run_instruction_test(&mut cpu, Instruction::ADDC_A_R2, 0, 0);

    let psw = cpu.get_memory().get_sfr_reg(SFR::PSW);

    assert_eq!(cpu.get_memory().get_sfr_reg(SFR::ACC), 0x6e);
    assert_eq!(psw.is_bit_set(2), true);
    assert_eq!(psw.is_bit_set(7), true);
    assert_eq!(psw.is_bit_set(6), false);
}

#[test]
pub fn cpu_tests_orl_data_const() {
    let mut cpu = init_cpu(0x0000);

    cpu.get_memory().write(0x4f, 0xdb);

    run_instruction_test(&mut cpu, Instruction::ORL_DATA_CONST, 0x4f, 0xf2);

    assert_eq!(cpu.get_memory().read(0x4f), 0xdb | 0xf2);
}

#[test]
fn cpu_tests_subb() {
    let mut cpu = init_cpu(0x0000);

    cpu.get_memory().set_sfr_reg(SFR::ACC, 0xc9);
    cpu.get_memory().set_gpr_reg(GPR::R2, 0x54);
    cpu.get_memory().set_sfr_reg(SFR::PSW, 0x80);

    run_instruction_test(&mut cpu, Instruction::SUBB_A_R2, 0, 0);

    assert_eq!(cpu.get_memory().get_sfr_reg(SFR::ACC), 0x74);

    let psw = cpu.get_memory().get_sfr_reg(SFR::PSW);

    assert_eq!(psw.is_bit_set(2), true);
    assert_eq!(psw.is_bit_set(6), false);
    assert_eq!(psw.is_bit_set(7), false);
}

#[test]
fn cpu_tests_sjmp() {
    let mut cpu = init_cpu(0x0100);

    run_instruction_test(&mut cpu, Instruction::SJMP, 2, 0);

    assert_eq!(cpu.get_pc(), 0x0104);
}

#[test]
fn cpu_tests_push_data() {
    let mut cpu = init_cpu(0x0000);

    cpu.get_memory().set_sfr_reg(SFR::SP, 0x09);
    cpu.get_memory().set_sfr_reg(SFR::DPH, 0x01);
    cpu.get_memory().set_sfr_reg(SFR::DPL, 0x23);

    run_instruction_test(&mut cpu, Instruction::PUSH_DATA, SFR::DPL.into(), 0);

    assert_eq!(cpu.get_memory().get_sfr_reg(SFR::SP), 0x0a);
    assert_eq!(cpu.get_memory().read(0x0a), 0x23);

    run_instruction_test(&mut cpu, Instruction::PUSH_DATA, SFR::DPH.into(), 0);

    assert_eq!(cpu.get_memory().get_sfr_reg(SFR::SP), 0x0b);
    assert_eq!(cpu.get_memory().read(0x0b), 0x01);
}

#[test]
fn cpu_tests_pop_data() {
    let mut cpu = init_cpu(0x0000);

    cpu.get_memory().write(0x30, 0x20);
    cpu.get_memory().write(0x31, 0x23);
    cpu.get_memory().write(0x32, 0x01);

    cpu.get_memory().set_sfr_reg(SFR::SP, 0x32);

    run_instruction_test(&mut cpu, Instruction::POP_DATA, SFR::DPH.into(), 0);

    assert_eq!(cpu.get_memory().get_sfr_reg(SFR::SP), 0x31);
    assert_eq!(cpu.get_memory().get_sfr_reg(SFR::DPH), 0x01);

    run_instruction_test(&mut cpu, Instruction::POP_DATA, SFR::DPL.into(), 0);

    assert_eq!(cpu.get_memory().get_sfr_reg(SFR::SP), 0x30);
    assert_eq!(cpu.get_memory().get_sfr_reg(SFR::DPL), 0x23);

    run_instruction_test(&mut cpu, Instruction::POP_DATA, SFR::SP.into(), 0);

    assert_eq!(cpu.get_memory().get_sfr_reg(SFR::SP), 0x20);
}

#[test]
fn cpu_tests_djnz() {
    let mut cpu = init_cpu(0x0000);

    cpu.get_memory().write(0x40, 0x01);
    cpu.get_memory().write(0x50, 0x70);
    cpu.get_memory().write(0x60, 0x15);

    run_instruction_test(&mut cpu, Instruction::DJNZ_DATA_CODE, 0x40, 1);
    assert_eq!(cpu.get_pc(), 2);
    run_instruction_test(&mut cpu, Instruction::DJNZ_DATA_CODE, 0x50, 1);
    assert_eq!(cpu.get_pc(), 5);

    assert_eq!(cpu.get_memory().read(0x40), 0x00);
    assert_eq!(cpu.get_memory().read(0x50), 0x6f);
    assert_eq!(cpu.get_memory().read(0x60), 0x15);
}
