use shiro51::addr::{Addr8, BitAddr};
use shiro51::cpu::{CPU, PC};
use shiro51::error::{ErrorType, RuntimeError};
use shiro51::instructions::instruction::Instruction;
use shiro51::memory::Memory;
use shiro51::registers::SFR;

fn exec(cpu: &mut CPU, op: u8, arg0: u8) -> PC {
    cpu.run_instruction(Instruction::new(op), Some(arg0), None).unwrap()
}

#[test]
fn bit_addresses_decode_to_their_byte_and_position() {
    let low = BitAddr::try_new(0x00).unwrap();
    assert_eq!(low.as_u8(), 0x20);
    assert_eq!(low.index(), 0);
    assert_eq!(low.bit(), 0x01);

    let addr = BitAddr::try_new(0x7f).unwrap();
    assert_eq!(addr.as_u8(), 0x2f);
    assert_eq!(addr.as_addr8().as_u8(), 0x2f);
    assert_eq!(addr.as_usize(), 0x2f);
    assert_eq!(addr.index(), 7);
    assert_eq!(addr.bit(), 0x80);

    let addr = BitAddr::try_new(0x80).unwrap();
    assert_eq!(addr.as_u8(), 0x80);
    assert_eq!(addr.index(), 0);

    let addr = BitAddr::try_new(0xd7).unwrap();
    assert_eq!(addr.as_u8(), 0xd0);
    assert_eq!(addr.index(), 7);
    assert_eq!(addr.bit(), 0x80);

    let addr = BitAddr::try_new(0xff).unwrap();
    assert_eq!(addr.as_u8(), 0xf8);
    assert_eq!(addr.index(), 7);
    assert!(addr.is_bit_addressable());
    assert!(!addr.is_null());
}

#[test]
fn every_bit_address_decodes_to_a_bit_addressable_byte() {
    for bit_addr in 0..=255u8 {
        let addr = BitAddr::try_new(bit_addr).unwrap();
        assert!(addr.is_bit_addressable());
        assert!(addr.as_addr8().is_bit_addressable());
        assert_eq!(addr.index(), bit_addr % 8);
        if bit_addr < 128 {
            assert_eq!(addr.as_u8(), 0x20 + bit_addr / 8);
        } else {
            assert_eq!(addr.as_u8(), bit_addr & 0xf8);
        }
    }
}

#[test]
fn a_bit_that_is_written_reads_back_and_its_neighbours_stay() {
    for pattern in [0x00u8, 0xff, 0xa5] {
        for bit_addr in 0..=255u8 {
            for value in [false, true] {
                let mut cpu = CPU::new();
                let addr = BitAddr::try_new(bit_addr).unwrap();
                cpu.write(addr.as_addr8(), pattern);
                cpu.write(Addr8::new(0x00), 0x3c);

                assert_eq!(cpu.write_bit(addr, value), Ok(()));
                assert_eq!(cpu.read_bit(addr), Ok(value));

                let byte = cpu.read(addr.as_addr8());
                assert_eq!(byte & !addr.bit(), pattern & !addr.bit());
                assert_eq!(byte & addr.bit() != 0, value);
                assert_eq!(cpu.read(Addr8::new(0x00)), 0x3c);
            }
        }
    }
}

#[test]
fn a_byte_without_bit_addresses_is_refused() {
    let invalid = RuntimeError::new(ErrorType::InvalidBitAddr);
    let mut cpu = CPU::new();
    let addr = BitAddr::zero();
    assert!(addr.is_null());
    assert!(!addr.is_bit_addressable());
    assert_eq!(addr.as_u8(), 0x00);
    assert_eq!(addr.bit(), 0x01);
    cpu.write(Addr8::new(0x00), 0xff);

    assert_eq!(cpu.read_bit(addr), Err(invalid));
    assert_eq!(cpu.write_bit(addr, false), Err(invalid));
    assert_eq!(cpu.read(Addr8::new(0x00)), 0xff);
    assert!(!cpu.is_halted());
    assert_eq!(ErrorType::InvalidBitAddr.as_str(), "Invalid bit address");
}

#[test]
fn memory_reads_bits_as_numbers() {
    let mut memory = Memory::init();
    memory.set_sfr_reg(SFR::P1, 0b1100_1010);
    memory.write(0x20, 0b0000_0001);
    let p1: u8 = SFR::P1.into();
    assert_eq!(memory.get_bit(p1 + 1), Some(1));
    assert_eq!(memory.get_bit(p1 + 2), Some(0));
    assert_eq!(memory.get_bit(p1 + 7), Some(1));
    assert_eq!(memory.get_bit(0x00), Some(1));
    assert_eq!(memory.get_bit(0x01), Some(0));
    for bit_addr in 0..=255u8 {
        assert!(memory.get_bit(bit_addr).is_some());
    }
}

#[test]
fn bit_instructions_write_one_bit() {
    let mut cpu = CPU::new();
    cpu.set_sfr(SFR::P1, 0b1100_1010);
    let p1: u8 = SFR::P1.into();

    assert_eq!(exec(&mut cpu, Instruction::SETB_BIT, p1), PC::ADVANCE);
    assert_eq!(cpu.get_sfr(SFR::P1), 0b1100_1011);
    assert_eq!(exec(&mut cpu, Instruction::CLR_BIT, p1 + 7), PC::ADVANCE);
    assert_eq!(cpu.get_sfr(SFR::P1), 0b0100_1011);
    assert_eq!(exec(&mut cpu, Instruction::CPL_BIT, p1 + 2), PC::ADVANCE);
    assert_eq!(cpu.get_sfr(SFR::P1), 0b0100_1111);
    assert_eq!(exec(&mut cpu, Instruction::CPL_BIT, p1 + 2), PC::ADVANCE);
    assert_eq!(cpu.get_sfr(SFR::P1), 0b0100_1011);

    // Bit addresses below 0x80 name the bytes from 0x20.
    exec(&mut cpu, Instruction::SETB_BIT, 0x0f);
    assert_eq!(cpu.read(Addr8::new(0x21)), 0x80);
    assert_eq!(cpu.get_sfr(SFR::PSW), 0x00);
}

#[test]
fn the_carry_flag_and_bits() {
    let mut cpu = CPU::new();
    cpu.set_sfr(SFR::P1, 0b0000_0010);
    cpu.set_sfr(SFR::PSW, 0x18);
    let p1: u8 = SFR::P1.into();

    exec(&mut cpu, Instruction::MOV_C_BIT, p1 + 1);
    assert!(cpu.carry());
    assert_eq!(cpu.get_sfr(SFR::PSW), 0x98);
    exec(&mut cpu, Instruction::ANL_C_BIT, p1 + 1);
    assert!(cpu.carry());
    exec(&mut cpu, Instruction::ANL_C_BIT, p1);
    assert!(!cpu.carry());
    exec(&mut cpu, Instruction::ORL_C_BIT, p1);
    assert!(!cpu.carry());
    exec(&mut cpu, Instruction::ORL_C_BIT, p1 + 1);
    assert!(cpu.carry());
    exec(&mut cpu, Instruction::MOV_BIT_C, p1 + 4);
    assert_eq!(cpu.get_sfr(SFR::P1), 0b0001_0010);
    exec(&mut cpu, Instruction::MOV_C_BIT, p1);
    assert!(!cpu.carry());
    exec(&mut cpu, Instruction::MOV_BIT_C, p1 + 1);
    assert_eq!(cpu.get_sfr(SFR::P1), 0b0001_0000);
    assert_eq!(cpu.get_sfr(SFR::PSW), 0x18);

    cpu.set_carry(true);
    assert_eq!(cpu.get_sfr(SFR::PSW), 0x98);
    cpu.set_flags(false, true, true);
    assert_eq!(cpu.get_sfr(SFR::PSW), 0x5c);
}
