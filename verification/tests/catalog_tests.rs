use shiro51::addr::{addr16, Addr16, Addr8};
use shiro51::emulator::Emulator;
use shiro51::error::{ErrorType, LoadError, RuntimeError};
use shiro51::memory::Memory;
use shiro51::registers::{GPR, SFR};

#[test]
fn registers_have_their_addresses() {
    assert_eq!(SFR::ACC.addr().as_u8(), 0xe0);
    assert_eq!(SFR::B.addr().as_u8(), 0xf0);
    assert_eq!(SFR::PSW.addr().as_u8(), 0xd0);
    assert_eq!(SFR::SP.addr().as_u8(), 0x81);
    assert_eq!(SFR::DPL.addr().as_u8(), 0x82);
    assert_eq!(SFR::DPH.addr().as_u8(), 0x83);
    assert_eq!(SFR::P0.addr().as_u8(), 0x80);
    assert_eq!(SFR::P1.addr().as_u8(), 0x90);
    assert_eq!(SFR::PCON.addr().as_u8(), 0x87);
    assert_eq!(SFR::ADC0CF.addr().as_u8(), 0xbc);
    assert_eq!(SFR::ADC0GTH.addr().as_u8(), 0xc4);
    assert_eq!(SFR::ADC0GTL.addr().as_u8(), 0xc3);
    assert_eq!(SFR::CPT0MD.addr().as_u8(), 0x9d);
    assert_eq!(SFR::CPT1MD.addr().as_u8(), 0x9c);
    assert_eq!(SFR::IT01CF.addr().as_u8(), 0xe4);
    assert_eq!(SFR::PFE0CN.addr().as_u8(), 0xaf);
    assert_eq!(SFR::VDM0CN.addr().as_u8(), 0xff);
    assert_eq!(SFR::NONE.addr().as_u8(), 0x00);
    let acc: u8 = SFR::ACC.into();
    assert_eq!(acc, 0xe0);
}

#[test]
fn an_address_names_at_most_one_register() {
    let mut named = 0;
    for addr in 0..=255u8 {
        let sfr = SFR::from_u8(addr);
        assert_eq!(SFR::from_addr(Addr8::new(addr)), sfr);
        if sfr == SFR::NONE {
            continue;
        }
        named += 1;
        assert_eq!(sfr.addr().as_u8(), addr);
        assert!(addr >= 0x80);
    }
    assert_eq!(named, 123);
    assert_eq!(SFR::from_u8(0xe0), SFR::ACC);
    assert_eq!(SFR::from_u8(0x81), SFR::SP);
    assert_eq!(SFR::from_u8(0x00), SFR::NONE);
    assert_eq!(SFR::from_u8(0x7f), SFR::NONE);
    assert_eq!(SFR::from_u8(0xc7), SFR::P4);
    assert_eq!(SFR::from(0xd0u8), SFR::PSW);
    assert_eq!(SFR::from(Addr8::new(0x90)), SFR::P1);
    assert_eq!(SFR::from(0x10u8), SFR::NONE);
}

#[test]
fn the_opcode_selects_the_register() {
    let all = [GPR::R0, GPR::R1, GPR::R2, GPR::R3, GPR::R4, GPR::R5, GPR::R6, GPR::R7];
    for (n, reg) in all.iter().enumerate() {
        assert_eq!(reg.addr().as_u8(), n as u8);
        assert_eq!(GPR::select(n as u8), *reg);
        assert_eq!(GPR::select(0x28 + n as u8), *reg);
        assert_eq!(GPR::select(0xf8 + n as u8), *reg);
    }
    // The two opcodes of an indirect operation select R0 and R1.
    assert_eq!(GPR::select(0x26 % 2), GPR::R0);
    assert_eq!(GPR::select(0x27 % 2), GPR::R1);
}

#[test]
fn addresses_are_what_they_were_made_of() {
    let addr = Addr8::new(0x2a);
    assert_eq!(addr.as_u8(), 0x2a);
    assert_eq!(addr.as_usize(), 0x2a);
    assert!(!addr.is_null());
    assert!(addr.is_bit_addressable());
    assert!(Addr8::zero().is_null());
    assert!(!Addr8::zero().is_bit_addressable());
    assert!(!Addr8::new(0x30).is_bit_addressable());
    assert!(Addr8::new(0x88).is_bit_addressable());
    assert!(!Addr8::new(0x89).is_bit_addressable());

    let addr = Addr16::new(0x1234);
    assert_eq!(addr.as_u16(), 0x1234);
    assert_eq!(addr.as_usize(), 0x1234);
    assert_eq!(addr.as_u8(), 0x34);
    assert!(!addr.is_null());
    assert!(Addr16::zero().is_null());

    assert_eq!(addr16(Addr8::new(0x12), Addr8::new(0x34)).as_u16(), 0x1234);
    assert_eq!(addr16(Addr8::new(0xff), Addr8::new(0xff)).as_u16(), 0xffff);
    assert_eq!(addr16(Addr8::new(0x00), Addr8::new(0x01)).as_u16(), 0x0001);
    assert_eq!(addr16(Addr8::new(0x01), Addr8::new(0x00)).as_u16(), 0x0100);
}

#[test]
fn failures_describe_themselves() {
    assert_eq!(ErrorType::InvalidAddr.as_str(), "Invalid address");
    assert_eq!(ErrorType::InvalidBitAddr.as_str(), "Invalid bit address");
    assert_eq!(ErrorType::InstructionArg0Missing.as_str(), "Instruction argument 0 missing");
    assert_eq!(ErrorType::InstructionArg1Missing.as_str(), "Instruction argument 1 missing");
    assert_eq!(ErrorType::UnimplementedInstruction.as_str(), "Unimplemented instruction");
    assert_eq!(ErrorType::UninitializedCPU.as_str(), "Uninitialized CPU");
    assert_eq!(ErrorType::UnknownInstruction.as_str(), "Unknown instruction");

    let e = RuntimeError::new(ErrorType::UninitializedCPU);
    assert_eq!(e.kind(), ErrorType::UninitializedCPU);
    assert_eq!(e.message(), "Runtime error: Uninitialized CPU");
    assert_eq!(
        RuntimeError::new(ErrorType::InvalidAddr).message(),
        "Runtime error: Invalid address"
    );
}

#[test]
fn memory_starts_with_its_reset_values() {
    let mut memory = Memory::init();
    assert_eq!(memory.get_sfr_reg(SFR::SP), 0x07);
    assert_eq!(memory.get_sfr_reg(SFR::ACC), 0x00);
    assert_eq!(memory.cur_reg_bank(), 0);
    assert_eq!(memory.read_flash(0), 0);
    assert_eq!(memory.read_flash(0xfffe), 0);

    let zeroed = Memory::new();
    assert_eq!(zeroed.get_sfr_reg(SFR::SP), 0x00);

    memory.write(0x12, 0x34);
    assert_eq!(memory.read(0x12), 0x34);
    assert_eq!(memory.read(0x13), 0x00);
    memory.set_sfr_reg(SFR::PSW, 0x08);
    assert_eq!(memory.cur_reg_bank(), 1);
    memory.set_gpr_reg(GPR::R2, 0x56);
    assert_eq!(memory.read(0x0a), 0x56);
    assert_eq!(memory.get_gpr_reg(GPR::R2), 0x56);

    assert_eq!(memory.load_program(&[1, 2, 3]), Ok(()));
    assert_eq!(memory.read_flash(0), 1);
    assert_eq!(memory.read_flash(2), 3);
    assert_eq!(memory.read_flash(3), 0);
    assert_eq!(memory.load_program(&[9]), Ok(()));
    assert_eq!(memory.read_flash(0), 9);
    assert_eq!(memory.read_flash(1), 2);
    assert_eq!(memory.load_program(&vec![0u8; 0x10000]), Err(LoadError::ImageTooLarge));
    assert_eq!(memory.read_flash(0), 9);

    assert_eq!(memory.write_xram(0x0fff, 7), Ok(()));
    assert_eq!(memory.read_xram(0x0fff), Ok(7));
    assert_eq!(memory.read_xram(0x1000), Err(RuntimeError::new(ErrorType::InvalidAddr)));

    memory.clear();
    assert_eq!(memory.read_flash(0), 0);
    assert_eq!(memory.read(0x12), 0);
    assert_eq!(memory.get_sfr_reg(SFR::SP), 0);
    assert_eq!(memory.read_xram(0x0fff), Ok(7));
    memory.reset_registers();
    assert_eq!(memory.get_sfr_reg(SFR::SP), 0x07);
    assert_eq!(memory.get_sfr_reg(SFR::PFE0CN), 0x20);
}

#[test]
fn the_emulator_drives_its_processor() {
    let mut emulator = Emulator::new(true);
    assert!(emulator.is_headless());
    assert!(!emulator.cpu().is_initialized());
    assert_eq!(emulator.run(10), Err(RuntimeError::new(ErrorType::UninitializedCPU)));

    let mut emulator = Emulator::new(false);
    assert!(!emulator.is_headless());
    assert_eq!(emulator.load(b"xyz"), Err(LoadError::MalformedHex));
    // INC A ; INC A ; SJMP -2
    assert_eq!(emulator.load(b"0404\n80FE"), Ok(()));
    assert_eq!(emulator.run(10), Ok(10));
    assert_eq!(emulator.cpu().acc(), 2);
    assert_eq!(emulator.cpu().get_pc(), 2);
}

#[test]
fn addresses_take_part_in_arithmetic() {
    let mut addr = Addr8::new(0x10);
    assert_eq!((addr + 0x05u8).as_u8(), 0x15);
    assert_eq!((addr + Addr8::new(0xef)).as_u8(), 0xff);
    assert_eq!((addr - 0x10u8).as_u8(), 0x00);
    assert_eq!((addr - Addr8::new(0x01)).as_u8(), 0x0f);
    addr += 1u8;
    assert_eq!(addr.as_u8(), 0x11);
    addr += Addr8::new(0x0f);
    assert_eq!(addr.as_u8(), 0x20);
    addr -= 0x1fu8;
    assert_eq!(addr.as_u8(), 0x01);
    addr -= Addr8::new(0x01);
    assert_eq!(addr.as_u8(), 0x00);
    assert_eq!(u8::from(Addr8::new(0x42)), 0x42);
    assert_eq!(Addr8::from(0x42u8).as_u8(), 0x42);

    let mut pc = Addr16::new(0x0123);
    assert_eq!((pc + 2u16).as_u16(), 0x0125);
    assert_eq!((pc + Addr16::new(0xfedc)).as_u16(), 0xffff);
    pc += 2u16;
    assert_eq!(pc.as_u16(), 0x0125);
    pc += Addr16::new(0x0001);
    assert_eq!(pc.as_u16(), 0x0126);
    pc += 3usize;
    assert_eq!(pc.as_u16(), 0x0129);
    pc += 0x10002usize;
    assert_eq!(pc.as_u16(), 0x012b);
    pc += 2i32;
    assert_eq!(pc.as_u16(), 0x012d);
    let mut zero = Addr16::zero();
    zero += -1i32;
    assert_eq!(zero.as_u16(), 0xffff);
    let mut zero = Addr16::zero();
    zero += i32::MIN;
    assert_eq!(zero.as_u16(), 0x0000);

    let pc = Addr16::new(0x1234);
    assert_eq!((pc & 0x00ff).as_u16(), 0x0034);
    assert_eq!(((pc & 0xff00) >> 8).as_u16(), 0x0012);
    assert_eq!((pc | 0x000f).as_u16(), 0x123f);
    assert_eq!((pc << 4).as_u16(), 0x2340);
    assert_eq!((pc >> 15).as_u16(), 0x0000);
    let mut pc = pc;
    pc &= 0xf800;
    assert_eq!(pc.as_u16(), 0x1000);
    pc |= 0x0345;
    assert_eq!(pc.as_u16(), 0x1345);
    assert_eq!(u16::from(pc), 0x1345);
}
