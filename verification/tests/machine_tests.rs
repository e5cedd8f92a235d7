use shiro51::addr::Addr8;
use shiro51::cpu::{PowerManagementMode, CPU, PC};
use shiro51::error::{ErrorType, LoadError, RuntimeError};
use shiro51::instructions::instruction::Instruction;
use shiro51::registers::{GPR, SFR};

fn loaded(image: &str) -> CPU {
    let mut cpu = CPU::new();
    cpu.init(image.as_bytes()).unwrap();
    cpu
}

fn failure(error_type: ErrorType) -> RuntimeError {
    RuntimeError::new(error_type)
}

#[test]
fn a_new_processor_is_zeroed_and_holds_no_program() {
    let mut cpu = CPU::new();
    assert_eq!(cpu.get_pc(), 0);
    assert!(!cpu.is_halted());
    assert!(!cpu.is_initialized());
    for addr in 0..=255u8 {
        assert_eq!(cpu.read(Addr8::new(addr)), 0);
    }
    assert_eq!(cpu.read_code(0), Ok(0));
    assert_eq!(cpu.read_code(0xfffe), Ok(0));
    assert_eq!(cpu.read_xdata(0), Ok(0));
    assert_eq!(cpu.read_xdata(0x0fff), Ok(0));
    assert_eq!(cpu.cycle(), Err(failure(ErrorType::UninitializedCPU)));
    assert_eq!(cpu.get_pc(), 0);

    let cpu = CPU::default();
    assert_eq!(cpu.get_pc(), 0);
    assert!(!cpu.is_initialized());
}

#[test]
fn init_loads_the_program_and_the_reset_values() {
    let mut cpu = CPU::new();
    cpu.write(Addr8::new(0x30), 0x99);
    cpu.write_xdata(0x0010, 0x77).unwrap();
    cpu.set_pc(0x0040);

    assert_eq!(cpu.init(b"7455\n:2403\r\n80FE"), Ok(()));

    assert!(cpu.is_initialized());
    assert_eq!(cpu.get_pc(), 0x0040);
    assert_eq!(cpu.read_code(0), Ok(0x74));
    assert_eq!(cpu.read_code(1), Ok(0x55));
    assert_eq!(cpu.read_code(2), Ok(0x24));
    assert_eq!(cpu.read_code(3), Ok(0x03));
    assert_eq!(cpu.read_code(4), Ok(0x80));
    assert_eq!(cpu.read_code(5), Ok(0xfe));
    assert_eq!(cpu.read_code(6), Ok(0x00));

    assert_eq!(cpu.get_sfr(SFR::ADC0CF), 0xf8);
    assert_eq!(cpu.get_sfr(SFR::ADC0GTH), 0xff);
    assert_eq!(cpu.get_sfr(SFR::ADC0GTL), 0xff);
    assert_eq!(cpu.get_sfr(SFR::CPT0MD), 0x02);
    assert_eq!(cpu.get_sfr(SFR::CPT1MD), 0x02);
    assert_eq!(cpu.get_sfr(SFR::SP), 0x07);
    assert_eq!(cpu.get_sfr(SFR::IT01CF), 0x01);
    assert_eq!(cpu.get_sfr(SFR::PFE0CN), 0x20);
    assert_eq!(cpu.get_sfr(SFR::ACC), 0x00);

    // Internal data is zeroed, external data stays.
    assert_eq!(cpu.read(Addr8::new(0x30)), 0x00);
    assert_eq!(cpu.read_xdata(0x0010), Ok(0x77));
}

#[test]
fn init_replaces_an_earlier_program() {
    let mut cpu = loaded("0102030405");
    assert_eq!(cpu.init(b"AA"), Ok(()));
    assert_eq!(cpu.read_code(0), Ok(0xaa));
    assert_eq!(cpu.read_code(1), Ok(0x00));
    assert_eq!(cpu.read_code(4), Ok(0x00));
}

#[test]
fn init_refuses_a_malformed_image_and_changes_nothing() {
    let mut cpu = loaded("7455");
    cpu.write(Addr8::new(0x30), 0x99);

    assert_eq!(cpu.init(b"74\nzz"), Err(LoadError::MalformedHex));
    assert_eq!(cpu.init(b"745"), Err(LoadError::MalformedHex));
    assert_eq!(cpu.init(b"74 55"), Err(LoadError::MalformedHex));

    assert_eq!(cpu.read_code(0), Ok(0x74));
    assert_eq!(cpu.read_code(1), Ok(0x55));
    assert_eq!(cpu.read(Addr8::new(0x30)), 0x99);
    assert!(cpu.is_initialized());

    let mut fresh = CPU::new();
    assert_eq!(fresh.init(b"0g"), Err(LoadError::MalformedHex));
    assert!(!fresh.is_initialized());
}

#[test]
fn init_refuses_an_image_that_is_too_large() {
    // Code memory has 65,535 cells: a program of that size fits, one more byte
    // does not.
    let fits = "A5".repeat(0xffff);
    let mut cpu = CPU::new();
    assert_eq!(cpu.init(fits.as_bytes()), Ok(()));
    assert_eq!(cpu.read_code(0xfffe), Ok(0xa5));

    let too_large = "00".repeat(0x10000);
    assert_eq!(cpu.init(too_large.as_bytes()), Err(LoadError::ImageTooLarge));
    assert_eq!(cpu.read_code(0xfffe), Ok(0xa5));
}

#[test]
fn reset_forgets_the_program_but_keeps_memory() {
    let mut cpu = loaded("7455");
    assert_eq!(cpu.cycle(), Ok(()));
    cpu.reset();
    assert!(!cpu.is_initialized());
    assert_eq!(cpu.get_sfr(SFR::ACC), 0x55);
    assert_eq!(cpu.read_code(0), Ok(0x74));
    assert_eq!(cpu.get_pc(), 2);
    assert_eq!(cpu.cycle(), Err(failure(ErrorType::UninitializedCPU)));
    assert_eq!(cpu.get_pc(), 2);
}

#[test]
fn cycle_fetches_operands_and_advances_by_the_length() {
    // MOV A,#0x55 ; NOP ; MOV 0x30,#0x12 ; ADD A,0x30
    let mut cpu = loaded("7455\n00\n753012\n2530");

    assert_eq!(cpu.cycle(), Ok(()));
    assert_eq!(cpu.get_pc(), 2);
    assert_eq!(cpu.get_sfr(SFR::ACC), 0x55);

    assert_eq!(cpu.cycle(), Ok(()));
    assert_eq!(cpu.get_pc(), 3);

    assert_eq!(cpu.cycle(), Ok(()));
    assert_eq!(cpu.get_pc(), 6);
    assert_eq!(cpu.read(Addr8::new(0x30)), 0x12);

    assert_eq!(cpu.cycle(), Ok(()));
    assert_eq!(cpu.get_pc(), 8);
    assert_eq!(cpu.get_sfr(SFR::ACC), 0x67);
    assert_eq!(cpu.get_sfr(SFR::PSW), 0x00);
}

#[test]
fn cycle_leaves_the_counter_to_a_handler_that_jumps() {
    // LJMP 0x0005 ; (two bytes passed over) ; SJMP -2
    let mut cpu = loaded("020005\n0000\n80FE");

    assert_eq!(cpu.cycle(), Ok(()));
    assert_eq!(cpu.get_pc(), 5);
    assert_eq!(cpu.cycle(), Ok(()));
    assert_eq!(cpu.get_pc(), 5);
}

#[test]
fn cycle_reports_an_opcode_that_encodes_nothing() {
    let mut cpu = loaded("A5");
    assert_eq!(cpu.cycle(), Err(failure(ErrorType::UnknownInstruction)));
    assert_eq!(cpu.get_pc(), 0);
    assert!(!cpu.is_halted());
}

#[test]
fn an_operation_that_is_not_executed_halts_the_processor() {
    // MUL AB
    let mut cpu = loaded("A4");
    assert_eq!(cpu.cycle(), Err(failure(ErrorType::UnimplementedInstruction)));
    assert!(cpu.is_halted());
    assert_eq!(cpu.get_pc(), 0);

    // A halted processor does not step.
    assert_eq!(cpu.cycle(), Ok(()));
    assert_eq!(cpu.get_pc(), 0);
}

#[test]
fn a_halted_processor_does_not_step() {
    let mut cpu = loaded("7455");
    cpu.halt();
    assert!(cpu.is_halted());
    assert_eq!(cpu.cycle(), Ok(()));
    assert_eq!(cpu.get_pc(), 0);
    assert_eq!(cpu.get_sfr(SFR::ACC), 0x00);
    assert_eq!(cpu.run(5), Ok(0));
}

#[test]
fn cycle_cannot_fetch_beyond_code_memory() {
    let mut cpu = loaded("00");
    cpu.set_pc(0xffff);
    assert_eq!(cpu.cycle(), Err(failure(ErrorType::InvalidAddr)));
    assert_eq!(cpu.get_pc(), 0xffff);

    // A NOP in the last cell runs, and the counter leaves code memory.
    cpu.set_pc(0xfffe);
    assert_eq!(cpu.cycle(), Ok(()));
    assert_eq!(cpu.get_pc(), 0xffff);
}

#[test]
fn an_operand_beyond_code_memory_is_missing() {
    // MOV A,#data in the last cell: its operand would lie beyond code memory.
    let image = format!("{}74", "00".repeat(0xfffe));
    let mut cpu = loaded(&image);
    cpu.set_pc(0xfffe);
    assert_eq!(cpu.cycle(), Err(failure(ErrorType::InstructionArg0Missing)));
    assert_eq!(cpu.get_pc(), 0xfffe);

    // LJMP two cells before the end: its second operand is missing.
    let image = format!("{}0212", "00".repeat(0xfffd));
    let mut cpu = loaded(&image);
    cpu.set_pc(0xfffd);
    assert_eq!(cpu.cycle(), Err(failure(ErrorType::InstructionArg1Missing)));
    assert_eq!(cpu.get_pc(), 0xfffd);
}

#[test]
fn the_counter_wraps_at_the_end_of_the_address_space() {
    let mut cpu = CPU::new();
    cpu.set_pc(0xffff);
    cpu.advance(1);
    assert_eq!(cpu.get_pc(), 0x0000);
    cpu.set_pc(0xfffe);
    cpu.advance(3);
    assert_eq!(cpu.get_pc(), 0x0001);

    // SJMP +1 at 0xFFFD: 0xFFFD + 2 + 1 wraps to zero.
    cpu.set_pc(0xfffd);
    cpu.run_instruction(Instruction::new(Instruction::SJMP), Some(0x01), None).unwrap();
    assert_eq!(cpu.get_pc(), 0x0000);

    // SJMP -3 at 0x0000: 0 + 2 - 3 wraps to the top.
    cpu.set_pc(0x0000);
    cpu.run_instruction(Instruction::new(Instruction::SJMP), Some(0xfd), None).unwrap();
    assert_eq!(cpu.get_pc(), 0xffff);
}

#[test]
fn run_counts_cycles_and_stops_at_the_limit() {
    // INC A ; SJMP -3
    let mut cpu = loaded("04\n80FD");
    assert_eq!(cpu.run(0), Ok(0));
    assert_eq!(cpu.get_pc(), 0);
    assert_eq!(cpu.run(7), Ok(7));
    // Four increments and three jumps back.
    assert_eq!(cpu.get_sfr(SFR::ACC), 4);
    assert_eq!(cpu.get_pc(), 1);
    assert!(!cpu.is_halted());
}

#[test]
fn run_halts_on_the_first_failure() {
    // INC A ; INC A ; DA A
    let mut cpu = loaded("0404D4");
    assert_eq!(cpu.run(100), Err(failure(ErrorType::UnimplementedInstruction)));
    assert!(cpu.is_halted());
    assert_eq!(cpu.get_sfr(SFR::ACC), 2);
    assert_eq!(cpu.get_pc(), 2);
    assert_eq!(cpu.run(100), Ok(0));

    // A failure that does not halt by itself ends the run halted too.
    let mut cpu = loaded("04A5");
    assert_eq!(cpu.run(100), Err(failure(ErrorType::UnknownInstruction)));
    assert!(cpu.is_halted());
    assert_eq!(cpu.get_pc(), 1);

    let mut cpu = CPU::new();
    assert_eq!(cpu.run(3), Err(failure(ErrorType::UninitializedCPU)));
    assert!(cpu.is_halted());
}

#[test]
fn a_program_runs_to_its_end() {
    // MOV R0,#3 ; MOV A,#0 ; loop: ADD A,#5 ; DJNZ R0,loop ; MOV 0x40,A ; MUL AB
    let mut cpu = loaded("7803\n7400\n2405\nD8FC\nF540\nA4");
    assert_eq!(cpu.run(1000), Err(failure(ErrorType::UnimplementedInstruction)));
    assert_eq!(cpu.read(Addr8::new(0x40)), 15);
    assert_eq!(cpu.get_gpr(GPR::R0), 0);
    assert_eq!(cpu.get_pc(), 10);
}

#[test]
fn handlers_miss_their_operands() {
    let mut cpu = CPU::new();
    cpu.set_sfr(SFR::ACC, 0x11);
    let res = cpu.run_instruction(Instruction::new(Instruction::ADD_A_CONST), None, None);
    assert_eq!(res, Err(failure(ErrorType::InstructionArg0Missing)));
    let res = cpu.run_instruction(Instruction::new(Instruction::LJMP), None, Some(1));
    assert_eq!(res, Err(failure(ErrorType::InstructionArg0Missing)));
    let res = cpu.run_instruction(Instruction::new(Instruction::LJMP), Some(1), None);
    assert_eq!(res, Err(failure(ErrorType::InstructionArg1Missing)));
    let res = cpu.run_instruction(Instruction::new(Instruction::LCALL), Some(1), None);
    assert_eq!(res, Err(failure(ErrorType::InstructionArg1Missing)));
    assert_eq!(cpu.get_sfr(SFR::ACC), 0x11);
    assert_eq!(cpu.get_sfr(SFR::SP), 0x00);
    assert_eq!(cpu.get_pc(), 0);
    assert!(!cpu.is_halted());

    // A handler that takes no operand does not ask for one.
    let res = cpu.run_instruction(Instruction::new(Instruction::NOP), None, None);
    assert_eq!(res, Ok(PC::ADVANCE));
}

#[test]
fn run_instruction_reports_unknown_and_unimplemented_opcodes() {
    let mut cpu = CPU::new();
    let res = cpu.run_instruction(Instruction::new(0xa5), Some(0), Some(0));
    assert_eq!(res, Err(failure(ErrorType::UnknownInstruction)));
    assert!(!cpu.is_halted());
    let res = cpu.run_instruction(Instruction::new(Instruction::DIV_AB), Some(0), Some(0));
    assert_eq!(res, Err(failure(ErrorType::UnimplementedInstruction)));
    assert!(cpu.is_halted());
}

#[test]
fn the_power_control_register_selects_the_mode() {
    let mut cpu = CPU::new();
    assert_eq!(cpu.power_mode(), PowerManagementMode::Normal);
    cpu.set_sfr(SFR::PCON, 1);
    assert_eq!(cpu.power_mode(), PowerManagementMode::Idle);
    cpu.set_sfr(SFR::PCON, 2);
    assert_eq!(cpu.power_mode(), PowerManagementMode::Stop);
    cpu.set_sfr(SFR::PCON, 3);
    assert_eq!(cpu.power_mode(), PowerManagementMode::Normal);
    assert_eq!(PowerManagementMode::Normal.as_str(), "No Mode");
    assert_eq!(PowerManagementMode::Idle.as_str(), "Idle Mode");
    assert_eq!(PowerManagementMode::Stop.as_str(), "Stop Mode");
}
