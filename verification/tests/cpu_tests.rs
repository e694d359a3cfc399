use mos6502::cpu::AddressingMode;
use mos6502::cpu::CPU;

#[test]
fn test_0xa9_lda_immediate_load_data() {
    let mut cpu = CPU::new();
    let _ = cpu.load_and_run(vec![0xa9, 0x05, 0x00]);

    assert_eq!(cpu.register_a, 0x05);
    assert!(cpu.status & 0b0000_0010 == 0b00);
    assert!(cpu.status & 0b1000_0000 == 0);
}

#[test]
fn test_0xa9_lda_zero_flag() {
    let mut cpu = CPU::new();
    let _ = cpu.load_and_run(vec![0xa9, 0x00, 0x00]);
    assert!(cpu.status & 0b0000_0010 == 0b10);
}

#[test]
fn test_0xaa_tax_move_a_to_x() {
    let mut cpu = CPU::new();

    // load followed by an explicit reset, so the registers can be set by
    // hand before the run
    let _ = cpu.load(vec![0xaa, 0x00]);
    cpu.reset();
    cpu.register_a = 10;

    let _ = cpu.run();

    assert_eq!(cpu.register_x, 10)
}

#[test]
fn test_5_ops_working_together() {
    let mut cpu = CPU::new();
    let _ = cpu.load_and_run(vec![0xa9, 0xc0, 0xaa, 0xe8, 0x00]);
    assert_eq!(cpu.register_x, 0xc1)
}

#[test]
fn test_inx_overflow() {
    let mut cpu = CPU::new();
    let _ = cpu.load(vec![0xe8, 0xe8, 0x00]);
    cpu.reset();

    cpu.register_x = 0xff;
    let _ = cpu.run();

    assert_eq!(cpu.register_x, 1)
}

#[test]
fn test_inx_sets_zero_flag() {
    let mut cpu = CPU::new();

    let _ = cpu.load(vec![0xe8, 0x00]);
    cpu.reset();

    // incrementing from the tipping point wraps to zero
    cpu.register_x = 0xff;

    let _ = cpu.run();

    assert_eq!(cpu.status, 0b0000_0010);
}

#[test]
fn test_lda_from_memory() {
    let mut cpu = CPU::new();
    cpu.mem_write(0x10, 0x55);

    let _ = cpu.load_and_run(vec![0xa5, 0x10, 0x00]);

    assert_eq!(cpu.register_a, 0x55);
}

#[test]
fn test_lda_negative_flag() {
    let mut cpu = CPU::new();
    let _ = cpu.load_and_run(vec![0xa9, 0x80, 0x00]);

    assert_eq!(cpu.register_a, 0x80);
    assert!(cpu.status & 0b1000_0000 != 0);
    assert!(cpu.status & 0b0000_0010 == 0);
}

#[test]
fn test_lda_absolute() {
    let mut cpu = CPU::new();
    cpu.mem_write(0x1234, 0x99);

    let _ = cpu.load_and_run(vec![0xad, 0x34, 0x12, 0x00]);

    assert_eq!(cpu.register_a, 0x99);
}

#[test]
fn test_tax_reapplies_flags_to_destination() {
    let mut cpu = CPU::new();
    let _ = cpu.load(vec![0xaa, 0x00]);
    cpu.reset();

    // A holds zero while the flags pretend otherwise; the transfer must
    // recompute them from the copied value alone
    cpu.register_a = 0;
    cpu.status = 0b1000_0000;

    let _ = cpu.run();

    assert_eq!(cpu.register_x, 0);
    assert!(cpu.status & 0b0000_0010 != 0);
    assert!(cpu.status & 0b1000_0000 == 0);
}

#[test]
fn test_inx_increments_by_one_below_wrap() {
    let mut cpu = CPU::new();
    let _ = cpu.load(vec![0xe8, 0x00]);
    cpu.reset();

    cpu.register_x = 0x41;
    let _ = cpu.run();

    assert_eq!(cpu.register_x, 0x42);
    assert!(cpu.status & 0b0000_0010 == 0);
}

#[test]
fn test_zero_page_x_wraps_within_zero_page() {
    let mut cpu = CPU::new();
    cpu.program_counter = 0x10;
    cpu.mem_write(0x10, 0x80);
    cpu.register_x = 0xff;

    let addr = cpu.get_operand_address(&AddressingMode::ZeroPage_X).unwrap();

    assert_eq!(addr, 0x7f);
}

#[test]
fn test_zero_page_y_wraps_within_zero_page() {
    let mut cpu = CPU::new();
    cpu.program_counter = 0x10;
    cpu.mem_write(0x10, 0xf0);
    cpu.register_y = 0x20;

    let addr = cpu.get_operand_address(&AddressingMode::ZeroPage_Y).unwrap();

    assert_eq!(addr, 0x10);
}

#[test]
fn test_absolute_x_wraps_at_top_of_space() {
    let mut cpu = CPU::new();
    cpu.program_counter = 0x10;
    cpu.mem_write_u16(0x10, 0xffff);
    cpu.register_x = 0x02;

    let addr = cpu.get_operand_address(&AddressingMode::Absolute_X).unwrap();

    assert_eq!(addr, 0x0001);
}

#[test]
fn test_absolute_y_wraps_at_top_of_space() {
    let mut cpu = CPU::new();
    cpu.program_counter = 0x10;
    cpu.mem_write_u16(0x10, 0xfffe);
    cpu.register_y = 0x05;

    let addr = cpu.get_operand_address(&AddressingMode::Absolute_Y).unwrap();

    assert_eq!(addr, 0x0003);
}

#[test]
fn test_indirect_x_goes_through_zero_page_pointer() {
    let mut cpu = CPU::new();
    cpu.program_counter = 0x10;
    cpu.mem_write(0x10, 0x20);
    cpu.register_x = 0x04;
    cpu.mem_write(0x24, 0xcd);
    cpu.mem_write(0x25, 0xab);

    let addr = cpu.get_operand_address(&AddressingMode::Indirect_X).unwrap();

    assert_eq!(addr, 0xabcd);
}

#[test]
fn test_indirect_y_adds_y_to_pointer_value() {
    let mut cpu = CPU::new();
    cpu.program_counter = 0x10;
    cpu.mem_write(0x10, 0x20);
    cpu.mem_write(0x20, 0x00);
    cpu.mem_write(0x21, 0x10);
    cpu.register_y = 0x05;

    let addr = cpu.get_operand_address(&AddressingMode::Indirect_Y).unwrap();

    assert_eq!(addr, 0x1005);
}

#[test]
fn test_cpy_sets_carry_when_y_greater() {
    let mut cpu = CPU::new();
    let _ = cpu.load(vec![0xc0, 0x05, 0x00]);
    cpu.reset();

    cpu.register_y = 0x10;
    let _ = cpu.run();

    assert!(cpu.status & 0b0000_0001 != 0);
    assert!(cpu.status & 0b0000_0010 == 0);
    assert!(cpu.status & 0b1000_0000 == 0);
}

#[test]
fn test_cpy_sets_zero_when_equal() {
    let mut cpu = CPU::new();
    let _ = cpu.load(vec![0xc0, 0x05, 0x00]);
    cpu.reset();

    cpu.register_y = 0x05;
    let _ = cpu.run();

    // comparing equal values leaves Y >= operand true as well, so Carry is
    // set alongside Zero
    assert!(cpu.status & 0b0000_0010 != 0);
    assert!(cpu.status & 0b0000_0001 != 0);
    assert!(cpu.status & 0b1000_0000 == 0);
}

#[test]
fn test_cpy_clears_carry_when_y_less() {
    let mut cpu = CPU::new();
    let _ = cpu.load(vec![0xc0, 0x05, 0x00]);
    cpu.reset();

    cpu.register_y = 0x02;
    let _ = cpu.run();

    assert!(cpu.status & 0b0000_0001 == 0);
    assert!(cpu.status & 0b0000_0010 == 0);
    // the comparison result 0x02 - 0x05 wraps to 0xfd, whose bit 7 is set
    assert!(cpu.status & 0b1000_0000 != 0);
}

#[test]
fn test_unknown_opcode_reports_decode_error() {
    let mut cpu = CPU::new();

    let result = cpu.load_and_run(vec![0xa9, 0x05, 0xff]);

    match result {
        Err(e) => {
            assert_eq!(e.opcode, 0xff);
            assert_eq!(e.pc, 0x8002);
        }
        Ok(()) => panic!("an unknown opcode must not run to completion"),
    }
    // the registers still show the last completed instruction
    assert_eq!(cpu.register_a, 0x05);
}

#[test]
fn test_empty_program_halts_on_zeroed_memory() {
    let mut cpu = CPU::new();

    let result = cpu.load_and_run(vec![]);

    assert!(result.is_ok());
    assert_eq!(cpu.register_a, 0);
    assert_eq!(cpu.register_x, 0);
    assert_eq!(cpu.program_counter, 0x8001);
}

#[test]
fn test_mem_read_u16_is_little_endian() {
    let mut cpu = CPU::new();
    cpu.mem_write(0x10, 0x34);
    cpu.mem_write(0x11, 0x12);

    assert_eq!(cpu.mem_read_u16(0x10), 0x1234);
}

#[test]
fn test_mem_write_u16_round_trips() {
    let mut cpu = CPU::new();
    cpu.mem_write_u16(0x40, 0xbeef);

    assert_eq!(cpu.mem_read(0x40), 0xef);
    assert_eq!(cpu.mem_read(0x41), 0xbe);
    assert_eq!(cpu.mem_read_u16(0x40), 0xbeef);
}

#[test]
fn test_load_sets_reset_vector_and_reset_follows_it() {
    let mut cpu = CPU::new();
    let _ = cpu.load(vec![0xa9, 0x01, 0x00]);

    assert_eq!(cpu.mem_read_u16(0xfffc), 0x8000);
    assert_eq!(cpu.mem_read(0x8000), 0xa9);
    assert_eq!(cpu.mem_read(0x8001), 0x01);

    cpu.reset();
    assert_eq!(cpu.program_counter, 0x8000);
    assert_eq!(cpu.register_a, 0);
    assert_eq!(cpu.status, 0);
}

#[test]
fn test_load_fills_up_to_top_of_space() {
    let mut cpu = CPU::new();
    let program = vec![0xee; 0x8000];

    let _ = cpu.load(program);

    // the highest address is reachable and holds the image's byte...
    assert_eq!(cpu.mem_read(0xffff), 0xee);
    assert_eq!(cpu.mem_read(0x8000), 0xee);
    // ...except where the reset vector was written over it afterwards
    assert_eq!(cpu.mem_read_u16(0xfffc), 0x8000);
}

#[test]
fn test_load_rejects_oversized_program() {
    let mut cpu = CPU::new();
    let program = vec![0xee; 0x8001];

    let result = cpu.load(program);

    match result {
        Err(e) => assert_eq!(e.program_len, 0x8001),
        Ok(()) => panic!("an image longer than the program region must be rejected"),
    }
    // the machine is untouched: no bytes copied, no reset vector written
    assert_eq!(cpu.mem_read(0x8000), 0);
    assert_eq!(cpu.mem_read_u16(0xfffc), 0);
}

#[test]
fn test_get_operand_address_rejects_none_addressing() {
    let cpu = CPU::new();

    let result = cpu.get_operand_address(&AddressingMode::NoneAddressing);

    assert!(result.is_err());
}

#[test]
fn test_reset_clears_registers() {
    let mut cpu = CPU::new();
    let _ = cpu.load(vec![0x00]);
    cpu.register_a = 7;
    cpu.register_x = 8;
    cpu.register_y = 9;
    cpu.status = 0xff;

    cpu.reset();

    assert_eq!(cpu.register_a, 0);
    assert_eq!(cpu.register_x, 0);
    assert_eq!(cpu.register_y, 0);
    assert_eq!(cpu.status, 0);
}

#[test]
fn test_run_starts_where_registers_left_off() {
    let mut cpu = CPU::new();
    let _ = cpu.load(vec![0xe8, 0xe8, 0xe8, 0x00]);
    cpu.reset();

    cpu.register_x = 0x10;
    let _ = cpu.run();

    assert_eq!(cpu.register_x, 0x13);
}
