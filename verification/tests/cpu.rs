use cpu6502::cpu::{AddressingMode, OpCode, CPU};
use cpu6502::error::CpuError;
use cpu6502::flags::{CARRY, NEGATIVE, OVERFLOW, ZERO};

#[test]
fn test_lda_works_immediate() {
    let mut cpu = CPU::new();
    let program = vec![0xa9, 0x05, 0x00];
    assert_eq!(cpu.load_and_run(program), Ok(()));

    assert_eq!(cpu.a, 0x05);
    // check zero and negative flags aren't set
    assert_eq!(cpu.status & 0b0000_0010, 0b0000_0000);
    assert_eq!(cpu.status & 0b1000_0000, 0b0000_0000);
}

#[test]
fn test_lda_works_zero() {
    let mut cpu = CPU::new();
    let program = vec![0xa9, 0x00, 0x00];
    assert_eq!(cpu.load_and_run(program), Ok(()));

    assert_eq!(cpu.a, 0);
    assert_eq!(cpu.status & 0b0000_0010, 0b0000_0010);
}

#[test]
fn test_tax_works() {
    let mut cpu = CPU::new();
    let program = vec![0xa9, 0x69, 0xaa, 0x00];
    assert_eq!(cpu.load_and_run(program), Ok(()));

    assert_eq!(cpu.x, 0x69);
    assert_eq!(cpu.status & 0b0000_0010, 0b0000_0000);
    assert_eq!(cpu.status & 0b1000_0000, 0b0000_0000);
}

#[test]
fn test_inx_works() {
    let mut cpu = CPU::new();
    let program = vec![0xe8, 0x00];
    assert_eq!(cpu.load_and_run(program), Ok(()));

    assert_eq!(cpu.x, 0x01);
    assert_eq!(cpu.status & 0b0000_0010, 0b0000_0000);
    assert_eq!(cpu.status & 0b1000_0000, 0b0000_0000);
}

#[test]
fn test_5_ops_working_together() {
    let mut cpu = CPU::new();
    assert_eq!(cpu.load_and_run(vec![0xa9, 0xc0, 0xaa, 0xe8, 0x00]), Ok(()));

    assert_eq!(cpu.x, 0xc1)
}

#[test]
fn test_inx_overflow() {
    let mut cpu = CPU::new();
    let mut program = vec![0xe8; 256];
    program.push(0x00);
    assert_eq!(cpu.load_and_run(program), Ok(()));

    assert_eq!(cpu.x, 0)
}

#[test]
fn new_cpu_is_zeroed() {
    let cpu = CPU::new();
    assert_eq!((cpu.a, cpu.x, cpu.y, cpu.status, cpu.program_counter), (0, 0, 0, 0, 0));
    assert_eq!(cpu.mem_read(0x0000), 0);
    assert_eq!(cpu.mem_read(0x8000), 0);
    assert_eq!(cpu.mem_read(0xffff), 0);
}

#[test]
fn memory_reaches_the_last_cell() {
    let mut cpu = CPU::new();
    cpu.mem_write(0xffff, 0xab);
    assert_eq!(cpu.mem_read(0xffff), 0xab);
    assert_eq!(cpu.mem_read(0xfffe), 0);
}

#[test]
fn words_are_little_endian() {
    let mut cpu = CPU::new();
    assert_eq!(cpu.mem_write_u16(0x1234, 0xbeef), Ok(()));
    assert_eq!(cpu.mem_read(0x1234), 0xef);
    assert_eq!(cpu.mem_read(0x1235), 0xbe);
    assert_eq!(cpu.mem_read_u16(0x1234), Ok(0xbeef));
    assert_eq!(cpu.mem_read_u16(0x1235), Ok(0x00be));
}

#[test]
fn word_at_the_last_cell_is_out_of_range() {
    let mut cpu = CPU::new();
    cpu.mem_write(0xffff, 0x12);
    assert_eq!(cpu.mem_read_u16(0xffff), Err(CpuError::MemoryAddressOutOfRange));
    assert_eq!(cpu.mem_write_u16(0xffff, 0x3456), Err(CpuError::MemoryAddressOutOfRange));
    assert_eq!(cpu.mem_read(0xffff), 0x12);
    assert_eq!(cpu.mem_write_u16(0xfffe, 0x3456), Ok(()));
    assert_eq!(cpu.mem_read_u16(0xfffe), Ok(0x3456));
}

#[test]
fn update_zero_and_negative_flags_on_zero() {
    for prior in [0x00u8, 0xff, NEGATIVE, ZERO, CARRY | OVERFLOW] {
        let mut cpu = CPU::new();
        cpu.status = prior;
        cpu.update_zero_and_negative_flags(0);
        assert_eq!(cpu.status & ZERO, ZERO);
        assert_eq!(cpu.status & NEGATIVE, 0);
        assert_eq!(cpu.status & 0b0111_1101, prior & 0b0111_1101);
    }
}

#[test]
fn update_zero_and_negative_flags_on_negative() {
    for prior in [0x00u8, 0xff, NEGATIVE, ZERO, CARRY | OVERFLOW] {
        let mut cpu = CPU::new();
        cpu.status = prior;
        cpu.update_zero_and_negative_flags(0x80);
        assert_eq!(cpu.status & ZERO, 0);
        assert_eq!(cpu.status & NEGATIVE, NEGATIVE);
        assert_eq!(cpu.status & 0b0111_1101, prior & 0b0111_1101);
    }
}

#[test]
fn update_zero_and_negative_flags_on_positive() {
    for prior in [0x00u8, 0xff, NEGATIVE, ZERO, CARRY | OVERFLOW] {
        let mut cpu = CPU::new();
        cpu.status = prior;
        cpu.update_zero_and_negative_flags(0x01);
        assert_eq!(cpu.status & ZERO, 0);
        assert_eq!(cpu.status & NEGATIVE, 0);
        assert_eq!(cpu.status & 0b0111_1101, prior & 0b0111_1101);
    }
}

fn cpu_with_operand(a: u8, status: u8, operand: u8) -> CPU {
    let mut cpu = CPU::new();
    cpu.a = a;
    cpu.status = status;
    cpu.program_counter = 0x0200;
    cpu.mem_write(0x0200, operand);
    cpu
}

#[test]
fn adc_carries_out_of_bit_seven() {
    let mut cpu = cpu_with_operand(0xff, 0, 0x01);
    assert_eq!(cpu.adc(&AddressingMode::Immediate), Ok(()));
    assert_eq!(cpu.a, 0x00);
    assert_eq!(cpu.status & CARRY, CARRY);
    assert_eq!(cpu.status & ZERO, ZERO);
    assert_eq!(cpu.status & OVERFLOW, 0);
    assert_eq!(cpu.status, CARRY | ZERO);
    assert_eq!(cpu.program_counter, 0x0200);
}

#[test]
fn adc_overflows_into_the_sign() {
    let mut cpu = cpu_with_operand(0x7f, 0, 0x01);
    assert_eq!(cpu.adc(&AddressingMode::Immediate), Ok(()));
    assert_eq!(cpu.a, 0x80);
    assert_eq!(cpu.status & OVERFLOW, OVERFLOW);
    assert_eq!(cpu.status & NEGATIVE, NEGATIVE);
    assert_eq!(cpu.status & ZERO, 0);
    assert_eq!(cpu.status, OVERFLOW | NEGATIVE);
}

#[test]
fn adc_adds_the_carry_in() {
    let mut cpu = cpu_with_operand(0x10, CARRY, 0x20);
    assert_eq!(cpu.adc(&AddressingMode::Immediate), Ok(()));
    assert_eq!(cpu.a, 0x31);
    assert_eq!(cpu.status, 0);

    let mut cpu = cpu_with_operand(0xff, CARRY, 0xff);
    assert_eq!(cpu.adc(&AddressingMode::Immediate), Ok(()));
    assert_eq!(cpu.a, 0xff);
    assert_eq!(cpu.status, CARRY | NEGATIVE);

    let mut cpu = cpu_with_operand(0x80, 0, 0x80);
    assert_eq!(cpu.adc(&AddressingMode::Immediate), Ok(()));
    assert_eq!(cpu.a, 0x00);
    assert_eq!(cpu.status, CARRY | OVERFLOW | ZERO);
}

#[test]
fn adc_clears_stale_carry_and_overflow() {
    let mut cpu = cpu_with_operand(0x01, OVERFLOW | ZERO | NEGATIVE, 0x01);
    assert_eq!(cpu.adc(&AddressingMode::Immediate), Ok(()));
    assert_eq!(cpu.a, 0x02);
    assert_eq!(cpu.status, 0);
}

#[test]
fn and_keeps_carry_and_overflow() {
    let mut cpu = cpu_with_operand(0b1100_1100, CARRY | OVERFLOW, 0b1010_1010);
    assert_eq!(cpu.and(&AddressingMode::Immediate), Ok(()));
    assert_eq!(cpu.a, 0b1000_1000);
    assert_eq!(cpu.status, CARRY | OVERFLOW | NEGATIVE);

    let mut cpu = cpu_with_operand(0x0f, CARRY, 0xf0);
    assert_eq!(cpu.and(&AddressingMode::Immediate), Ok(()));
    assert_eq!(cpu.a, 0);
    assert_eq!(cpu.status, CARRY | ZERO);
}

#[test]
fn lda_sets_flags_from_the_operand() {
    let mut cpu = cpu_with_operand(0x55, CARRY | ZERO, 0x90);
    assert_eq!(cpu.lda(&AddressingMode::Immediate), Ok(()));
    assert_eq!(cpu.a, 0x90);
    assert_eq!(cpu.status, CARRY | NEGATIVE);
}

#[test]
fn sta_writes_the_accumulator_and_no_flag() {
    let mut cpu = cpu_with_operand(0x00, NEGATIVE | CARRY, 0x42);
    assert_eq!(cpu.sta(&AddressingMode::ZeroPage), Ok(()));
    assert_eq!(cpu.mem_read(0x0042), 0x00);
    assert_eq!(cpu.status, NEGATIVE | CARRY);

    cpu.a = 0x99;
    assert_eq!(cpu.sta(&AddressingMode::ZeroPage), Ok(()));
    assert_eq!(cpu.mem_read(0x0042), 0x99);
    assert_eq!(cpu.mem_read(0x0041), 0x00);
    assert_eq!(cpu.mem_read(0x0043), 0x00);
    assert_eq!(cpu.status, NEGATIVE | CARRY);
    assert_eq!(cpu.a, 0x99);
}

#[test]
fn tax_copies_and_sets_flags() {
    let mut cpu = CPU::new();
    cpu.a = 0x80;
    cpu.status = CARRY | ZERO;
    cpu.tax();
    assert_eq!(cpu.x, 0x80);
    assert_eq!(cpu.a, 0x80);
    assert_eq!(cpu.status, CARRY | NEGATIVE);
}

#[test]
fn inx_wraps_and_keeps_carry() {
    for carry in [0u8, CARRY] {
        let mut cpu = CPU::new();
        cpu.x = 0xff;
        cpu.status = carry | NEGATIVE;
        cpu.inx();
        assert_eq!(cpu.x, 0x00);
        assert_eq!(cpu.status & ZERO, ZERO);
        assert_eq!(cpu.status & NEGATIVE, 0);
        assert_eq!(cpu.status & CARRY, carry);
    }
}

#[test]
fn inx_into_the_negative_range() {
    let mut cpu = CPU::new();
    cpu.x = 0x7f;
    cpu.inx();
    assert_eq!(cpu.x, 0x80);
    assert_eq!(cpu.status, NEGATIVE);
}

fn cpu_for_resolver() -> CPU {
    let mut cpu = CPU::new();
    cpu.program_counter = 0x0300;
    cpu.mem_write(0x0300, 0xff);
    cpu.mem_write(0x0301, 0x12);
    cpu.x = 0x02;
    cpu.y = 0x05;
    cpu
}

#[test]
fn zero_page_x_wraps_within_page_zero() {
    let cpu = cpu_for_resolver();
    assert_eq!(cpu.get_operand_address(&AddressingMode::ZeroPageX), Ok(0x0001));
    assert_eq!(cpu.program_counter, 0x0300);
}

#[test]
fn zero_page_y_wraps_within_page_zero() {
    let cpu = cpu_for_resolver();
    assert_eq!(cpu.get_operand_address(&AddressingMode::ZeroPageY), Ok(0x0004));
}

#[test]
fn immediate_and_zero_page_addresses() {
    let cpu = cpu_for_resolver();
    assert_eq!(cpu.get_operand_address(&AddressingMode::Immediate), Ok(0x0300));
    assert_eq!(cpu.get_operand_address(&AddressingMode::ZeroPage), Ok(0x00ff));
}

#[test]
fn absolute_addresses() {
    let cpu = cpu_for_resolver();
    assert_eq!(cpu.get_operand_address(&AddressingMode::Absolute), Ok(0x12ff));
    assert_eq!(cpu.get_operand_address(&AddressingMode::AbsoluteX), Ok(0x1301));
    assert_eq!(cpu.get_operand_address(&AddressingMode::AbsoluteY), Ok(0x1304));
}

#[test]
fn absolute_indexed_wraps_at_the_end_of_memory() {
    let mut cpu = cpu_for_resolver();
    cpu.mem_write(0x0300, 0xfe);
    cpu.mem_write(0x0301, 0xff);
    assert_eq!(cpu.get_operand_address(&AddressingMode::AbsoluteX), Ok(0x0000));
    assert_eq!(cpu.get_operand_address(&AddressingMode::AbsoluteY), Ok(0x0003));
}

#[test]
fn indirect_x_adds_before_the_dereference() {
    let mut cpu = cpu_for_resolver();
    cpu.mem_write(0x0300, 0xfe);
    // (0xfe + 0x02) mod 256 = 0x00
    cpu.mem_write(0x0000, 0x34);
    cpu.mem_write(0x0001, 0x12);
    cpu.mem_write(0x0100, 0x78);
    cpu.mem_write(0x0101, 0x56);
    assert_eq!(cpu.get_operand_address(&AddressingMode::IndirectX), Ok(0x1234));
}

#[test]
fn indirect_y_adds_after_the_dereference() {
    let mut cpu = cpu_for_resolver();
    cpu.mem_write(0x0300, 0x40);
    cpu.mem_write(0x0040, 0xfd);
    cpu.mem_write(0x0041, 0xff);
    cpu.mem_write(0x0045, 0x11);
    cpu.mem_write(0x0046, 0x22);
    // 0xfffd + 0x05 wraps to 0x0002
    assert_eq!(cpu.get_operand_address(&AddressingMode::IndirectY), Ok(0x0002));
    cpu.y = 0x01;
    assert_eq!(cpu.get_operand_address(&AddressingMode::IndirectY), Ok(0xfffe));
}

#[test]
fn resolving_no_operand_is_an_error() {
    let mut cpu = cpu_for_resolver();
    assert_eq!(
        cpu.get_operand_address(&AddressingMode::NoneAddressing),
        Err(CpuError::InvalidAddressingMode)
    );
    cpu.a = 0x77;
    assert_eq!(cpu.lda(&AddressingMode::NoneAddressing), Err(CpuError::InvalidAddressingMode));
    assert_eq!(cpu.adc(&AddressingMode::NoneAddressing), Err(CpuError::InvalidAddressingMode));
    assert_eq!(cpu.and(&AddressingMode::NoneAddressing), Err(CpuError::InvalidAddressingMode));
    assert_eq!(cpu.sta(&AddressingMode::NoneAddressing), Err(CpuError::InvalidAddressingMode));
    assert_eq!(cpu.a, 0x77);
    assert_eq!(cpu.status, 0);
}

#[test]
fn two_byte_operand_at_the_last_cell_is_out_of_range() {
    let mut cpu = CPU::new();
    cpu.program_counter = 0xffff;
    assert_eq!(
        cpu.get_operand_address(&AddressingMode::Absolute),
        Err(CpuError::MemoryAddressOutOfRange)
    );
    assert_eq!(
        cpu.get_operand_address(&AddressingMode::AbsoluteX),
        Err(CpuError::MemoryAddressOutOfRange)
    );
    assert_eq!(
        cpu.get_operand_address(&AddressingMode::AbsoluteY),
        Err(CpuError::MemoryAddressOutOfRange)
    );
    assert_eq!(cpu.get_operand_address(&AddressingMode::Immediate), Ok(0xffff));
    assert_eq!(cpu.get_operand_address(&AddressingMode::IndirectY), Ok(0x0000));
}

#[test]
fn load_copies_the_program_and_sets_the_reset_vector() {
    let mut cpu = CPU::new();
    cpu.mem_write(0x7fff, 0x11);
    cpu.mem_write(0x8003, 0x22);
    assert_eq!(cpu.load(vec![0xa9, 0x05, 0x00]), Ok(()));
    assert_eq!(cpu.mem_read(0x8000), 0xa9);
    assert_eq!(cpu.mem_read(0x8001), 0x05);
    assert_eq!(cpu.mem_read(0x8002), 0x00);
    assert_eq!(cpu.mem_read(0x7fff), 0x11);
    assert_eq!(cpu.mem_read(0x8003), 0x22);
    assert_eq!(cpu.mem_read(0xfffc), 0x00);
    assert_eq!(cpu.mem_read(0xfffd), 0x80);
    assert_eq!(cpu.mem_read_u16(0xfffc), Ok(0x8000));
    assert_eq!(cpu.program_counter, 0);
}

#[test]
fn load_then_reset_starts_at_the_program() {
    for program in [vec![], vec![0x00], vec![0xe8; 0x8000]] {
        let mut cpu = CPU::new();
        cpu.program_counter = 0x1234;
        assert_eq!(cpu.load(program), Ok(()));
        cpu.reset();
        assert_eq!(cpu.program_counter, 0x8000);
    }
}

#[test]
fn load_refuses_a_program_that_does_not_fit() {
    let mut cpu = CPU::new();
    cpu.mem_write(0x8000, 0x33);
    assert_eq!(cpu.load(vec![0xe8; 0x8001]), Err(CpuError::MemoryAddressOutOfRange));
    assert_eq!(cpu.mem_read(0x8000), 0x33);
    assert_eq!(cpu.mem_read(0xfffc), 0x00);
    assert_eq!(cpu.mem_read(0xfffd), 0x00);
    assert_eq!(cpu.load_and_run(vec![0xe8; 0x8001]), Err(CpuError::MemoryAddressOutOfRange));
    assert_eq!(cpu.x, 0);
}

#[test]
fn load_of_a_full_program_keeps_the_reset_vector() {
    let mut cpu = CPU::new();
    assert_eq!(cpu.load(vec![0xe8; 0x8000]), Ok(()));
    assert_eq!(cpu.mem_read(0xfffb), 0xe8);
    assert_eq!(cpu.mem_read(0xfffc), 0x00);
    assert_eq!(cpu.mem_read(0xfffd), 0x80);
    assert_eq!(cpu.mem_read(0xfffe), 0xe8);
    assert_eq!(cpu.mem_read(0xffff), 0xe8);
}

#[test]
fn reset_clears_registers_and_reads_the_vector() {
    let mut cpu = CPU::new();
    cpu.a = 1;
    cpu.x = 2;
    cpu.y = 3;
    cpu.status = 0xff;
    cpu.program_counter = 0x4242;
    cpu.mem_write(0xfffc, 0xcd);
    cpu.mem_write(0xfffd, 0xab);
    cpu.mem_write(0x0010, 0x77);
    cpu.reset();
    assert_eq!(cpu.a, 0);
    assert_eq!(cpu.x, 0);
    assert_eq!(cpu.y, 0);
    assert_eq!(cpu.status, 0);
    assert_eq!(cpu.program_counter, 0xabcd);
    assert_eq!(cpu.mem_read(0x0010), 0x77);
}

#[test]
fn five_ops_leave_the_expected_registers() {
    let mut cpu = CPU::new();
    assert_eq!(cpu.load_and_run(vec![0xa9, 0xc0, 0xaa, 0xe8, 0x00]), Ok(()));
    assert_eq!(cpu.a, 0xc0);
    assert_eq!(cpu.x, 0xc1);
    assert_eq!(cpu.status & ZERO, 0);
    assert_eq!(cpu.status & NEGATIVE, NEGATIVE);
    assert_eq!(cpu.program_counter, 0x8005);
}

#[test]
fn inx_256_times_wraps_to_zero() {
    let mut cpu = CPU::new();
    let mut program = vec![0xe8; 256];
    program.push(0x00);
    assert_eq!(cpu.load_and_run(program), Ok(()));
    assert_eq!(cpu.x, 0x00);
    assert_eq!(cpu.status & ZERO, ZERO);
    assert_eq!(cpu.status & NEGATIVE, 0);
}

#[test]
fn run_stops_at_an_unknown_opcode() {
    let mut cpu = CPU::new();
    assert_eq!(cpu.load_and_run(vec![0xa9, 0x07, 0x02, 0xe8, 0x00]), Err(CpuError::UnknownOpcode(0x02)));
    assert_eq!(cpu.a, 0x07);
    assert_eq!(cpu.x, 0);
    assert_eq!(cpu.program_counter, 0x8003);
}

#[test]
fn run_uses_every_addressing_mode_of_lda() {
    let mut cpu = CPU::new();
    cpu.mem_write(0x0010, 0x11);
    cpu.mem_write(0x0012, 0x22);
    cpu.mem_write(0x1234, 0x33);
    cpu.mem_write(0x1236, 0x44);
    cpu.mem_write(0x0020, 0x00);
    cpu.mem_write(0x0021, 0x20);
    cpu.mem_write(0x2000, 0x55);
    cpu.mem_write(0x2003, 0x66);
    // LDA $10; TAX (x = 0x11); then loads that go through X
    let program = vec![
        0xa5, 0x10, // LDA $10        -> 0x11
        0x85, 0x80, // STA $80
        0xa9, 0x02, // LDA #$02
        0xaa, // TAX            -> x = 2
        0xb5, 0x10, // LDA $10,X      -> 0x22
        0x85, 0x81, // STA $81
        0xad, 0x34, 0x12, // LDA $1234      -> 0x33
        0x85, 0x82, // STA $82
        0xbd, 0x34, 0x12, // LDA $1234,X    -> 0x44
        0x85, 0x83, // STA $83
        0xa1, 0x1e, // LDA ($1e,X)    -> ($20) = 0x2000 -> 0x55
        0x85, 0x84, // STA $84
        0xb1, 0x20, // LDA ($20),Y    -> 0x2000 + y
        0x85, 0x85, // STA $85
        0x00,
    ];
    assert_eq!(cpu.load_and_run(program), Ok(()));
    assert_eq!(cpu.mem_read(0x0080), 0x11);
    assert_eq!(cpu.mem_read(0x0081), 0x22);
    assert_eq!(cpu.mem_read(0x0082), 0x33);
    assert_eq!(cpu.mem_read(0x0083), 0x44);
    assert_eq!(cpu.mem_read(0x0084), 0x55);
    assert_eq!(cpu.mem_read(0x0085), 0x55);
    assert_eq!(cpu.x, 0x02);
}

#[test]
fn indirect_y_load_adds_y_after_the_dereference() {
    let mut cpu = CPU::new();
    cpu.mem_write(0x0020, 0x00);
    cpu.mem_write(0x0021, 0x20);
    cpu.mem_write(0x0023, 0x00);
    cpu.mem_write(0x0024, 0x30);
    cpu.mem_write(0x2003, 0x66);
    cpu.mem_write(0x3000, 0x77);
    assert_eq!(cpu.load(vec![0xb1, 0x20, 0x00]), Ok(()));
    cpu.reset();
    cpu.x = 0x03;
    cpu.y = 0x03;
    assert_eq!(cpu.run(), Ok(()));
    assert_eq!(cpu.a, 0x66);
}

#[test]
fn run_adds_and_ands() {
    let mut cpu = CPU::new();
    // LDA #$f0; ADC #$20 -> 0x10 carry; ADC #$01 -> 0x12; AND #$1e -> 0x12
    let program = vec![0xa9, 0xf0, 0x69, 0x20, 0x69, 0x01, 0x29, 0x1e, 0x8d, 0x00, 0x02, 0x00];
    assert_eq!(cpu.load_and_run(program), Ok(()));
    assert_eq!(cpu.a, 0x12);
    assert_eq!(cpu.mem_read(0x0200), 0x12);
    assert_eq!(cpu.status, 0);
    assert_eq!(cpu.program_counter, 0x800c);
}

#[test]
fn step_carries_out_one_instruction() {
    let mut cpu = CPU::new();
    assert_eq!(cpu.load(vec![0xa9, 0x05, 0xaa, 0x00]), Ok(()));
    cpu.reset();
    assert_eq!(cpu.step(), Ok(false));
    assert_eq!((cpu.a, cpu.x, cpu.program_counter), (0x05, 0x00, 0x8002));
    assert_eq!(cpu.step(), Ok(false));
    assert_eq!((cpu.a, cpu.x, cpu.program_counter), (0x05, 0x05, 0x8003));
    assert_eq!(cpu.step(), Ok(true));
    assert_eq!((cpu.a, cpu.x, cpu.program_counter), (0x05, 0x05, 0x8004));
}

#[test]
fn brk_in_the_last_cell_halts() {
    let mut cpu = CPU::new();
    cpu.program_counter = 0xffff;
    assert_eq!(cpu.step(), Ok(true));
    assert_eq!(cpu.program_counter, 0x0000);

    let mut cpu = CPU::new();
    cpu.a = 0x12;
    cpu.program_counter = 0xffff;
    assert_eq!(cpu.run(), Ok(()));
    assert_eq!(cpu.program_counter, 0x0000);
    assert_eq!(cpu.a, 0x12);
}

#[test]
fn unknown_opcode_in_the_last_cell_is_unknown() {
    let mut cpu = CPU::new();
    cpu.mem_write(0xffff, 0x02);
    cpu.program_counter = 0xffff;
    assert_eq!(cpu.step(), Err(CpuError::UnknownOpcode(0x02)));
    assert_eq!(cpu.program_counter, 0x0000);

    let mut cpu = CPU::new();
    cpu.mem_write(0xfffe, 0xe8);
    cpu.mem_write(0xffff, 0x02);
    cpu.program_counter = 0xfffe;
    assert_eq!(cpu.run(), Err(CpuError::UnknownOpcode(0x02)));
    assert_eq!(cpu.x, 0x01);
    assert_eq!(cpu.program_counter, 0x0000);
}

#[test]
fn other_instruction_in_the_last_cell_is_out_of_range() {
    for opcode in [0xe8u8, 0xaa, 0xa9, 0xad, 0x85] {
        let mut cpu = CPU::new();
        cpu.a = 0x55;
        cpu.mem_write(0xffff, opcode);
        cpu.program_counter = 0xffff;
        assert_eq!(cpu.step(), Err(CpuError::MemoryAddressOutOfRange));
        assert_eq!(cpu.program_counter, 0xffff);
        assert_eq!((cpu.a, cpu.x, cpu.status), (0x55, 0x00, 0x00));
    }
}

#[test]
fn instruction_that_ends_past_memory_is_out_of_range() {
    let mut cpu = CPU::new();
    cpu.mem_write(0xfffe, 0xa9);
    cpu.mem_write(0xffff, 0x42);
    cpu.program_counter = 0xfffe;
    assert_eq!(cpu.run(), Err(CpuError::MemoryAddressOutOfRange));
    assert_eq!(cpu.a, 0x42);
    assert_eq!(cpu.program_counter, 0xffff);

    let mut cpu = CPU::new();
    cpu.mem_write(0xfffe, 0xad);
    cpu.program_counter = 0xfffe;
    assert_eq!(cpu.run(), Err(CpuError::MemoryAddressOutOfRange));
    assert_eq!(cpu.a, 0x00);
    assert_eq!(cpu.program_counter, 0xffff);
}

#[test]
fn run_of_a_full_memory_of_inx_ends() {
    let mut cpu = CPU::new();
    assert_eq!(cpu.load(vec![0xe8; 0x8000]), Ok(()));
    cpu.reset();
    // the reset vector's low byte, 0x00 at 0xfffc, is a BRK
    assert_eq!(cpu.run(), Ok(()));
    assert_eq!(cpu.program_counter, 0xfffd);
    assert_eq!(cpu.x, 0xfc);
}

#[test]
fn operation_of_an_opcode() {
    assert_eq!(OpCode::from_u8(0xa9), Ok(OpCode::LDA));
    assert_eq!(OpCode::from_u8(0xa5), Ok(OpCode::LDA));
    assert_eq!(OpCode::from_u8(0xad), Ok(OpCode::LDA));
    assert_eq!(OpCode::from_u8(0x7d), Ok(OpCode::ADC));
    assert_eq!(OpCode::from_u8(0x31), Ok(OpCode::AND));
    assert_eq!(OpCode::from_u8(0x91), Ok(OpCode::STA));
    assert_eq!(OpCode::from_u8(0xaa), Ok(OpCode::TAX));
    assert_eq!(OpCode::from_u8(0xe8), Ok(OpCode::INX));
    assert_eq!(OpCode::from_u8(0x00), Ok(OpCode::BRK));
    assert_eq!(OpCode::from_u8(0x89), Err(CpuError::UnknownOpcode(0x89)));
    assert_eq!(OpCode::from_u8(0xff), Err(CpuError::UnknownOpcode(0xff)));
}

#[test]
fn operation_names() {
    assert_eq!(OpCode::ADC.name(), "ADC");
    assert_eq!(OpCode::AND.name(), "AND");
    assert_eq!(OpCode::LDA.name(), "LDA");
    assert_eq!(OpCode::STA.name(), "STA");
    assert_eq!(OpCode::TAX.name(), "TAX");
    assert_eq!(OpCode::INX.name(), "INX");
    assert_eq!(OpCode::BRK.name(), "BRK");
}
