use emu6502::cpu::{CpuError, CPU};
use emu6502::memory::Memory;
use emu6502::status::StatusRegisterBitFlag;

const ORIGIN: u16 = 0x0200;

/// A processor with `program` at `ORIGIN`, the given RAM bytes, and the program counter at `ORIGIN`.
fn cpu_with(program: &[u8], data: &[(u16, u8)]) -> CPU {
    let mut m = Memory::new();
    for (i, b) in program.iter().enumerate() {
        m.write(ORIGIN + i as u16, *b).unwrap();
    }
    for (a, v) in data {
        m.write(*a, *v).unwrap();
    }
    let mut cpu = CPU::with_memory(m);
    cpu.set_program_counter(ORIGIN);
    cpu
}

fn zero(cpu: &CPU) -> bool {
    cpu.status().get_val(StatusRegisterBitFlag::Z)
}

fn negative(cpu: &CPU) -> bool {
    cpu.status().get_val(StatusRegisterBitFlag::N)
}

#[test]
fn new_cpu_is_zeroed() {
    let cpu = CPU::new();
    assert_eq!(cpu.accumulator(), 0);
    assert_eq!(cpu.index_x(), 0);
    assert_eq!(cpu.index_y(), 0);
    assert_eq!(cpu.program_counter(), 0);
    assert_eq!(cpu.stack_pointer(), 0);
    assert_eq!(cpu.status().bits(), 0);
}

#[test]
fn reset_reads_full_vector_word() {
    let mut m = Memory::new();
    let mut image = vec![0u8; 0x8000];
    image[0x7FFC] = 0x34;
    image[0x7FFD] = 0x82;
    m.load_image(&image).unwrap();
    let mut cpu = CPU::with_memory(m);
    cpu.set_index_x(9);
    cpu.set_index_y(7);
    cpu.reset();
    assert_eq!(cpu.program_counter(), 0x8234);
    assert_eq!(cpu.stack_pointer(), 0xFF);
    assert_eq!(cpu.accumulator(), 0);
    assert_eq!(cpu.index_x(), 0);
    assert_eq!(cpu.index_y(), 0);
    assert_eq!(cpu.status().bits(), 0);
}

#[test]
fn reset_clears_flags_and_accumulator() {
    let mut cpu = cpu_with(&[0xA9, 0x80], &[]);
    assert_eq!(cpu.execute_loop(), Ok(2));
    assert!(negative(&cpu));
    cpu.reset();
    assert_eq!(cpu.accumulator(), 0);
    assert_eq!(cpu.status().bits(), 0);
    assert_eq!(cpu.program_counter(), 0x0000);
}

#[test]
fn rom_program_runs_from_reset_vector() {
    let mut m = Memory::new();
    let mut image = vec![0u8; 0x8000];
    image[0] = 0xA9;
    image[1] = 0x33;
    image[0x7FFC] = 0x00;
    image[0x7FFD] = 0x80;
    m.load_image(&image).unwrap();
    let mut cpu = CPU::with_memory(m);
    cpu.reset();
    assert_eq!(cpu.execute_loop(), Ok(2));
    assert_eq!(cpu.accumulator(), 0x33);
    assert_eq!(cpu.program_counter(), 0x8002);
}

#[test]
fn fetch_byte_and_word() {
    let mut cpu = cpu_with(&[0x11, 0x34, 0x12], &[]);
    assert_eq!(cpu.fetch_byte(), 0x11);
    assert_eq!(cpu.program_counter(), ORIGIN + 1);
    assert_eq!(cpu.fetch_word(), 0x1234);
    assert_eq!(cpu.program_counter(), ORIGIN + 3);
}

#[test]
fn fetch_wraps_program_counter() {
    let mut cpu = CPU::new();
    cpu.set_program_counter(0xFFFF);
    assert_eq!(cpu.fetch_byte(), 0);
    assert_eq!(cpu.program_counter(), 0x0000);
}

#[test]
fn read_byte_and_word() {
    let cpu = cpu_with(&[], &[(0x0010, 0xCD), (0x0011, 0xAB)]);
    assert_eq!(cpu.read_byte(0x0010), 0xCD);
    assert_eq!(cpu.read_word(0x0010), 0xABCD);
    assert_eq!(cpu.read_word(0xFFFF), 0x0000);
}

#[test]
fn lda_immediate_end_to_end() {
    let mut cpu = cpu_with(&[0xA9, 0x05], &[]);
    assert_eq!(cpu.execute_loop(), Ok(2));
    assert_eq!(cpu.accumulator(), 0x05);
    assert!(!zero(&cpu));
    assert!(!negative(&cpu));
    assert_eq!(cpu.program_counter(), ORIGIN + 2);
}

#[test]
fn load_flags_for_zero_negative_and_positive() {
    for (value, z, n) in [(0x00u8, true, false), (0x80, false, true), (0x7F, false, false)] {
        let mut cpu = cpu_with(&[0xA9, value], &[]);
        assert_eq!(cpu.execute_loop(), Ok(2));
        assert_eq!(cpu.accumulator(), value);
        assert_eq!(zero(&cpu), z);
        assert_eq!(negative(&cpu), n);
    }
}

#[test]
fn load_flags_through_absolute_mode() {
    for (value, z, n) in [(0x00u8, true, false), (0x80, false, true), (0x7F, false, false)] {
        let mut cpu = cpu_with(&[0xAD, 0x00, 0x30], &[(0x3000, value)]);
        cpu.set_index_x(1);
        assert_eq!(cpu.execute_loop(), Ok(4));
        assert_eq!(zero(&cpu), z);
        assert_eq!(negative(&cpu), n);
    }
}

#[test]
fn load_keeps_other_flags() {
    let mut cpu = cpu_with(&[0xA9, 0x00, 0xA9, 0x01], &[]);
    assert_eq!(cpu.execute_loop(), Ok(2));
    assert!(zero(&cpu));
    assert_eq!(cpu.execute_loop(), Ok(2));
    assert!(!zero(&cpu));
    assert_eq!(cpu.status().bits(), 0);
}

#[test]
fn lda_zero_page() {
    let mut cpu = cpu_with(&[0xA5, 0x42], &[(0x0042, 0x99)]);
    assert_eq!(cpu.execute_loop(), Ok(3));
    assert_eq!(cpu.accumulator(), 0x99);
    assert!(negative(&cpu));
    assert_eq!(cpu.program_counter(), ORIGIN + 2);
}

#[test]
fn lda_zero_page_x_wraps_within_page_zero() {
    let mut cpu = cpu_with(&[0xB5, 0xF0], &[(0x0010, 0x5A), (0x0110, 0xEE)]);
    cpu.set_index_x(0x20);
    assert_eq!(cpu.execute_loop(), Ok(4));
    assert_eq!(cpu.accumulator(), 0x5A);
    assert_eq!(cpu.program_counter(), ORIGIN + 2);
}

#[test]
fn zero_page_x_address_stays_in_page_zero() {
    let mut cpu = cpu_with(&[0xFF], &[]);
    cpu.set_index_x(0xFF);
    assert_eq!(cpu.zero_page_x_address(), 0x00FE);
}

#[test]
fn lda_absolute() {
    let mut cpu = cpu_with(&[0xAD, 0x34, 0x12], &[(0x1234, 0x77)]);
    assert_eq!(cpu.execute_loop(), Ok(4));
    assert_eq!(cpu.accumulator(), 0x77);
    assert_eq!(cpu.program_counter(), ORIGIN + 3);
}

#[test]
fn lda_absolute_x_without_and_with_page_cross() {
    let mut cpu = cpu_with(&[0xBD, 0x10, 0x00], &[(0x0015, 0x21)]);
    cpu.set_index_x(0x05);
    assert_eq!(cpu.execute_loop(), Ok(4));
    assert_eq!(cpu.accumulator(), 0x21);

    let mut cpu = cpu_with(&[0xBD, 0xF0, 0x00], &[(0x0110, 0x22)]);
    cpu.set_index_x(0x20);
    assert_eq!(cpu.execute_loop(), Ok(5));
    assert_eq!(cpu.accumulator(), 0x22);
    assert_eq!(cpu.program_counter(), ORIGIN + 3);
}

#[test]
fn absolute_y_page_cross_costs_five() {
    let mut cpu = cpu_with(&[0xB9, 0xF0, 0x00], &[(0x0110, 0x44)]);
    cpu.set_index_y(0x20);
    assert_eq!(cpu.execute_loop(), Ok(5));
    assert_eq!(cpu.accumulator(), 0x44);
    assert_eq!(cpu.program_counter(), ORIGIN + 3);
}

#[test]
fn absolute_y_same_page_costs_four() {
    let mut cpu = cpu_with(&[0xB9, 0x10, 0x00], &[(0x0015, 0x45)]);
    cpu.set_index_y(0x05);
    assert_eq!(cpu.execute_loop(), Ok(4));
    assert_eq!(cpu.accumulator(), 0x45);
}

#[test]
fn absolute_y_address_reports_cross() {
    let mut cpu = cpu_with(&[0xF0, 0x00], &[]);
    cpu.set_index_y(0x20);
    assert_eq!(cpu.absolute_y_address(), (0x0110, true));
    let mut cpu = cpu_with(&[0x10, 0x00], &[]);
    cpu.set_index_y(0x05);
    assert_eq!(cpu.absolute_y_address(), (0x0015, false));
}

#[test]
fn lda_indirect_x_end_to_end() {
    let mut cpu = cpu_with(&[0xA1, 0x10], &[(0x0014, 0x00), (0x0015, 0x30), (0x3000, 0x66)]);
    cpu.set_index_x(0x04);
    assert_eq!(cpu.execute_loop(), Ok(6));
    assert_eq!(cpu.accumulator(), 0x66);
    assert_eq!(cpu.program_counter(), ORIGIN + 2);
}

#[test]
fn lda_indirect_x_cost_independent_of_page() {
    let mut cpu = cpu_with(&[0xA1, 0x10], &[(0x0014, 0xFF), (0x0015, 0x01), (0x01FF, 0x67)]);
    cpu.set_index_x(0x04);
    assert_eq!(cpu.execute_loop(), Ok(6));
    assert_eq!(cpu.accumulator(), 0x67);
}

#[test]
fn indirect_x_pointer_wraps_within_page_zero() {
    let mut cpu = cpu_with(&[0xA1, 0xFE], &[(0x00FF, 0x00), (0x0000, 0x31), (0x0100, 0x99), (0x3100, 0x0C)]);
    cpu.set_index_x(0x01);
    assert_eq!(cpu.execute_loop(), Ok(6));
    assert_eq!(cpu.accumulator(), 0x0C);

    let mut cpu = cpu_with(&[0xF0], &[(0x0010, 0x34), (0x0011, 0x12)]);
    cpu.set_index_x(0x20);
    assert_eq!(cpu.indirect_x_address(), 0x1234);
}

#[test]
fn lda_indirect_y_without_and_with_page_cross() {
    let mut cpu = cpu_with(&[0xB1, 0x20], &[(0x0020, 0x00), (0x0021, 0x30), (0x3004, 0x12)]);
    cpu.set_index_y(0x04);
    assert_eq!(cpu.execute_loop(), Ok(5));
    assert_eq!(cpu.accumulator(), 0x12);

    let mut cpu = cpu_with(&[0xB1, 0x20], &[(0x0020, 0xF0), (0x0021, 0x30), (0x3100, 0x13)]);
    cpu.set_index_y(0x10);
    assert_eq!(cpu.execute_loop(), Ok(6));
    assert_eq!(cpu.accumulator(), 0x13);
    assert_eq!(cpu.program_counter(), ORIGIN + 2);
}

#[test]
fn indirect_y_pointer_high_byte_wraps_within_page_zero() {
    let mut cpu = cpu_with(&[0xB1, 0xFF], &[(0x00FF, 0x00), (0x0000, 0x40), (0x0100, 0x50), (0x4001, 0x3C)]);
    cpu.set_index_y(0x01);
    assert_eq!(cpu.execute_loop(), Ok(5));
    assert_eq!(cpu.accumulator(), 0x3C);
}

#[test]
fn unknown_opcode_is_fatal_and_only_moves_pc() {
    let mut cpu = cpu_with(&[0xA9, 0x81, 0xFF], &[]);
    cpu.set_index_x(3);
    cpu.set_index_y(4);
    assert_eq!(cpu.execute_loop(), Ok(2));
    let status = cpu.status().bits();
    assert_eq!(
        cpu.execute_loop(),
        Err(CpuError::UnknownOpcode { opcode: 0xFF, address: ORIGIN + 2 })
    );
    assert_eq!(cpu.program_counter(), ORIGIN + 3);
    assert_eq!(cpu.accumulator(), 0x81);
    assert_eq!(cpu.index_x(), 3);
    assert_eq!(cpu.index_y(), 4);
    assert_eq!(cpu.stack_pointer(), 0);
    assert_eq!(cpu.status().bits(), status);
}

#[test]
fn context_line_lists_registers() {
    let mut cpu = cpu_with(&[0xA9, 0x80], &[]);
    cpu.set_index_x(1);
    cpu.set_index_y(2);
    cpu.execute_loop().unwrap();
    assert_eq!(
        cpu.get_ctx(),
        "SP=0, PC=514, REG_A=128, REG_X=1, REG_Y=2, STATUS_REG=128"
    );
}
