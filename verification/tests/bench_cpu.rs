use cpu_emulator::bench::cpu::{Reg, CPU};
use cpu_emulator::bench::ram::RAM;

fn bench() -> CPU {
    let mut ram = RAM::new();
    ram.init();
    let mut cpu = CPU::new(ram);
    cpu.reset();
    cpu
}

#[test]
fn test_program_leaves_one_in_a() {
    let mut cpu = bench();
    while !cpu.halted() {
        let instr = cpu.fetch_instruction();
        cpu.execute_instruction(instr);
    }
    // expect A = 0x01, not 0x02
    assert_eq!(cpu.read_reg(0b111), 0x01);
    assert_eq!(cpu.read_pc(), 9);
}

#[test]
fn ram_reads_what_was_written() {
    let mut ram = RAM::new();
    assert_eq!(ram.read(0x1234), 0);
    ram.write(0x1234, 0x5A);
    assert_eq!(ram.read(0x1234), 0x5A);
    assert_eq!(ram.read(0x1235), 0);
    ram.init();
    assert_eq!(ram.read(0), 0x3C);
    assert_eq!(ram.read(8), 0x76);
}

#[test]
fn register_codes_and_slots() {
    let mut cpu = bench();
    cpu.set_reg(0b000, 0x11); // B, slot 1
    cpu.set_reg(0b001, 0x22); // C, slot 0
    // BC reads slot 0 as its high byte
    assert_eq!(cpu.read_bc(), 0x2211);
    cpu.set_bc(0xABCD);
    assert_eq!(cpu.read_reg(0b001), 0xAB);
    assert_eq!(cpu.read_reg(0b000), 0xCD);
    assert_eq!(cpu.read_reg(9), 0);
    assert!(matches!(Reg::from_code(7), Reg::A));
    assert!(matches!(Reg::from_code(1), Reg::C));
}

#[test]
fn psw_writes_slot_seven() {
    let mut cpu = bench();
    cpu.set_psw(0x12C1);
    // A (slot 6) is untouched; the flags come from the low byte S Z 0 AC 0 P 1 C
    assert_eq!(cpu.read_reg(0b111), 0);
    assert!(cpu.read_sign() && cpu.read_zero() && cpu.read_carry());
    assert!(!cpu.read_auxc() && !cpu.read_parity());
    assert_eq!(cpu.read_psw(), 0x00C3);
    assert_eq!(cpu.format_flags(), "[SZ..C]");
    cpu.unpack_flags(0x04);
    assert!(cpu.read_parity() && !cpu.read_zero());
    assert_eq!(cpu.pack_flags(), 0x06);
}

#[test]
fn hl_reads_h_high_l_low() {
    let mut cpu = bench();
    // set_hl puts the high byte in slot 4 (L) and the low byte in slot 5 (H)
    cpu.set_hl(0x1234);
    assert_eq!(cpu.read_reg(0b100), 0x34); // H
    assert_eq!(cpu.read_reg(0b101), 0x12); // L
    // read_hl concatenates H and L
    assert_eq!(cpu.read_hl(), 0x3412);
    cpu.set_reg(0b100, 0x20);
    cpu.set_reg(0b101, 0x10);
    assert_eq!(cpu.read_hl(), 0x2010);
}

#[test]
fn format_flags_after_reset() {
    let cpu = bench();
    assert_eq!(cpu.format_flags(), "[.....]");
    assert_eq!(cpu.pack_flags(), 0x02);
}

#[test]
fn adc_ignores_incoming_carry_in_flags() {
    let mut cpu = bench();
    cpu.set_reg(0b111, 0xFF);
    cpu.set_reg(0b000, 0x01);
    cpu.set_pc(0x100);
    cpu.execute_instruction(0x80); // ADD B -> 0x00, carry
    assert_eq!(cpu.read_reg(0b111), 0x00);
    assert!(cpu.read_carry());
    cpu.execute_instruction(0x88); // ADC B -> 0x02; carry from 0x00 + 0x01 only
    assert_eq!(cpu.read_reg(0b111), 0x02);
    assert!(!cpu.read_carry());
    assert_eq!(cpu.read_pc(), 0x102);
}

#[test]
fn mov_with_l_reads_memory() {
    let mut cpu = bench();
    cpu.set_hl(0x4000);
    cpu.write_m(0x99);
    assert_eq!(cpu.read_m(), 0x99);
    cpu.execute_instruction(0x45); // MOV B,L: source code 5 reads memory at HL
    assert_eq!(cpu.read_reg(0b000), 0x99);
    cpu.set_reg(0b111, 0x42);
    cpu.execute_instruction(0x6F); // MOV L,A: destination code 5 writes memory at HL
    assert_eq!(cpu.read_m(), 0x42);
}

#[test]
fn push_pop_round_trip() {
    let mut cpu = bench();
    cpu.set_de(0x1357);
    cpu.execute_instruction(0xD5); // PUSH D
    cpu.execute_instruction(0xC1); // POP B
    assert_eq!(cpu.read_bc(), 0x1357);
}

#[test]
fn unimplemented_opcodes_only_advance() {
    let mut cpu = bench();
    cpu.execute_instruction(0xC3); // JMP is not implemented here
    assert_eq!(cpu.read_pc(), 1);
    cpu.execute_instruction(0x27); // DAA
    cpu.execute_instruction(0x37); // STC
    assert!(!cpu.read_carry());
    assert_eq!(cpu.read_pc(), 3);
    cpu.set_sp(0x8000);
    cpu.execute_instruction(0x33); // INX SP
    cpu.execute_instruction(0xF5); // PUSH PSW: A at 0x8000, flags at 0x7FFF
    cpu.set_hl(0xFF7F); // H = 0x7F, L = 0xFF: HL reads 0x7FFF
    assert_eq!(cpu.read_m(), 0x02);
    cpu.set_hl(0x0080); // HL reads 0x8000
    assert_eq!(cpu.read_m(), 0x00);
}

#[test]
fn rotate_and_complement() {
    let mut cpu = bench();
    cpu.set_reg(0b111, 0x80);
    cpu.execute_instruction(0x07); // RLC
    assert_eq!(cpu.read_reg(0b111), 0x01);
    assert!(cpu.read_carry());
    cpu.execute_instruction(0x1F); // RAR
    assert_eq!(cpu.read_reg(0b111), 0x80);
    assert!(cpu.read_carry());
    cpu.execute_instruction(0x2F); // CMA
    assert_eq!(cpu.read_reg(0b111), 0x7F);
    cpu.execute_instruction(0x3F); // CMC
    assert!(!cpu.read_carry());
}
