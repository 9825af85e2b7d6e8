use cpu_emulator::bench::ram::RAM as Memory64K;
use cpu_emulator::card::card_step;
use cpu_emulator::cpu::{Reg, CPU};
use cpu_emulator::ram::RAM;

fn machine(program: &[u8]) -> CPU<Memory64K> {
    let mut mem = Memory64K::new();
    for (i, b) in program.iter().enumerate() {
        mem.write(i, *b);
    }
    let mut cpu = CPU::new(RAM::new(mem));
    cpu.reset();
    cpu
}

fn run_to_halt(cpu: &mut CPU<Memory64K>, limit: usize) {
    for _ in 0..limit {
        if cpu.halted() {
            return;
        }
        let op = cpu.fetch_instruction();
        cpu.execute_instruction(op);
    }
}

fn reg(cpu: &mut CPU<Memory64K>, r: Reg) -> u8 {
    cpu.read_reg(r)
}

#[test]
fn start_up_program_adds_five_and_seven() {
    // RAM::init places MVI A,05h; ADI 07h; HLT
    let mut ram = RAM::new(Memory64K::new());
    ram.init();
    let mut cpu = CPU::new(ram);
    cpu.reset();
    run_to_halt(&mut cpu, 10);
    assert!(cpu.halted());
    assert_eq!(reg(&mut cpu, Reg::A), 0x0C);
    assert_eq!(cpu.pc, 5);
    // 0x0C has two one bits: even parity; no carry, no sign, not zero
    assert_eq!(cpu.pack_flags(), 0b0000_0110);
}

#[test]
fn power_up_and_reset_state() {
    let mut cpu = CPU::new(RAM::new(Memory64K::new()));
    assert_eq!(cpu.pc, 0);
    assert!(!cpu.halted());
    assert_eq!(cpu.pack_flags(), 0x02);
    cpu.halt();
    assert!(cpu.halted());
    cpu.unhalt();
    assert!(!cpu.halted());
    cpu.set_bc(0x1234);
    cpu.reset();
    assert_eq!(cpu.read_bc(), 0);
    // after reset the stack pointer is 0xFFFF: a push lands at 0xFFFE and 0xFFFD
    cpu.stack_push(0xABCD);
    assert_eq!(cpu.ram.read(0xFFFE), 0xAB);
    assert_eq!(cpu.ram.read(0xFFFD), 0xCD);
}

#[test]
fn register_codes_convert_both_ways() {
    for code in 0u8..8 {
        let r = Reg::from(code);
        assert_eq!(u8::from(r), code);
    }
    assert_eq!(Reg::from(9u8), Reg::B);
    assert_eq!(u8::from(Reg::M), 6);
}

#[test]
fn register_pairs_read_back() {
    let mut cpu = machine(&[]);
    cpu.set_bc(0x1234);
    assert_eq!(cpu.read_bc(), 0x1234);
    assert_eq!(reg(&mut cpu, Reg::B), 0x12);
    assert_eq!(reg(&mut cpu, Reg::C), 0x34);
    cpu.set_de(0xBEEF);
    assert_eq!(cpu.read_de(), 0xBEEF);
    // HL is H high, L low
    cpu.set_hl(0x1234);
    assert_eq!(reg(&mut cpu, Reg::H), 0x12);
    assert_eq!(reg(&mut cpu, Reg::L), 0x34);
    assert_eq!(cpu.read_hl(), 0x1234);
}

#[test]
fn memory_register_goes_through_hl() {
    let mut cpu = machine(&[]);
    cpu.set_hl(0x2010);
    cpu.set_reg(Reg::M, 0x77);
    assert_eq!(cpu.ram.read(0x2010), 0x77);
    assert_eq!(cpu.read_m(), 0x77);
    cpu.write_m(0x11);
    assert_eq!(reg(&mut cpu, Reg::M), 0x11);
}

#[test]
fn psw_packs_and_unpacks_flags() {
    let mut cpu = machine(&[]);
    cpu.set_psw(0x42D5);
    assert_eq!(reg(&mut cpu, Reg::A), 0x42);
    // S Z A P C come back; bit 1 is always set
    assert_eq!(cpu.pack_flags(), 0xD7);
    assert_eq!(cpu.read_psw(), 0x42D7);
    cpu.unpack_flags(0x04);
    // the parity bit alone
    assert_eq!(cpu.pack_flags(), 0x06);
    cpu.unpack_flags(0x40);
    assert_eq!(cpu.pack_flags(), 0x42);
    // bits 5 and 3 are dropped
    cpu.unpack_flags(0xFF);
    assert_eq!(cpu.pack_flags(), 0xD7);
}

#[test]
fn set_szp_reports_sign_zero_parity() {
    let mut cpu = machine(&[]);
    cpu.set_szp(0x00);
    assert_eq!(cpu.pack_flags(), 0x46);
    cpu.set_szp(0x80);
    assert_eq!(cpu.pack_flags(), 0x82);
    cpu.set_szp(0x03);
    assert_eq!(cpu.pack_flags(), 0x06);
}

#[test]
fn fetch_helpers_read_operands() {
    let mut cpu = machine(&[0xC3, 0x34, 0x12]);
    assert_eq!(cpu.fetch_instruction(), 0xC3);
    assert_eq!(cpu.fetch_byte(0), 0x34);
    assert_eq!(cpu.fetch_word(0), 0x1234);
}

#[test]
fn stack_push_then_pop() {
    let mut cpu = machine(&[]);
    cpu.stack_push(0xBEEF);
    cpu.stack_push(0x1234);
    assert_eq!(cpu.stack_pop(), 0x1234);
    assert_eq!(cpu.stack_pop(), 0xBEEF);
}

#[test]
fn inr_dcr_and_aux_carry() {
    // MVI B,0Fh; INR B; DCR B; HLT
    let mut cpu = machine(&[0x06, 0x0F, 0x04, 0x05, 0x76]);
    cpu.execute_instruction(0x06);
    cpu.execute_instruction(0x04);
    assert_eq!(reg(&mut cpu, Reg::B), 0x10);
    assert_eq!(cpu.pack_flags() & 0x10, 0x10); // AC out of the low nibble
    cpu.execute_instruction(0x05);
    assert_eq!(reg(&mut cpu, Reg::B), 0x0F);
    assert_eq!(cpu.pack_flags() & 0x10, 0x10); // AC: low nibble was zero
    assert_eq!(cpu.pc, 4);
}

#[test]
fn inr_wraps_and_sets_zero() {
    let mut cpu = machine(&[0x3E, 0xFF, 0x3C]);
    cpu.execute_instruction(0x3E);
    cpu.execute_instruction(0x3C);
    assert_eq!(reg(&mut cpu, Reg::A), 0x00);
    assert_eq!(cpu.pack_flags() & 0x40, 0x40);
}

#[test]
fn inx_dcx_wrap() {
    let mut cpu = machine(&[0x03, 0x0B, 0x23]);
    cpu.set_bc(0xFFFF);
    cpu.execute_instruction(0x03);
    assert_eq!(cpu.read_bc(), 0x0000);
    cpu.execute_instruction(0x0B);
    assert_eq!(cpu.read_bc(), 0xFFFF);
    // INX H carries from L into H
    cpu.set_hl(0x00FF);
    cpu.execute_instruction(0x23);
    assert_eq!(reg(&mut cpu, Reg::H), 0x01);
    assert_eq!(reg(&mut cpu, Reg::L), 0x00);
}

#[test]
fn rotates() {
    let mut cpu = machine(&[]);
    cpu.set_reg(Reg::A, 0x81);
    cpu.execute_instruction(0x07); // RLC
    assert_eq!(reg(&mut cpu, Reg::A), 0x03);
    assert_eq!(cpu.pack_flags() & 0x01, 0x01);
    cpu.execute_instruction(0x0F); // RRC
    assert_eq!(reg(&mut cpu, Reg::A), 0x81);
    cpu.execute_instruction(0x37); // STC
    cpu.set_reg(Reg::A, 0x00);
    cpu.execute_instruction(0x17); // RAL
    assert_eq!(reg(&mut cpu, Reg::A), 0x01);
    assert_eq!(cpu.pack_flags() & 0x01, 0x00);
    cpu.execute_instruction(0x1F); // RAR
    assert_eq!(reg(&mut cpu, Reg::A), 0x00);
    assert_eq!(cpu.pack_flags() & 0x01, 0x01);
    cpu.execute_instruction(0x3F); // CMC
    assert_eq!(cpu.pack_flags() & 0x01, 0x00);
    cpu.execute_instruction(0x2F); // CMA
    assert_eq!(reg(&mut cpu, Reg::A), 0xFF);
}

#[test]
fn decimal_adjust() {
    let mut cpu = machine(&[]);
    cpu.set_reg(Reg::A, 0x15);
    cpu.set_reg(Reg::B, 0x27);
    cpu.execute_instruction(0x80); // ADD B -> 0x3C
    cpu.execute_instruction(0x27); // DAA -> 0x42
    assert_eq!(reg(&mut cpu, Reg::A), 0x42);
    cpu.set_reg(Reg::A, 0x9B);
    cpu.execute_instruction(0x27);
    assert_eq!(reg(&mut cpu, Reg::A), 0x01);
    assert_eq!(cpu.pack_flags() & 0x11, 0x11); // AC and CY set
}

#[test]
fn arithmetic_group() {
    let mut cpu = machine(&[]);
    cpu.set_reg(Reg::A, 0xF0);
    cpu.set_reg(Reg::C, 0x20);
    cpu.execute_instruction(0x81); // ADD C
    assert_eq!(reg(&mut cpu, Reg::A), 0x10);
    assert_eq!(cpu.pack_flags() & 0x01, 0x01);
    cpu.execute_instruction(0x89); // ADC C: 0x10 + 0x20 + 1
    assert_eq!(reg(&mut cpu, Reg::A), 0x31);
    cpu.execute_instruction(0x91); // SUB C
    assert_eq!(reg(&mut cpu, Reg::A), 0x11);
    cpu.execute_instruction(0x91); // SUB C: borrow
    assert_eq!(reg(&mut cpu, Reg::A), 0xF1);
    assert_eq!(cpu.pack_flags() & 0x81, 0x81);
    cpu.execute_instruction(0x99); // SBB C: 0xF1 - 0x20 - 1
    assert_eq!(reg(&mut cpu, Reg::A), 0xD0);
    cpu.execute_instruction(0xB9); // CMP C
    assert_eq!(reg(&mut cpu, Reg::A), 0xD0);
    assert_eq!(cpu.pack_flags() & 0x01, 0x00);
    cpu.execute_instruction(0xA1); // ANA C
    assert_eq!(reg(&mut cpu, Reg::A), 0x00);
    assert_eq!(cpu.pack_flags(), 0x56); // Z, AC, P
    cpu.execute_instruction(0xB1); // ORA C
    assert_eq!(reg(&mut cpu, Reg::A), 0x20);
    cpu.execute_instruction(0xA9); // XRA C
    assert_eq!(reg(&mut cpu, Reg::A), 0x00);
}

#[test]
fn immediate_group() {
    // ADI 10h; SUI 01h; ANI 0Fh; ORI 0F0h; XRI 0FFh; CPI 0F0h; ACI 01h; SBI 01h
    let mut cpu = machine(&[0xC6, 0x10, 0xD6, 0x01, 0xE6, 0x0F, 0xF6, 0xF0, 0xEE, 0xFF, 0xFE, 0xF0,
        0xCE, 0x01, 0xDE, 0x01]);
    cpu.set_reg(Reg::A, 0x05);
    cpu.execute_instruction(0xC6);
    assert_eq!(reg(&mut cpu, Reg::A), 0x15);
    cpu.execute_instruction(0xD6);
    assert_eq!(reg(&mut cpu, Reg::A), 0x14);
    cpu.execute_instruction(0xE6);
    assert_eq!(reg(&mut cpu, Reg::A), 0x04);
    // ORI 0F0h: 0x04 | 0xF0
    cpu.execute_instruction(0xF6);
    assert_eq!(reg(&mut cpu, Reg::A), 0xF4);
    // XRI 0FFh
    cpu.execute_instruction(0xEE);
    assert_eq!(reg(&mut cpu, Reg::A), 0x0B);
    // CPI 0F0h: 0x0B < 0xF0 sets the carry, A unchanged
    cpu.execute_instruction(0xFE);
    assert_eq!(reg(&mut cpu, Reg::A), 0x0B);
    assert_eq!(cpu.pack_flags() & 0x01, 0x01);
    // ACI 01h: 0x0B + 1 + carry
    cpu.execute_instruction(0xCE);
    assert_eq!(reg(&mut cpu, Reg::A), 0x0D);
    assert_eq!(cpu.pack_flags() & 0x41, 0x00);
    cpu.execute_instruction(0xDE); // 0x0D - 1 - 0
    assert_eq!(reg(&mut cpu, Reg::A), 0x0C);
    assert_eq!(cpu.pc, 16);
}

#[test]
fn loads_and_stores() {
    // LXI B,2000h; MVI A,5Ah; STAX B; LDA 2000h; STA 2001h; LXI D,2001h; LDAX D; HLT
    let mut cpu = machine(&[0x01, 0x00, 0x20, 0x3E, 0x5A, 0x02, 0x3A, 0x00, 0x20, 0x32, 0x01,
        0x20, 0x11, 0x01, 0x20, 0x1A, 0x76]);
    run_to_halt(&mut cpu, 20);
    assert_eq!(cpu.ram.read(0x2000), 0x5A);
    assert_eq!(cpu.ram.read(0x2001), 0x5A);
    assert_eq!(reg(&mut cpu, Reg::A), 0x5A);
    assert_eq!(cpu.read_de(), 0x2001);
    assert_eq!(cpu.pc, 17);
}

#[test]
fn shld_stores_h_then_l_and_lhld_loads_l_then_h() {
    // LXI H,1234h; SHLD 3000h; LHLD 3000h
    let mut cpu = machine(&[0x21, 0x34, 0x12, 0x22, 0x00, 0x30, 0x2A, 0x00, 0x30]);
    cpu.execute_instruction(0x21);
    assert_eq!(reg(&mut cpu, Reg::H), 0x12);
    assert_eq!(reg(&mut cpu, Reg::L), 0x34);
    // H -> MEM[3000h], L -> MEM[3001h]
    cpu.execute_instruction(0x22);
    assert_eq!(cpu.ram.read(0x3000), 0x12);
    assert_eq!(cpu.ram.read(0x3001), 0x34);
    // MEM[3000h] -> L, MEM[3001h] -> H
    cpu.execute_instruction(0x2A);
    assert_eq!(reg(&mut cpu, Reg::L), 0x12);
    assert_eq!(reg(&mut cpu, Reg::H), 0x34);
    assert_eq!(cpu.pc, 9);
}

#[test]
fn mov_between_registers_and_memory() {
    let mut cpu = machine(&[0x47, 0x70, 0x4E]);
    cpu.set_reg(Reg::A, 0x99);
    cpu.execute_instruction(0x47); // MOV B,A
    assert_eq!(reg(&mut cpu, Reg::B), 0x99);
    cpu.set_hl(0x5000);
    cpu.execute_instruction(0x70); // MOV M,B
    assert_eq!(cpu.ram.read(0x5000), 0x99);
    cpu.execute_instruction(0x4E); // MOV C,M
    assert_eq!(reg(&mut cpu, Reg::C), 0x99);
}

#[test]
fn jumps_follow_conditions() {
    let mut cpu = machine(&[0xC2, 0x00, 0x10]);
    // Z clear after reset: JNZ taken
    cpu.execute_instruction(0xC2);
    assert_eq!(cpu.pc, 0x1000);
    let mut cpu = machine(&[0xCA, 0x00, 0x10]);
    cpu.execute_instruction(0xCA); // JZ not taken
    assert_eq!(cpu.pc, 3);
    let mut cpu = machine(&[0xC3, 0x34, 0x12]);
    cpu.execute_instruction(0xC3);
    assert_eq!(cpu.pc, 0x1234);
}

#[test]
fn call_ret_and_rst() {
    // CALL 0010h ... at 0010h: RET
    let mut program = vec![0u8; 0x20];
    program[0] = 0xCD;
    program[1] = 0x10;
    program[2] = 0x00;
    program[0x10] = 0xC9;
    let mut cpu = machine(&program);
    cpu.execute_instruction(0xCD);
    assert_eq!(cpu.pc, 0x10);
    assert_eq!(cpu.ram.read(0xFFFE), 0x00);
    assert_eq!(cpu.ram.read(0xFFFD), 0x03);
    cpu.execute_instruction(0xC9);
    assert_eq!(cpu.pc, 3);
    // RST 2 pushes the address of the RST itself
    cpu.execute_instruction(0xD7);
    assert_eq!(cpu.pc, 0x10);
    assert_eq!(cpu.stack_pop(), 3);
    // conditional call not taken: CZ with Z clear
    cpu.execute_instruction(0xCC);
    assert_eq!(cpu.pc, 0x13);
    // conditional return not taken: RZ with Z clear
    cpu.execute_instruction(0xC8);
    assert_eq!(cpu.pc, 0x14);
}

#[test]
fn push_pop_pairs() {
    let mut cpu = machine(&[]);
    cpu.set_bc(0x1234);
    cpu.execute_instruction(0xC5); // PUSH B
    cpu.execute_instruction(0xD1); // POP D
    assert_eq!(cpu.read_de(), 0x1234);
    // PUSH H, POP H restores the pair
    cpu.set_hl(0xAB01);
    cpu.execute_instruction(0xE5);
    cpu.set_hl(0);
    cpu.execute_instruction(0xE1);
    assert_eq!(reg(&mut cpu, Reg::H), 0xAB);
    assert_eq!(reg(&mut cpu, Reg::L), 0x01);
    // PUSH PSW, POP PSW restores A and every flag
    cpu.set_reg(Reg::A, 0x77);
    cpu.unpack_flags(0x85);
    cpu.execute_instruction(0xF5);
    cpu.set_reg(Reg::A, 0);
    cpu.unpack_flags(0x00);
    cpu.execute_instruction(0xF1);
    assert_eq!(reg(&mut cpu, Reg::A), 0x77);
    assert_eq!(cpu.pack_flags(), 0x87);
    assert_eq!(cpu.pc, 6);
}

#[test]
fn exchange_and_hl_transfers() {
    let mut cpu = machine(&[]);
    cpu.set_de(0x1122);
    cpu.set_hl(0x3344);
    cpu.execute_instruction(0xEB); // XCHG
    assert_eq!(reg(&mut cpu, Reg::D), 0x33);
    assert_eq!(reg(&mut cpu, Reg::E), 0x44);
    assert_eq!(reg(&mut cpu, Reg::H), 0x11);
    assert_eq!(reg(&mut cpu, Reg::L), 0x22);
    // PCHL jumps to the HL word
    cpu.execute_instruction(0xE9);
    assert_eq!(cpu.pc, 0x1122);
    // SPHL then a push lands below that address
    cpu.set_hl(0x3000);
    cpu.execute_instruction(0xF9);
    cpu.stack_push(0xCAFE);
    assert_eq!(cpu.ram.read(0x2FFF), 0xCA);
    assert_eq!(cpu.ram.read(0x2FFE), 0xFE);
}

#[test]
fn xthl_swaps_top_of_stack() {
    let mut cpu = machine(&[]);
    cpu.stack_push(0xBEEF);
    cpu.set_hl(0x1234);
    cpu.execute_instruction(0xE3);
    assert_eq!(reg(&mut cpu, Reg::L), 0xEF);
    assert_eq!(reg(&mut cpu, Reg::H), 0xBE);
    assert_eq!(cpu.stack_pop(), 0x1234);
}

#[test]
fn halt_and_interrupt_latches() {
    let mut cpu = machine(&[0xFB, 0xF3, 0x00, 0x76]);
    run_to_halt(&mut cpu, 10);
    assert!(cpu.halted());
    assert_eq!(cpu.pc, 4);
}

#[test]
fn unimplemented_opcodes_advance_by_one() {
    let mut cpu = machine(&[0xDB, 0x10]);
    cpu.execute_instruction(0xDB); // IN
    assert_eq!(cpu.pc, 1);
    cpu.execute_instruction(0x09); // DAD B
    assert_eq!(cpu.pc, 2);
}

#[test]
fn card_runs_one_instruction_per_ready_turn() {
    // MVI A,05h; ADI 07h; HLT
    let mut cpu = machine(&[0x3E, 0x05, 0xC6, 0x07, 0x76]);
    let idle = card_step(&mut cpu, false, false);
    assert!(!idle.halt_acknowledged);
    assert!(!idle.ran_instruction);
    assert_eq!(cpu.pc, 0);
    let t = card_step(&mut cpu, false, true);
    assert!(!t.halt_acknowledged);
    assert!(t.ran_instruction);
    assert_eq!(cpu.pc, 2);
    assert_eq!(reg(&mut cpu, Reg::A), 0x05);
    // the card halts the processor after each instruction it runs
    assert!(cpu.halted());
    let t = card_step(&mut cpu, false, true);
    assert!(t.halt_acknowledged);
    assert!(t.ran_instruction);
    assert_eq!(reg(&mut cpu, Reg::A), 0x0C);
    // a low reset input wins over ready
    let t = card_step(&mut cpu, true, true);
    assert!(t.halt_acknowledged);
    assert!(!t.ran_instruction);
    assert_eq!(cpu.pc, 0);
    assert!(!cpu.halted());
    assert_eq!(reg(&mut cpu, Reg::A), 0x00);
}

#[test]
fn emulator_mvi_a() {
    // MVI A,42h
    let mut cpu = machine(&[0x3E, 0x42]);
    cpu.execute_instruction(0x3E);
    assert_eq!(reg(&mut cpu, Reg::A), 0x42);
}

#[test]
fn emulator_inr_b() {
    // INR B
    let mut cpu = machine(&[0x04]);
    cpu.set_reg(Reg::B, 0x10);
    cpu.execute_instruction(0x04);
    assert_eq!(reg(&mut cpu, Reg::B), 0x11);
}
