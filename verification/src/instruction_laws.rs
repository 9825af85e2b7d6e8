//! What single instructions do, stated by their results: the accumulator operations
//! and compares, the conditional jumps, the register moves, and the same of the
//! test-bench processor and of the processor whose memory is on the bus.
use vstd::prelude::*;
use crate::bits::{word, even_parity};
use crate::model::{
    CpuState, step, alu, dst_code, src_code, is_alu, is_mov, is_inr, is_dcr, is_mvi, lemma_step_alu, lemma_step_alu_imm, lemma_step_jump, lemma_step_mov, lemma_step_nop, lemma_step_inr_dcr, lemma_step_inx_dcx, lemma_step_acc, lemma_step_stax_ldax, lemma_step_direct, lemma_step_lxi, lemma_step_mvi, lemma_step_push, lemma_step_pop, lemma_step_call, lemma_step_ret, lemma_step_rst, lemma_step_hl_ops,
};
use crate::bench::model::{BenchState, bench_step, lemma_bench_alu, lemma_bench_inr_dcr, lemma_bench_rotate, lemma_bench_direct, lemma_bench_mov, lemma_bench_push, lemma_bench_pop, lemma_bench_stax_ldax};
use crate::bus_cpu::bus_step;
use crate::instructions::table_row;
use crate::laws::law_pair_read_after_write;

verus! {

/// The accumulator opcode of operation `kind` with operand register `r` decodes to them.
proof fn lemma_alu_decode(kind: int, r: int)
    requires
        0 <= kind < 8,
        0 <= r < 8,
    ensures
        is_alu((0x80 + 8 * kind + r) as u8),
        dst_code((0x80 + 8 * kind + r) as u8) == kind,
        src_code((0x80 + 8 * kind + r) as u8) == r,
{
    let op = (0x80 + 8 * kind + r) as u8;
    assert(op as int == 0x80 + 8 * kind + r);
    assert((0x80 + 8 * kind + r) / 8 == 16 + kind) by (nonlinear_arith)
        requires
            0 <= kind < 8,
            0 <= r < 8,
    ;
    assert((0x80 + 8 * kind + r) % 8 == r) by (nonlinear_arith)
        requires
            0 <= kind < 8,
            0 <= r < 8,
    ;
}

/// Executing accumulator operation `kind` with register `r` applies it to the operand.
proof fn lemma_alu_op(s: CpuState, kind: int, r: int)
    requires
        0 <= kind < 8,
        0 <= r < 8,
    ensures
        step(s, (0x80 + 8 * kind + r) as u8) == alu(s, kind, s.reg(r)).with_pc(s.pc + 1),
{
    lemma_alu_decode(kind, r);
    lemma_step_alu(s, (0x80 + 8 * kind + r) as u8);
}

/// `t` has the registers other than A, the stack pointer and the memory of `s`.
pub open spec fn keeps_all_but_a(t: CpuState, s: CpuState) -> bool {
    &&& t.b == s.b && t.c == s.c && t.d == s.d && t.e == s.e && t.h == s.h && t.l == s.l
    &&& t.sp == s.sp && t.mem == s.mem
}

/// The flags of `t` are those of its accumulator: zero exactly when A is 0, sign from
/// bit 7, parity even.
pub open spec fn flags_of_a(t: CpuState) -> bool {
    t.zero == (t.a == 0) && t.sign == (t.a >= 128) && t.parity == even_parity(t.a)
}

/// ADD r: A becomes A + v modulo 256, where v is register `r` (0 B, 1 C, 2 D, 3 E,
/// 4 H, 5 L, 6 the memory byte at HL, 7 A); the carry is set exactly when the sum
/// passes 255; the flags describe the new A; nothing else changes.
pub proof fn law_add_register(s: CpuState, r: int)
    requires
        0 <= r < 8,
    ensures
        ({
            let v = s.reg(r) as int;
            let t = step(s, (0x80 + r) as u8);
            &&& t.a == (s.a + v) % 256
            &&& t.carry == (s.a + v > 255)
            &&& flags_of_a(t)
            &&& keeps_all_but_a(t, s)
            &&& t.pc == (s.pc + 1) as usize
        }),
{
    lemma_alu_op(s, 0, r);
}

/// SUB r: A becomes A - v modulo 256; the carry (borrow) is set exactly when v is
/// greater than A; zero is set exactly when A equalled v; nothing else changes.
pub proof fn law_sub_register(s: CpuState, r: int)
    requires
        0 <= r < 8,
    ensures
        ({
            let v = s.reg(r) as int;
            let t = step(s, (0x90 + r) as u8);
            &&& t.a == (s.a - v + 256) % 256
            &&& t.carry == (s.a < v)
            &&& t.zero == (s.a == v)
            &&& flags_of_a(t)
            &&& keeps_all_but_a(t, s)
            &&& t.pc == (s.pc + 1) as usize
        }),
{
    lemma_alu_op(s, 2, r);
}

/// ANA r, XRA r and ORA r: A becomes the bitwise and, exclusive or, or of A and v;
/// the carry is cleared; the flags describe the new A; nothing else changes.
pub proof fn law_logic_register(s: CpuState, r: int)
    requires
        0 <= r < 8,
    ensures
        ({
            let v = s.reg(r);
            let and = step(s, (0xA0 + r) as u8);
            let xor = step(s, (0xA8 + r) as u8);
            let or = step(s, (0xB0 + r) as u8);
            &&& and.a == s.a & v && !and.carry && flags_of_a(and) && keeps_all_but_a(and, s)
            &&& xor.a == s.a ^ v && !xor.carry && flags_of_a(xor) && keeps_all_but_a(xor, s)
            &&& or.a == s.a | v && !or.carry && flags_of_a(or) && keeps_all_but_a(or, s)
        }),
{
    lemma_alu_op(s, 4, r);
    lemma_alu_op(s, 5, r);
    lemma_alu_op(s, 6, r);
}

/// XRA A clears the accumulator and sets the zero flag; ORA A and ANA A keep it.
pub proof fn law_logic_with_itself(s: CpuState)
    ensures
        step(s, 0xAF).a == 0 && step(s, 0xAF).zero && !step(s, 0xAF).carry,
        step(s, 0xB7).a == s.a && step(s, 0xB7).zero == (s.a == 0),
        step(s, 0xA7).a == s.a,
{
    let a = s.a;
    assert(a ^ a == 0 && a | a == a && a & a == a) by (bit_vector);
    lemma_step_alu(s, 0xAF);
    lemma_step_alu(s, 0xB7);
    lemma_step_alu(s, 0xA7);
}

/// CMP r: A is left as it was; zero is set exactly when A equals v, carry exactly when
/// v is greater than A, and sign and parity are those of A - v modulo 256; nothing
/// else changes.
pub proof fn law_compare_register(s: CpuState, r: int)
    requires
        0 <= r < 8,
    ensures
        ({
            let v = s.reg(r) as int;
            let diff = ((s.a - v + 256) % 256) as u8;
            let t = step(s, (0xB8 + r) as u8);
            &&& t.a == s.a
            &&& t.zero == (s.a == v)
            &&& t.carry == (s.a < v)
            &&& t.sign == (diff >= 128)
            &&& t.parity == even_parity(diff)
            &&& keeps_all_but_a(t, s)
            &&& t.pc == (s.pc + 1) as usize
        }),
{
    lemma_alu_op(s, 7, r);
}

/// ADI and SUI add and subtract the byte after the opcode, v: A becomes A + v or A - v
/// modulo 256, the carry is set exactly when the sum passes 255 or v is greater than A,
/// and the program counter moves past the two bytes.
pub proof fn law_immediate_arith(s: CpuState)
    ensures
        ({
            let vi = s.operand_byte() as int;
            &&& step(s, 0xC6).a == (s.a + vi) % 256 && step(s, 0xC6).carry == (s.a + vi > 255)
            &&& flags_of_a(step(s, 0xC6)) && step(s, 0xC6).pc == (s.pc + 2) as usize
            &&& step(s, 0xD6).a == (s.a - vi + 256) % 256 && step(s, 0xD6).carry == (s.a < vi)
            &&& flags_of_a(step(s, 0xD6)) && step(s, 0xD6).pc == (s.pc + 2) as usize
        }),
{
    lemma_step_alu_imm(s, 0xC6);
    lemma_step_alu_imm(s, 0xD6);
}

/// ANI, XRI and ORI combine A bitwise (and, exclusive or, or) with the byte after the
/// opcode, clear the carry, and set the flags from the new A.
pub proof fn law_immediate_logic(s: CpuState)
    ensures
        ({
            let v = s.operand_byte();
            &&& step(s, 0xE6).a == s.a & v && !step(s, 0xE6).carry && flags_of_a(step(s, 0xE6))
            &&& step(s, 0xEE).a == s.a ^ v && !step(s, 0xEE).carry && flags_of_a(step(s, 0xEE))
            &&& step(s, 0xF6).a == s.a | v && !step(s, 0xF6).carry && flags_of_a(step(s, 0xF6))
            &&& keeps_all_but_a(step(s, 0xF6), s)
        }),
{
    lemma_step_alu_imm(s, 0xE6);
    lemma_step_alu_imm(s, 0xEE);
    lemma_step_alu_imm(s, 0xF6);
}

/// CPI compares A with the byte after the opcode: A is left as it was, zero is set
/// exactly when they are equal and carry exactly when the byte is greater.
pub proof fn law_compare_immediate(s: CpuState)
    ensures
        ({
            let v = s.operand_byte();
            &&& step(s, 0xFE).a == s.a
            &&& step(s, 0xFE).zero == (s.a == v)
            &&& step(s, 0xFE).carry == (s.a < v)
            &&& keeps_all_but_a(step(s, 0xFE), s)
            &&& step(s, 0xFE).pc == (s.pc + 2) as usize
        }),
{
    lemma_step_alu_imm(s, 0xFE);
}

/// The conditional jumps go to the little-endian address after the opcode when their
/// flag condition holds and past the three instruction bytes otherwise: JNZ on zero
/// clear, JZ on zero set, JNC on carry clear, JC on carry set, JPO on parity clear, JPE
/// on parity set, JP on sign clear, JM on sign set.
pub proof fn law_conditional_jumps(s: CpuState)
    ensures
        ({
            let target = word(s.mem[s.pc + 2], s.mem[s.pc + 1]);
            let next = s.pc + 3;
            &&& step(s, 0xC2).pc == (if !s.zero { target } else { next }) as usize
            &&& step(s, 0xCA).pc == (if s.zero { target } else { next }) as usize
            &&& step(s, 0xD2).pc == (if !s.carry { target } else { next }) as usize
            &&& step(s, 0xDA).pc == (if s.carry { target } else { next }) as usize
            &&& step(s, 0xE2).pc == (if !s.parity { target } else { next }) as usize
            &&& step(s, 0xEA).pc == (if s.parity { target } else { next }) as usize
            &&& step(s, 0xF2).pc == (if !s.sign { target } else { next }) as usize
            &&& step(s, 0xFA).pc == (if s.sign { target } else { next }) as usize
            &&& step(s, 0xCA).a == s.a && step(s, 0xCA).zero == s.zero
        }),
{
    lemma_step_jump(s, 0xC2);
    lemma_step_jump(s, 0xCA);
    lemma_step_jump(s, 0xD2);
    lemma_step_jump(s, 0xDA);
    lemma_step_jump(s, 0xE2);
    lemma_step_jump(s, 0xEA);
    lemma_step_jump(s, 0xF2);
    lemma_step_jump(s, 0xFA);
}

/// A compare followed by JZ jumps exactly when the accumulator equalled the operand,
/// and by JNZ exactly when it did not.
pub proof fn law_compare_then_jump(s: CpuState, r: int)
    requires
        0 <= r < 8,
    ensures
        ({
            let t = step(s, (0xB8 + r) as u8);
            let target = word(t.mem[t.pc + 2], t.mem[t.pc + 1]);
            &&& step(t, 0xCA).pc == (if s.a == s.reg(r) { target } else { t.pc + 3 }) as usize
            &&& step(t, 0xC2).pc == (if s.a != s.reg(r) { target } else { t.pc + 3 }) as usize
        }),
{
    law_compare_register(s, r);
    law_conditional_jumps(step(s, (0xB8 + r) as u8));
}

/// The move opcode with destination `d` and source `r` decodes to them.
proof fn lemma_mov_decode(d: int, r: int)
    requires
        0 <= d < 8,
        0 <= r < 8,
        !(d == 6 && r == 6),
    ensures
        is_mov((0x40 + 8 * d + r) as u8),
        dst_code((0x40 + 8 * d + r) as u8) == d,
        src_code((0x40 + 8 * d + r) as u8) == r,
{
    let op = (0x40 + 8 * d + r) as u8;
    assert(op as int == 0x40 + 8 * d + r);
    assert((0x40 + 8 * d + r) / 8 == 8 + d) by (nonlinear_arith)
        requires
            0 <= d < 8,
            0 <= r < 8,
    ;
    assert((0x40 + 8 * d + r) % 8 == r) by (nonlinear_arith)
        requires
            0 <= d < 8,
            0 <= r < 8,
    ;
}

/// MOV d,r copies register `r` into register `d` (code 6 on either side is the memory
/// byte at HL, which must then be in memory) and leaves every other register as it was;
/// a move into a register leaves memory as it was.
pub proof fn law_move_register(s: CpuState, d: int, r: int)
    requires
        0 <= d < 8,
        0 <= r < 8,
        !(d == 6 && r == 6),
        s.reg_ok(d),
    ensures
        ({
            let t = step(s, (0x40 + 8 * d + r) as u8);
            &&& t.reg(d) == s.reg(r)
            &&& forall|k: int| 0 <= k < 8 && k != d && k != 6 ==> #[trigger] t.reg(k) == s.reg(k)
            &&& d != 6 ==> t.mem == s.mem
            &&& t.a == s.a || d == 7
            &&& t.flags_byte() == s.flags_byte()
            &&& t.pc == (s.pc + 1) as usize
        }),
{
    lemma_mov_decode(d, r);
    lemma_step_mov(s, (0x40 + 8 * d + r) as u8);
}

/// On the test bench, the accumulator operation `kind` with register `r` applied.
proof fn lemma_bench_alu_op(s: BenchState, kind: int, r: int)
    requires
        0 <= kind < 8,
        0 <= r < 8,
    ensures
        bench_step(s, (0x80 + 8 * kind + r) as u8) == crate::bench::model::alu(
            s,
            kind,
            s.reg(r),
        ).with_pc(s.pc + 1),
{
    lemma_alu_decode(kind, r);
    lemma_bench_alu(s, (0x80 + 8 * kind + r) as u8);
}

/// On the test bench (A is register code 7): ADD r leaves A + v modulo 256 with carry
/// exactly when the sum passes 255; SUB r leaves A - v modulo 256 with carry exactly
/// when v is greater than A; CMP r leaves A, and sets zero exactly when A equals v and
/// carry exactly when v is greater.
pub proof fn law_bench_arith_register(s: BenchState, r: int)
    requires
        s.wf(),
        0 <= r < 8,
    ensures
        ({
            let a = s.reg(7) as int;
            let v = s.reg(r) as int;
            let add = bench_step(s, (0x80 + r) as u8);
            let sub = bench_step(s, (0x90 + r) as u8);
            let compare = bench_step(s, (0xB8 + r) as u8);
            &&& add.reg(7) == (a + v) % 256 && add.carry == (a + v > 255) && add.zero == (add.reg(
                7,
            ) == 0)
            &&& sub.reg(7) == (a - v + 256) % 256 && sub.carry == (a < v) && sub.zero == (a == v)
            &&& compare.reg(7) == a && compare.zero == (a == v) && compare.carry == (a < v)
        }),
{
    lemma_bench_alu_op(s, 0, r);
    lemma_bench_alu_op(s, 2, r);
    lemma_bench_alu_op(s, 7, r);
}

/// On the test bench, ANA r, XRA r and ORA r leave in A the bitwise and, exclusive or
/// and or of A and the operand, clear the carry, and set zero exactly when the new A
/// is 0.
pub proof fn law_bench_logic_register(s: BenchState, r: int)
    requires
        s.wf(),
        0 <= r < 8,
    ensures
        ({
            let a = s.reg(7);
            let v = s.reg(r);
            let and = bench_step(s, (0xA0 + r) as u8);
            let xor = bench_step(s, (0xA8 + r) as u8);
            let or = bench_step(s, (0xB0 + r) as u8);
            &&& and.reg(7) == a & v && !and.carry && and.zero == (a & v == 0)
            &&& xor.reg(7) == a ^ v && !xor.carry && xor.zero == (a ^ v == 0)
            &&& or.reg(7) == a | v && !or.carry && or.zero == (a | v == 0)
        }),
{
    lemma_bench_alu_op(s, 4, r);
    lemma_bench_alu_op(s, 5, r);
    lemma_bench_alu_op(s, 6, r);
}

/// On the test bench, XRA A clears A and sets zero, and XRA r twice with an operand
/// other than A gives back A.
pub proof fn law_bench_xra(s: BenchState, r: int)
    requires
        s.wf(),
        0 <= r < 7,
    ensures
        bench_step(s, 0xAF).reg(7) == 0 && bench_step(s, 0xAF).zero,
        bench_step(bench_step(s, (0xA8 + r) as u8), (0xA8 + r) as u8).reg(7) == s.reg(7),
{
    let a = s.reg(7);
    let v = s.reg(r);
    assert(a ^ a == 0 && (a ^ v) ^ v == a) by (bit_vector);
    lemma_bench_alu_op(s, 5, 7);
    lemma_bench_alu_op(s, 5, r);
    let t = bench_step(s, (0xA8 + r) as u8);
    assert(t.reg(r) == v);
    lemma_bench_alu_op(t, 5, r);
}

/// Over the bus: MOV B,M loads B with the bus byte at HL and leaves every other
/// register, and the bus, as they were; MOV M,r stores register `r` at HL and leaves the
/// registers as they were; LDA loads A with the bus byte at the little-endian address
/// after the opcode; STA stores A there.
pub proof fn law_bus_moves(c: CpuState, bus: Seq<u8>, r: int)
    requires
        bus.len() >= 65536,
        0 <= r < 8,
        r != 6,
    ensures
        ({
            let addr = word(bus[(c.pc + 2) % 65536], bus[(c.pc + 1) % 65536]);
            let (t, out) = bus_step(c, bus, 0x46);
            let (u, out_m) = bus_step(c, bus, (0x70 + r) as u8);
            let (lda, out_lda) = bus_step(c, bus, 0x3A);
            let (sta, out_sta) = bus_step(c, bus, 0x32);
            &&& t.b == bus[c.hl()] && out == bus
            &&& t.a == c.a && t.c == c.c && t.d == c.d && t.e == c.e && t.h == c.h && t.l == c.l
            &&& u.a == c.a && u.b == c.b && u.c == c.c && u.d == c.d && u.e == c.e && u.h == c.h
                && u.l == c.l
            &&& out_m == bus.update(c.hl(), c.reg(r))
            &&& lda.a == bus[addr] && lda.b == c.b && out_lda == bus
            &&& out_sta == bus.update(addr, c.a) && sta.a == c.a
        }),
{
}


/// The letters of register code `r` in a mnemonic: B, C, D, E, H, L, M (the memory
/// byte at HL), A.
pub open spec fn register_letter(r: int) -> Seq<char> {
    if r == 0 {
        seq!['B']
    } else if r == 1 {
        seq!['C']
    } else if r == 2 {
        seq!['D']
    } else if r == 3 {
        seq!['E']
    } else if r == 4 {
        seq!['H']
    } else if r == 5 {
        seq!['L']
    } else if r == 6 {
        seq!['M']
    } else {
        seq!['A']
    }
}

/// The letters of flag condition `cc` in a mnemonic: NZ (zero clear), Z (zero set), NC
/// (carry clear), C (carry set), PO (parity odd), PE (parity even), P (sign clear,
/// plus), M (sign set, minus).
pub open spec fn condition_letters(cc: int) -> Seq<char> {
    if cc == 0 {
        seq!['N', 'Z']
    } else if cc == 1 {
        seq!['Z']
    } else if cc == 2 {
        seq!['N', 'C']
    } else if cc == 3 {
        seq!['C']
    } else if cc == 4 {
        seq!['P', 'O']
    } else if cc == 5 {
        seq!['P', 'E']
    } else if cc == 6 {
        seq!['P']
    } else {
        seq!['M']
    }
}

/// The name of accumulator operation `kind` in a mnemonic.
pub open spec fn operation_name(kind: int) -> Seq<char> {
    if kind == 0 {
        seq!['A', 'D', 'D']
    } else if kind == 1 {
        seq!['A', 'D', 'C']
    } else if kind == 2 {
        seq!['S', 'U', 'B']
    } else if kind == 3 {
        seq!['S', 'B', 'B']
    } else if kind == 4 {
        seq!['A', 'N', 'A']
    } else if kind == 5 {
        seq!['X', 'R', 'A']
    } else if kind == 6 {
        seq!['O', 'R', 'A']
    } else {
        seq!['C', 'M', 'P']
    }
}

/// The mnemonic of every conditional jump, call and return names the flag condition
/// the processor tests for it (`CpuState::condition` of bits 5-3 of the opcode): J, C
/// or R, the condition letters, and ` a16` for the jumps and calls.
pub proof fn law_condition_mnemonics(op: u8)
    requires
        op >= 0xC0,
        op % 8 == 0 || op % 8 == 2 || op % 8 == 4,
    ensures
        op % 8 == 2 ==> table_row(op).0 == seq!['J'] + condition_letters(dst_code(op)) + seq![
            ' ',
            'a',
            '1',
            '6',
        ],
        op % 8 == 4 ==> table_row(op).0 == seq!['C'] + condition_letters(dst_code(op)) + seq![
            ' ',
            'a',
            '1',
            '6',
        ],
        op % 8 == 0 ==> table_row(op).0 == seq!['R'] + condition_letters(dst_code(op)),
{
    if op == 0xC0 {
        reveal_strlit("RNZ");
    } else if op == 0xC2 {
        reveal_strlit("JNZ a16");
    } else if op == 0xC4 {
        reveal_strlit("CNZ a16");
    } else if op == 0xC8 {
        reveal_strlit("RZ");
    } else if op == 0xCA {
        reveal_strlit("JZ a16");
    } else if op == 0xCC {
        reveal_strlit("CZ a16");
    } else if op == 0xD0 {
        reveal_strlit("RNC");
    } else if op == 0xD2 {
        reveal_strlit("JNC a16");
    } else if op == 0xD4 {
        reveal_strlit("CNC a16");
    } else if op == 0xD8 {
        reveal_strlit("RC");
    } else if op == 0xDA {
        reveal_strlit("JC a16");
    } else if op == 0xDC {
        reveal_strlit("CC a16");
    } else if op == 0xE0 {
        reveal_strlit("RPO");
    } else if op == 0xE2 {
        reveal_strlit("JPO a16");
    } else if op == 0xE4 {
        reveal_strlit("CPO a16");
    } else if op == 0xE8 {
        reveal_strlit("RPE");
    } else if op == 0xEA {
        reveal_strlit("JPE a16");
    } else if op == 0xEC {
        reveal_strlit("CPE a16");
    } else if op == 0xF0 {
        reveal_strlit("RP");
    } else if op == 0xF2 {
        reveal_strlit("JP a16");
    } else if op == 0xF4 {
        reveal_strlit("CP a16");
    } else if op == 0xF8 {
        reveal_strlit("RM");
    } else if op == 0xFA {
        reveal_strlit("JM a16");
    } else if op == 0xFC {
        reveal_strlit("CM a16");
    }
}

/// The mnemonic of every register move names its destination and source: `MOV d,r`.
pub proof fn law_move_mnemonics(op: u8)
    requires
        0x40 <= op < 0x80,
        op != 0x76,
    ensures
        table_row(op).0 == seq!['M', 'O', 'V', ' '] + register_letter(dst_code(op)) + seq![','] +
            register_letter(src_code(op)),
{
    if op == 0x40 {
        reveal_strlit("MOV B,B");
    } else if op == 0x41 {
        reveal_strlit("MOV B,C");
    } else if op == 0x42 {
        reveal_strlit("MOV B,D");
    } else if op == 0x43 {
        reveal_strlit("MOV B,E");
    } else if op == 0x44 {
        reveal_strlit("MOV B,H");
    } else if op == 0x45 {
        reveal_strlit("MOV B,L");
    } else if op == 0x46 {
        reveal_strlit("MOV B,M");
    } else if op == 0x47 {
        reveal_strlit("MOV B,A");
    } else if op == 0x48 {
        reveal_strlit("MOV C,B");
    } else if op == 0x49 {
        reveal_strlit("MOV C,C");
    } else if op == 0x4A {
        reveal_strlit("MOV C,D");
    } else if op == 0x4B {
        reveal_strlit("MOV C,E");
    } else if op == 0x4C {
        reveal_strlit("MOV C,H");
    } else if op == 0x4D {
        reveal_strlit("MOV C,L");
    } else if op == 0x4E {
        reveal_strlit("MOV C,M");
    } else if op == 0x4F {
        reveal_strlit("MOV C,A");
    } else if op == 0x50 {
        reveal_strlit("MOV D,B");
    } else if op == 0x51 {
        reveal_strlit("MOV D,C");
    } else if op == 0x52 {
        reveal_strlit("MOV D,D");
    } else if op == 0x53 {
        reveal_strlit("MOV D,E");
    } else if op == 0x54 {
        reveal_strlit("MOV D,H");
    } else if op == 0x55 {
        reveal_strlit("MOV D,L");
    } else if op == 0x56 {
        reveal_strlit("MOV D,M");
    } else if op == 0x57 {
        reveal_strlit("MOV D,A");
    } else if op == 0x58 {
        reveal_strlit("MOV E,B");
    } else if op == 0x59 {
        reveal_strlit("MOV E,C");
    } else if op == 0x5A {
        reveal_strlit("MOV E,D");
    } else if op == 0x5B {
        reveal_strlit("MOV E,E");
    } else if op == 0x5C {
        reveal_strlit("MOV E,H");
    } else if op == 0x5D {
        reveal_strlit("MOV E,L");
    } else if op == 0x5E {
        reveal_strlit("MOV E,M");
    } else if op == 0x5F {
        reveal_strlit("MOV E,A");
    } else if op == 0x60 {
        reveal_strlit("MOV H,B");
    } else if op == 0x61 {
        reveal_strlit("MOV H,C");
    } else if op == 0x62 {
        reveal_strlit("MOV H,D");
    } else if op == 0x63 {
        reveal_strlit("MOV H,E");
    } else if op == 0x64 {
        reveal_strlit("MOV H,H");
    } else if op == 0x65 {
        reveal_strlit("MOV H,L");
    } else if op == 0x66 {
        reveal_strlit("MOV H,M");
    } else if op == 0x67 {
        reveal_strlit("MOV H,A");
    } else if op == 0x68 {
        reveal_strlit("MOV L,B");
    } else if op == 0x69 {
        reveal_strlit("MOV L,C");
    } else if op == 0x6A {
        reveal_strlit("MOV L,D");
    } else if op == 0x6B {
        reveal_strlit("MOV L,E");
    } else if op == 0x6C {
        reveal_strlit("MOV L,H");
    } else if op == 0x6D {
        reveal_strlit("MOV L,L");
    } else if op == 0x6E {
        reveal_strlit("MOV L,M");
    } else if op == 0x6F {
        reveal_strlit("MOV L,A");
    } else if op == 0x70 {
        reveal_strlit("MOV M,B");
    } else if op == 0x71 {
        reveal_strlit("MOV M,C");
    } else if op == 0x72 {
        reveal_strlit("MOV M,D");
    } else if op == 0x73 {
        reveal_strlit("MOV M,E");
    } else if op == 0x74 {
        reveal_strlit("MOV M,H");
    } else if op == 0x75 {
        reveal_strlit("MOV M,L");
    } else if op == 0x77 {
        reveal_strlit("MOV M,A");
    } else if op == 0x78 {
        reveal_strlit("MOV A,B");
    } else if op == 0x79 {
        reveal_strlit("MOV A,C");
    } else if op == 0x7A {
        reveal_strlit("MOV A,D");
    } else if op == 0x7B {
        reveal_strlit("MOV A,E");
    } else if op == 0x7C {
        reveal_strlit("MOV A,H");
    } else if op == 0x7D {
        reveal_strlit("MOV A,L");
    } else if op == 0x7E {
        reveal_strlit("MOV A,M");
    } else if op == 0x7F {
        reveal_strlit("MOV A,A");
    }
}

/// The mnemonic of every accumulator operation with a register names the operation and
/// the register: ADD, ADC, SUB, SBB, ANA, XRA, ORA or CMP, a space, the register.
pub proof fn law_accumulator_mnemonics(op: u8)
    requires
        0x80 <= op < 0xC0,
    ensures
        table_row(op).0 == operation_name(dst_code(op)) + seq![' '] + register_letter(
            src_code(op),
        ),
{
    if op == 0x80 {
        reveal_strlit("ADD B");
    } else if op == 0x81 {
        reveal_strlit("ADD C");
    } else if op == 0x82 {
        reveal_strlit("ADD D");
    } else if op == 0x83 {
        reveal_strlit("ADD E");
    } else if op == 0x84 {
        reveal_strlit("ADD H");
    } else if op == 0x85 {
        reveal_strlit("ADD L");
    } else if op == 0x86 {
        reveal_strlit("ADD M");
    } else if op == 0x87 {
        reveal_strlit("ADD A");
    } else if op == 0x88 {
        reveal_strlit("ADC B");
    } else if op == 0x89 {
        reveal_strlit("ADC C");
    } else if op == 0x8A {
        reveal_strlit("ADC D");
    } else if op == 0x8B {
        reveal_strlit("ADC E");
    } else if op == 0x8C {
        reveal_strlit("ADC H");
    } else if op == 0x8D {
        reveal_strlit("ADC L");
    } else if op == 0x8E {
        reveal_strlit("ADC M");
    } else if op == 0x8F {
        reveal_strlit("ADC A");
    } else if op == 0x90 {
        reveal_strlit("SUB B");
    } else if op == 0x91 {
        reveal_strlit("SUB C");
    } else if op == 0x92 {
        reveal_strlit("SUB D");
    } else if op == 0x93 {
        reveal_strlit("SUB E");
    } else if op == 0x94 {
        reveal_strlit("SUB H");
    } else if op == 0x95 {
        reveal_strlit("SUB L");
    } else if op == 0x96 {
        reveal_strlit("SUB M");
    } else if op == 0x97 {
        reveal_strlit("SUB A");
    } else if op == 0x98 {
        reveal_strlit("SBB B");
    } else if op == 0x99 {
        reveal_strlit("SBB C");
    } else if op == 0x9A {
        reveal_strlit("SBB D");
    } else if op == 0x9B {
        reveal_strlit("SBB E");
    } else if op == 0x9C {
        reveal_strlit("SBB H");
    } else if op == 0x9D {
        reveal_strlit("SBB L");
    } else if op == 0x9E {
        reveal_strlit("SBB M");
    } else if op == 0x9F {
        reveal_strlit("SBB A");
    } else if op == 0xA0 {
        reveal_strlit("ANA B");
    } else if op == 0xA1 {
        reveal_strlit("ANA C");
    } else if op == 0xA2 {
        reveal_strlit("ANA D");
    } else if op == 0xA3 {
        reveal_strlit("ANA E");
    } else if op == 0xA4 {
        reveal_strlit("ANA H");
    } else if op == 0xA5 {
        reveal_strlit("ANA L");
    } else if op == 0xA6 {
        reveal_strlit("ANA M");
    } else if op == 0xA7 {
        reveal_strlit("ANA A");
    } else if op == 0xA8 {
        reveal_strlit("XRA B");
    } else if op == 0xA9 {
        reveal_strlit("XRA C");
    } else if op == 0xAA {
        reveal_strlit("XRA D");
    } else if op == 0xAB {
        reveal_strlit("XRA E");
    } else if op == 0xAC {
        reveal_strlit("XRA H");
    } else if op == 0xAD {
        reveal_strlit("XRA L");
    } else if op == 0xAE {
        reveal_strlit("XRA M");
    } else if op == 0xAF {
        reveal_strlit("XRA A");
    } else if op == 0xB0 {
        reveal_strlit("ORA B");
    } else if op == 0xB1 {
        reveal_strlit("ORA C");
    } else if op == 0xB2 {
        reveal_strlit("ORA D");
    } else if op == 0xB3 {
        reveal_strlit("ORA E");
    } else if op == 0xB4 {
        reveal_strlit("ORA H");
    } else if op == 0xB5 {
        reveal_strlit("ORA L");
    } else if op == 0xB6 {
        reveal_strlit("ORA M");
    } else if op == 0xB7 {
        reveal_strlit("ORA A");
    } else if op == 0xB8 {
        reveal_strlit("CMP B");
    } else if op == 0xB9 {
        reveal_strlit("CMP C");
    } else if op == 0xBA {
        reveal_strlit("CMP D");
    } else if op == 0xBB {
        reveal_strlit("CMP E");
    } else if op == 0xBC {
        reveal_strlit("CMP H");
    } else if op == 0xBD {
        reveal_strlit("CMP L");
    } else if op == 0xBE {
        reveal_strlit("CMP M");
    } else if op == 0xBF {
        reveal_strlit("CMP A");
    }
}

/// The mnemonics of INR, DCR and MVI name the register they act on.
pub proof fn law_register_op_mnemonics(op: u8)
    requires
        op < 0x40,
        op % 8 == 4 || op % 8 == 5 || op % 8 == 6,
    ensures
        op % 8 == 4 ==> table_row(op).0 == seq!['I', 'N', 'R', ' '] + register_letter(
            dst_code(op),
        ),
        op % 8 == 5 ==> table_row(op).0 == seq!['D', 'C', 'R', ' '] + register_letter(
            dst_code(op),
        ),
        op % 8 == 6 ==> table_row(op).0 == seq!['M', 'V', 'I', ' '] + register_letter(
            dst_code(op),
        ) + seq![',', 'd', '8'],
{
    if op == 0x04 {
        reveal_strlit("INR B");
    } else if op == 0x05 {
        reveal_strlit("DCR B");
    } else if op == 0x06 {
        reveal_strlit("MVI B,d8");
    } else if op == 0x0C {
        reveal_strlit("INR C");
    } else if op == 0x0D {
        reveal_strlit("DCR C");
    } else if op == 0x0E {
        reveal_strlit("MVI C,d8");
    } else if op == 0x14 {
        reveal_strlit("INR D");
    } else if op == 0x15 {
        reveal_strlit("DCR D");
    } else if op == 0x16 {
        reveal_strlit("MVI D,d8");
    } else if op == 0x1C {
        reveal_strlit("INR E");
    } else if op == 0x1D {
        reveal_strlit("DCR E");
    } else if op == 0x1E {
        reveal_strlit("MVI E,d8");
    } else if op == 0x24 {
        reveal_strlit("INR H");
    } else if op == 0x25 {
        reveal_strlit("DCR H");
    } else if op == 0x26 {
        reveal_strlit("MVI H,d8");
    } else if op == 0x2C {
        reveal_strlit("INR L");
    } else if op == 0x2D {
        reveal_strlit("DCR L");
    } else if op == 0x2E {
        reveal_strlit("MVI L,d8");
    } else if op == 0x34 {
        reveal_strlit("INR M");
    } else if op == 0x35 {
        reveal_strlit("DCR M");
    } else if op == 0x36 {
        reveal_strlit("MVI M,d8");
    } else if op == 0x3C {
        reveal_strlit("INR A");
    } else if op == 0x3D {
        reveal_strlit("DCR A");
    } else if op == 0x3E {
        reveal_strlit("MVI A,d8");
    }
}


/// ADC r adds v and the carry: A becomes A + v + CY modulo 256 and the carry is set
/// exactly when that sum passes 255. SBB r subtracts v and the carry: A becomes
/// A - v - CY modulo 256 and the carry is set exactly when v + CY is greater than A.
pub proof fn law_carry_arith_register(s: CpuState, r: int)
    requires
        0 <= r < 8,
    ensures
        ({
            let v = s.reg(r) as int;
            let cy: int = if s.carry { 1 } else { 0 };
            let adc = step(s, (0x88 + r) as u8);
            let sbb = step(s, (0x98 + r) as u8);
            &&& adc.a == (s.a + v + cy) % 256 && adc.carry == (s.a + v + cy > 255)
            &&& flags_of_a(adc) && keeps_all_but_a(adc, s)
            &&& sbb.a == (s.a - v - cy + 512) % 256 && sbb.carry == (s.a < v + cy)
            &&& flags_of_a(sbb) && keeps_all_but_a(sbb, s)
        }),
{
    lemma_alu_op(s, 1, r);
    lemma_alu_op(s, 3, r);
}

/// The INR, DCR and MVI opcodes for register `d` decode to it.
proof fn lemma_register_op_decode(d: int, low: int)
    requires
        0 <= d < 8,
        4 <= low <= 6,
    ensures
        dst_code((8 * d + low) as u8) == d,
        low == 4 ==> is_inr((8 * d + low) as u8),
        low == 5 ==> is_dcr((8 * d + low) as u8),
        low == 6 ==> is_mvi((8 * d + low) as u8),
{
    assert((8 * d + low) / 8 == d && (8 * d + low) % 8 == low) by (nonlinear_arith)
        requires
            0 <= d < 8,
            4 <= low <= 6,
    ;
}

/// INR d and DCR d add and subtract one modulo 256 to register `d` (the memory byte at
/// HL for 6, which must then be in memory), set zero, sign and parity from the result,
/// and leave the carry; MVI d loads register `d` with the byte after the opcode.
pub proof fn law_register_ops(s: CpuState, d: int)
    requires
        0 <= d < 8,
        s.reg_ok(d),
    ensures
        ({
            let v = s.reg(d) as int;
            let inr = step(s, (8 * d + 4) as u8);
            let dcr = step(s, (8 * d + 5) as u8);
            let mvi = step(s, (8 * d + 6) as u8);
            &&& inr.reg(d) == (v + 1) % 256 && inr.carry == s.carry && inr.zero == (v == 255)
            &&& inr.sign == (inr.reg(d) >= 128) && inr.parity == even_parity(inr.reg(d))
            &&& dcr.reg(d) == (v + 255) % 256 && dcr.carry == s.carry && dcr.zero == (v == 1)
            &&& mvi.reg(d) == s.mem[s.pc + 1] && mvi.pc == (s.pc + 2) as usize
            &&& mvi.flags_byte() == s.flags_byte()
        }),
{
    lemma_register_op_decode(d, 4);
    lemma_register_op_decode(d, 5);
    lemma_register_op_decode(d, 6);
    lemma_step_inr_dcr(s, (8 * d + 4) as u8);
    lemma_step_inr_dcr(s, (8 * d + 5) as u8);
    lemma_step_mvi(s, (8 * d + 6) as u8);
}

/// LXI loads a register pair, or SP, with the little-endian word after the opcode: the
/// high register gets the second byte and the low register the first.
pub proof fn law_load_pair_immediate(s: CpuState)
    ensures
        ({
            let lo = s.mem[s.pc + 1];
            let hi = s.mem[s.pc + 2];
            &&& step(s, 0x01).b == hi && step(s, 0x01).c == lo
            &&& step(s, 0x11).d == hi && step(s, 0x11).e == lo
            &&& step(s, 0x21).h == hi && step(s, 0x21).l == lo
            &&& step(s, 0x31).sp == word(hi, lo)
            &&& step(s, 0x01).pc == (s.pc + 3) as usize
        }),
{
    lemma_step_lxi(s, 0x01);
    lemma_step_lxi(s, 0x11);
    lemma_step_lxi(s, 0x21);
    lemma_step_lxi(s, 0x31);
}

/// With `addr` the little-endian word after the opcode: STA stores A there and LDA loads
/// A from there; SHLD stores H there and L after it; LHLD loads L from there and H from
/// after it.
pub proof fn law_direct_memory(s: CpuState)
    ensures
        ({
            let addr = word(s.mem[s.pc + 2], s.mem[s.pc + 1]);
            &&& step(s, 0x32).mem == s.mem.update(addr, s.a) && step(s, 0x32).a == s.a
            &&& step(s, 0x3A).a == s.mem[addr] && step(s, 0x3A).mem == s.mem
            &&& step(s, 0x22).mem == s.mem.update(addr, s.h).update(addr + 1, s.l)
            &&& step(s, 0x2A).l == s.mem[addr] && step(s, 0x2A).h == s.mem[addr + 1]
            &&& step(s, 0x3A).pc == (s.pc + 3) as usize
        }),
{
    lemma_step_direct(s, 0x32);
    lemma_step_direct(s, 0x3A);
    lemma_step_direct(s, 0x22);
    lemma_step_direct(s, 0x2A);
}

/// STAX stores A at the address in BC or DE; LDAX loads A from it.
pub proof fn law_indirect_memory(s: CpuState)
    ensures
        step(s, 0x02).mem == s.mem.update(word(s.b, s.c), s.a),
        step(s, 0x12).mem == s.mem.update(word(s.d, s.e), s.a),
        step(s, 0x0A).a == s.mem[word(s.b, s.c)],
        step(s, 0x1A).a == s.mem[word(s.d, s.e)],
{
    lemma_step_stax_ldax(s, 0x02);
    lemma_step_stax_ldax(s, 0x12);
    lemma_step_stax_ldax(s, 0x0A);
    lemma_step_stax_ldax(s, 0x1A);
}

/// The rotates: RLC moves bit 7 into bit 0 and the carry; RRC moves bit 0 into bit 7 and
/// the carry; RAL shifts left through the carry; RAR shifts right through the carry.
pub proof fn law_rotates(s: CpuState)
    ensures
        ({
            let a = s.a as int;
            let cy: int = if s.carry { 1 } else { 0 };
            &&& step(s, 0x07).a == (2 * a) % 256 + a / 128 && step(s, 0x07).carry == (a >= 128)
            &&& step(s, 0x0F).a == a / 2 + 128 * (a % 2) && step(s, 0x0F).carry == (a % 2 == 1)
            &&& step(s, 0x17).a == (2 * a) % 256 + cy && step(s, 0x17).carry == (a >= 128)
            &&& step(s, 0x1F).a == a / 2 + 128 * cy && step(s, 0x1F).carry == (a % 2 == 1)
        }),
{
    lemma_step_acc(s, 0x07);
    lemma_step_acc(s, 0x0F);
    lemma_step_acc(s, 0x17);
    lemma_step_acc(s, 0x1F);
}

/// CMA complements A (255 - A); STC sets the carry; CMC complements it; DAA sets the
/// auxiliary carry exactly when the low digit is above 9 or AC was set, and the carry
/// exactly when A is above 0x99 or CY was set, and leaves a decimal A with both carries
/// clear as it was.
pub proof fn law_accumulator_adjust(s: CpuState)
    ensures
        step(s, 0x2F).a == 255 - s.a,
        step(s, 0x37).carry && step(s, 0x37).a == s.a,
        step(s, 0x3F).carry == !s.carry && step(s, 0x3F).a == s.a,
        step(s, 0x27).auxc == (s.a % 16 > 9 || s.auxc),
        step(s, 0x27).carry == (s.a > 0x99 || s.carry),
        s.a % 16 <= 9 && s.a <= 0x99 && !s.auxc && !s.carry ==> step(s, 0x27).a == s.a,
{
    let a = s.a;
    assert(!a == 255 - a) by (bit_vector);
    lemma_step_acc(s, 0x2F);
    lemma_step_acc(s, 0x37);
    lemma_step_acc(s, 0x3F);
    lemma_step_acc(s, 0x27);
}

/// INX and DCX add and subtract one modulo 65536 to a register pair (high register
/// first).
pub proof fn law_pair_increments(s: CpuState)
    ensures
        word(step(s, 0x03).b, step(s, 0x03).c) == (word(s.b, s.c) + 1) % 65536,
        word(step(s, 0x13).d, step(s, 0x13).e) == (word(s.d, s.e) + 1) % 65536,
        word(step(s, 0x23).h, step(s, 0x23).l) == (word(s.h, s.l) + 1) % 65536,
        word(step(s, 0x0B).b, step(s, 0x0B).c) == (word(s.b, s.c) + 65535) % 65536,
        word(step(s, 0x2B).h, step(s, 0x2B).l) == (word(s.h, s.l) + 65535) % 65536,
{
    assert(word(step(s, 0x03).b, step(s, 0x03).c) == (word(s.b, s.c) + 1) % 65536) by {
        lemma_step_inx_dcx(s, 0x03);
        law_pair_read_after_write(s, (s.bc() + 1) % 65536);
    }
    assert(word(step(s, 0x13).d, step(s, 0x13).e) == (word(s.d, s.e) + 1) % 65536) by {
        lemma_step_inx_dcx(s, 0x13);
        law_pair_read_after_write(s, (s.de() + 1) % 65536);
    }
    assert(word(step(s, 0x23).h, step(s, 0x23).l) == (word(s.h, s.l) + 1) % 65536) by {
        lemma_step_inx_dcx(s, 0x23);
        law_pair_read_after_write(s, (s.hl() + 1) % 65536);
    }
    assert(word(step(s, 0x0B).b, step(s, 0x0B).c) == (word(s.b, s.c) + 65535) % 65536) by {
        lemma_step_inx_dcx(s, 0x0B);
        law_pair_read_after_write(s, (s.bc() + 65535) % 65536);
    }
    assert(word(step(s, 0x2B).h, step(s, 0x2B).l) == (word(s.h, s.l) + 65535) % 65536) by {
        lemma_step_inx_dcx(s, 0x2B);
        law_pair_read_after_write(s, (s.hl() + 65535) % 65536);
    }
}

/// JMP goes to the word after the opcode; CALL goes there and pushes the address after
/// the CALL, high byte at SP - 1 and low byte at SP - 2; RET takes the program counter
/// from the top of the stack, low byte first, and raises SP by two.
pub proof fn law_jump_call_return(s: CpuState)
    requires
        s.sp >= 2,
        s.sp <= s.mem.len(),
    ensures
        ({
            let target = word(s.mem[s.pc + 2], s.mem[s.pc + 1]);
            let back = (s.pc + 3) % 65536;
            let call = step(s, 0xCD);
            let ret = step(s, 0xC9);
            &&& step(s, 0xC3).pc == target as usize
            &&& call.pc == target as usize && call.sp == s.sp - 2
            &&& call.mem[s.sp - 1] == back / 256 && call.mem[s.sp - 2] == back % 256
            &&& ret.pc == word(s.mem[s.sp + 1], s.mem[s.sp as int]) as usize
            &&& ret.sp == (s.sp + 2) as usize
        }),
{
    lemma_step_jump(s, 0xC3);
    lemma_step_call(s, 0xCD);
    lemma_step_ret(s, 0xC9);
}

/// The conditional calls and returns act as CALL and RET when their condition holds and
/// only move past themselves otherwise: CZ and RZ on zero set, CNZ and RNZ on zero
/// clear, CC and RC on carry set.
pub proof fn law_conditional_calls(s: CpuState)
    ensures
        step(s, 0xCC) == (if s.zero { step(s, 0xCD) } else { CpuState { pc: (s.pc + 3) as usize, ..s } }),
        step(s, 0xC4) == (if !s.zero { step(s, 0xCD) } else { CpuState { pc: (s.pc + 3) as usize, ..s } }),
        step(s, 0xDC) == (if s.carry { step(s, 0xCD) } else { CpuState { pc: (s.pc + 3) as usize, ..s } }),
        step(s, 0xC8) == (if s.zero { step(s, 0xC9) } else { CpuState { pc: (s.pc + 1) as usize, ..s } }),
        step(s, 0xC0) == (if !s.zero { step(s, 0xC9) } else { CpuState { pc: (s.pc + 1) as usize, ..s } }),
        step(s, 0xD8) == (if s.carry { step(s, 0xC9) } else { CpuState { pc: (s.pc + 1) as usize, ..s } }),
{
    lemma_step_call(s, 0xCD);
    lemma_step_call(s, 0xCC);
    lemma_step_call(s, 0xC4);
    lemma_step_call(s, 0xDC);
    lemma_step_ret(s, 0xC9);
    lemma_step_ret(s, 0xC8);
    lemma_step_ret(s, 0xC0);
    lemma_step_ret(s, 0xD8);
}

/// RST n goes to address 8n and pushes the address of the RST itself (modulo 0x10000).
pub proof fn law_restart(s: CpuState, n: int)
    requires
        0 <= n < 8,
        s.sp >= 2,
        s.sp <= s.mem.len(),
    ensures
        ({
            let t = step(s, (0xC7 + 8 * n) as u8);
            let back = s.pc as int % 65536;
            &&& t.pc == 8 * n
            &&& t.sp == s.sp - 2
            &&& t.mem[s.sp - 1] == back / 256 && t.mem[s.sp - 2] == back % 256
        }),
{
    let op = (0xC7 + 8 * n) as u8;
    assert((0xC7 + 8 * n) / 8 == 24 + n && (0xC7 + 8 * n) % 8 == 7) by (nonlinear_arith)
        requires
            0 <= n < 8,
    ;
    lemma_step_rst(s, op);
}

/// PUSH stores a pair high byte at SP - 1 and low byte at SP - 2 (for PSW, A and the
/// flag byte) and lowers SP by two; POP loads the low register from SP and the high
/// register from SP + 1 and raises SP by two.
pub proof fn law_push_pop_words(s: CpuState)
    requires
        s.sp >= 2,
        s.sp <= s.mem.len(),
    ensures
        step(s, 0xC5).mem[s.sp - 1] == s.b && step(s, 0xC5).mem[s.sp - 2] == s.c,
        step(s, 0xE5).mem[s.sp - 1] == s.h && step(s, 0xE5).mem[s.sp - 2] == s.l,
        step(s, 0xF5).mem[s.sp - 1] == s.a && step(s, 0xF5).mem[s.sp - 2] == s.flags_byte(),
        step(s, 0xC5).sp == s.sp - 2,
        step(s, 0xD1).e == s.mem[s.sp as int] && step(s, 0xD1).d == s.mem[s.sp + 1],
        step(s, 0xF1).a == s.mem[s.sp + 1],
        step(s, 0xD1).sp == (s.sp + 2) as usize,
{
    lemma_step_push(s, 0xC5);
    lemma_step_push(s, 0xE5);
    lemma_step_push(s, 0xF5);
    lemma_step_pop(s, 0xD1);
    lemma_step_pop(s, 0xF1);
}

/// XCHG exchanges DE and HL; SPHL sets SP to HL; PCHL sets the program counter to HL;
/// XTHL exchanges L with the byte at SP and H with the byte at SP + 1.
pub proof fn law_hl_transfers(s: CpuState)
    ensures
        step(s, 0xEB).d == s.h && step(s, 0xEB).e == s.l && step(s, 0xEB).h == s.d && step(
            s,
            0xEB,
        ).l == s.e,
        step(s, 0xF9).sp == word(s.h, s.l),
        step(s, 0xE9).pc == word(s.h, s.l),
        step(s, 0xE3).l == s.mem[s.sp as int] && step(s, 0xE3).h == s.mem[s.sp + 1],
{
    lemma_step_hl_ops(s, 0xEB);
    lemma_step_hl_ops(s, 0xF9);
    lemma_step_hl_ops(s, 0xE9);
    lemma_step_hl_ops(s, 0xE3);
}

/// HLT halts; EI and DI set and clear the interrupt enable; NOP changes nothing but the
/// program counter.
pub proof fn law_control_ops(s: CpuState)
    ensures
        step(s, 0x76).halt && step(s, 0x76).a == s.a,
        step(s, 0xFB).interrupt_enable && !step(s, 0xF3).interrupt_enable,
        step(s, 0x00) == (CpuState { pc: (s.pc + 1) as usize, ..s }),
{
    lemma_step_nop(s, 0x76);
    lemma_step_nop(s, 0xFB);
    lemma_step_nop(s, 0xF3);
    lemma_step_nop(s, 0x00);
}


/// On the test bench, INR d and DCR d add and subtract one modulo 256 to register `d`
/// (code 6 the memory byte at HL), set zero exactly when the result is 0, and leave the
/// carry.
pub proof fn law_bench_increment(s: BenchState, d: int)
    requires
        s.wf(),
        0 <= d < 8,
    ensures
        ({
            let v = s.reg(d) as int;
            let inr = bench_step(s, (8 * d + 4) as u8);
            let dcr = bench_step(s, (8 * d + 5) as u8);
            &&& inr.reg(d) == (v + 1) % 256 && inr.zero == (v == 255) && inr.carry == s.carry
            &&& dcr.reg(d) == (v + 255) % 256 && dcr.zero == (v == 1) && dcr.carry == s.carry
        }),
{
    lemma_register_op_decode(d, 4);
    lemma_register_op_decode(d, 5);
    lemma_bench_inr_dcr(s, (8 * d + 4) as u8);
    lemma_bench_inr_dcr(s, (8 * d + 5) as u8);
}

/// On the test bench, RLC, RRC, RAL and RAR rotate A as on the 8080, CMA complements A
/// and CMC complements the carry.
pub proof fn law_bench_rotates(s: BenchState)
    requires
        s.wf(),
    ensures
        ({
            let a = s.reg(7) as int;
            let cy: int = if s.carry { 1 } else { 0 };
            &&& bench_step(s, 0x07).reg(7) == (2 * a) % 256 + a / 128 && bench_step(s, 0x07).carry
                == (a >= 128)
            &&& bench_step(s, 0x0F).reg(7) == a / 2 + 128 * (a % 2) && bench_step(s, 0x0F).carry
                == (a % 2 == 1)
            &&& bench_step(s, 0x17).reg(7) == (2 * a) % 256 + cy
            &&& bench_step(s, 0x1F).reg(7) == a / 2 + 128 * cy
            &&& bench_step(s, 0x2F).reg(7) == 255 - a
            &&& bench_step(s, 0x3F).carry == !s.carry
        }),
{
    let a = s.reg(7);
    assert(!a == 255 - a) by (bit_vector);
    lemma_bench_rotate(s, 0x07);
    lemma_bench_rotate(s, 0x0F);
    lemma_bench_rotate(s, 0x17);
    lemma_bench_rotate(s, 0x1F);
    lemma_bench_rotate(s, 0x2F);
    lemma_bench_rotate(s, 0x3F);
}

/// On the test bench, STA stores A at the little-endian word after the opcode and LDA
/// loads A from there; STAX B stores A at the BC pair and LDAX D loads A from the DE
/// pair.
pub proof fn law_bench_memory(s: BenchState)
    requires
        s.wf(),
    ensures
        ({
            let addr = word(s.mem[s.pc + 2], s.mem[s.pc + 1]);
            &&& bench_step(s, 0x32).mem == s.mem.update(addr, s.reg(7))
            &&& bench_step(s, 0x3A).reg(7) == s.mem[addr]
            &&& bench_step(s, 0x02).mem == s.mem.update(s.bc(), s.reg(7))
            &&& bench_step(s, 0x1A).reg(7) == s.mem[s.de()]
        }),
{
    lemma_bench_direct(s, 0x32);
    lemma_bench_direct(s, 0x3A);
    lemma_bench_stax_ldax(s, 0x02);
    lemma_bench_stax_ldax(s, 0x1A);
}

/// On the test bench, MOV d,r with neither code 5 nor 6 copies register `r` into
/// register `d`; with source code 5 it loads register `d` from the memory byte at HL,
/// and with destination code 5 (source not 5) it stores register `r` there.
pub proof fn law_bench_moves(s: BenchState, d: int, r: int)
    requires
        s.wf(),
        0 <= d < 8,
        0 <= r < 8,
        !(d == 6 && r == 6),
    ensures
        ({
            let t = bench_step(s, (0x40 + 8 * d + r) as u8);
            &&& (r != 5 && d != 5 && d != 6) ==> t.reg(d) == s.reg(r)
            &&& (r == 5 && d != 6 && d != 5) ==> t.reg(d) == s.mem[s.hl()]
            &&& (d == 5 && r != 5) ==> t.mem == s.mem.update(s.hl(), s.reg(r))
        }),
{
    lemma_mov_decode(d, r);
    lemma_bench_mov(s, (0x40 + 8 * d + r) as u8);
}

/// On the test bench, PUSH stores the pair's first slot at SP - 1 and its second at
/// SP - 2 (for PSW, A and the flag byte) and lowers SP by two; POP reverses it.
pub proof fn law_bench_push_pop_words(s: BenchState)
    requires
        s.wf(),
        s.sp >= 2,
        s.sp <= 65536,
    ensures
        bench_step(s, 0xD5).mem[s.sp - 1] == s.regs[2] && bench_step(s, 0xD5).mem[s.sp - 2]
            == s.regs[3],
        bench_step(s, 0xF5).mem[s.sp - 1] == s.regs[6] && bench_step(s, 0xF5).mem[s.sp - 2]
            == s.flags_byte(),
        bench_step(s, 0xD5).sp == s.sp - 2,
        bench_step(s, 0xC1).regs[0] == s.mem[s.sp + 1] && bench_step(s, 0xC1).regs[1] == s.mem[
            s.sp as int],
        bench_step(s, 0xC1).sp == (s.sp + 2) as usize,
{
    lemma_bench_push(s, 0xD5);
    lemma_bench_push(s, 0xF5);
    lemma_bench_pop(s, 0xC1);
}


/// The table's affected-flags mask and cycle count agree with what the accumulator
/// operations do: every register and immediate operation can change S, Z, AC, P and C
/// (mask 0xD5); a register operand takes 4 cycles, the memory operand or an immediate
/// byte 7.
pub proof fn law_accumulator_timing(op: u8)
    requires
        0x80 <= op < 0xC0 || (op >= 0xC0 && op % 8 == 6),
    ensures
        table_row(op).2 == 0xD5,
        table_row(op).1 == (if op < 0xC0 && src_code(op) != 6 {
            4u8
        } else {
            7u8
        }),
{
    if op == 0x80 {
    } else if op == 0x81 {
    } else if op == 0x82 {
    } else if op == 0x83 {
    } else if op == 0x84 {
    } else if op == 0x85 {
    } else if op == 0x86 {
    } else if op == 0x87 {
    } else if op == 0x88 {
    } else if op == 0x89 {
    } else if op == 0x8A {
    } else if op == 0x8B {
    } else if op == 0x8C {
    } else if op == 0x8D {
    } else if op == 0x8E {
    } else if op == 0x8F {
    } else if op == 0x90 {
    } else if op == 0x91 {
    } else if op == 0x92 {
    } else if op == 0x93 {
    } else if op == 0x94 {
    } else if op == 0x95 {
    } else if op == 0x96 {
    } else if op == 0x97 {
    } else if op == 0x98 {
    } else if op == 0x99 {
    } else if op == 0x9A {
    } else if op == 0x9B {
    } else if op == 0x9C {
    } else if op == 0x9D {
    } else if op == 0x9E {
    } else if op == 0x9F {
    } else if op == 0xA0 {
    } else if op == 0xA1 {
    } else if op == 0xA2 {
    } else if op == 0xA3 {
    } else if op == 0xA4 {
    } else if op == 0xA5 {
    } else if op == 0xA6 {
    } else if op == 0xA7 {
    } else if op == 0xA8 {
    } else if op == 0xA9 {
    } else if op == 0xAA {
    } else if op == 0xAB {
    } else if op == 0xAC {
    } else if op == 0xAD {
    } else if op == 0xAE {
    } else if op == 0xAF {
    } else if op == 0xB0 {
    } else if op == 0xB1 {
    } else if op == 0xB2 {
    } else if op == 0xB3 {
    } else if op == 0xB4 {
    } else if op == 0xB5 {
    } else if op == 0xB6 {
    } else if op == 0xB7 {
    } else if op == 0xB8 {
    } else if op == 0xB9 {
    } else if op == 0xBA {
    } else if op == 0xBB {
    } else if op == 0xBC {
    } else if op == 0xBD {
    } else if op == 0xBE {
    } else if op == 0xBF {
    } else if op == 0xC6 {
    } else if op == 0xCE {
    } else if op == 0xD6 {
    } else if op == 0xDE {
    } else if op == 0xE6 {
    } else if op == 0xEE {
    } else if op == 0xF6 {
    } else if op == 0xFE {
    }
}

/// INR and DCR can change S, Z, AC and P but never the carry (mask 0xD4), and MVI no flag;
/// with the memory operand INR and DCR take 10 cycles and MVI 10, with a register 5 and 7.
pub proof fn law_register_op_timing(op: u8)
    requires
        op < 0x40,
        op % 8 == 4 || op % 8 == 5 || op % 8 == 6,
    ensures
        op % 8 != 6 ==> table_row(op).2 == 0xD4,
        op % 8 == 6 ==> table_row(op).2 == 0,
        op % 8 != 6 ==> table_row(op).1 == (if dst_code(op) == 6 {
            10u8
        } else {
            5u8
        }),
        op % 8 == 6 ==> table_row(op).1 == (if dst_code(op) == 6 {
            10u8
        } else {
            7u8
        }),
{
    if op == 0x04 {
    } else if op == 0x05 {
    } else if op == 0x06 {
    } else if op == 0x0C {
    } else if op == 0x0D {
    } else if op == 0x0E {
    } else if op == 0x14 {
    } else if op == 0x15 {
    } else if op == 0x16 {
    } else if op == 0x1C {
    } else if op == 0x1D {
    } else if op == 0x1E {
    } else if op == 0x24 {
    } else if op == 0x25 {
    } else if op == 0x26 {
    } else if op == 0x2C {
    } else if op == 0x2D {
    } else if op == 0x2E {
    } else if op == 0x34 {
    } else if op == 0x35 {
    } else if op == 0x36 {
    } else if op == 0x3C {
    } else if op == 0x3D {
    } else if op == 0x3E {
    }
}

/// A register move changes no flag and takes 5 cycles, 7 when either side is the memory
/// operand.
pub proof fn law_move_timing(op: u8)
    requires
        0x40 <= op < 0x80,
        op != 0x76,
    ensures
        table_row(op).2 == 0,
        table_row(op).1 == (if dst_code(op) == 6 || src_code(op) == 6 {
            7u8
        } else {
            5u8
        }),
{
    if op == 0x40 {
    } else if op == 0x41 {
    } else if op == 0x42 {
    } else if op == 0x43 {
    } else if op == 0x44 {
    } else if op == 0x45 {
    } else if op == 0x46 {
    } else if op == 0x47 {
    } else if op == 0x48 {
    } else if op == 0x49 {
    } else if op == 0x4A {
    } else if op == 0x4B {
    } else if op == 0x4C {
    } else if op == 0x4D {
    } else if op == 0x4E {
    } else if op == 0x4F {
    } else if op == 0x50 {
    } else if op == 0x51 {
    } else if op == 0x52 {
    } else if op == 0x53 {
    } else if op == 0x54 {
    } else if op == 0x55 {
    } else if op == 0x56 {
    } else if op == 0x57 {
    } else if op == 0x58 {
    } else if op == 0x59 {
    } else if op == 0x5A {
    } else if op == 0x5B {
    } else if op == 0x5C {
    } else if op == 0x5D {
    } else if op == 0x5E {
    } else if op == 0x5F {
    } else if op == 0x60 {
    } else if op == 0x61 {
    } else if op == 0x62 {
    } else if op == 0x63 {
    } else if op == 0x64 {
    } else if op == 0x65 {
    } else if op == 0x66 {
    } else if op == 0x67 {
    } else if op == 0x68 {
    } else if op == 0x69 {
    } else if op == 0x6A {
    } else if op == 0x6B {
    } else if op == 0x6C {
    } else if op == 0x6D {
    } else if op == 0x6E {
    } else if op == 0x6F {
    } else if op == 0x70 {
    } else if op == 0x71 {
    } else if op == 0x72 {
    } else if op == 0x73 {
    } else if op == 0x74 {
    } else if op == 0x75 {
    } else if op == 0x77 {
    } else if op == 0x78 {
    } else if op == 0x79 {
    } else if op == 0x7A {
    } else if op == 0x7B {
    } else if op == 0x7C {
    } else if op == 0x7D {
    } else if op == 0x7E {
    } else if op == 0x7F {
    }
}

/// The conditional jumps, calls and returns change no flag; the jumps take 10 cycles,
/// the calls 17 and the returns 11.
pub proof fn law_conditional_timing(op: u8)
    requires
        op >= 0xC0,
        op % 8 == 0 || op % 8 == 2 || op % 8 == 4,
    ensures
        table_row(op).2 == 0,
        table_row(op).1 == (if op % 8 == 2 {
            10u8
        } else if op % 8 == 4 {
            17u8
        } else {
            11u8
        }),
{
    if op == 0xC0 {
    } else if op == 0xC2 {
    } else if op == 0xC4 {
    } else if op == 0xC8 {
    } else if op == 0xCA {
    } else if op == 0xCC {
    } else if op == 0xD0 {
    } else if op == 0xD2 {
    } else if op == 0xD4 {
    } else if op == 0xD8 {
    } else if op == 0xDA {
    } else if op == 0xDC {
    } else if op == 0xE0 {
    } else if op == 0xE2 {
    } else if op == 0xE4 {
    } else if op == 0xE8 {
    } else if op == 0xEA {
    } else if op == 0xEC {
    } else if op == 0xF0 {
    } else if op == 0xF2 {
    } else if op == 0xF4 {
    } else if op == 0xF8 {
    } else if op == 0xFA {
    } else if op == 0xFC {
    }
}

} // verus!
