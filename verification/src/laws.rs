//! Properties of the processor model that relate several operations: what one
//! operation undoes of another, and what a read gives back of a write.
use vstd::prelude::*;
use crate::bits::{word, high_byte, low_byte};
use crate::instructions::instruction_length;
use crate::bench::model::{BenchState, bench_step, bench_ready, lemma_bench_push, lemma_bench_pop};
use crate::model::{
    CpuState, step, ready, dst_code, pair_code, lemma_step_inr_dcr, lemma_step_push, lemma_step_pop, lemma_step_acc, lemma_step_hl_ops, is_jcc, is_jmp, is_call, is_ccc, is_ret, is_rcc, is_rst,
};

verus! {

proof fn lemma_flag_bits(s: u8, z: u8, a: u8, p: u8, c: u8)
    by (bit_vector)
    requires
        s <= 1,
        z <= 1,
        a <= 1,
        p <= 1,
        c <= 1,
    ensures
        ((2 + 128 * s + 64 * z + 16 * a + 4 * p + c) as u8 & 0x80 == 0x80) == (s == 1),
        ((2 + 128 * s + 64 * z + 16 * a + 4 * p + c) as u8 & 0x40 == 0x40) == (z == 1),
        ((2 + 128 * s + 64 * z + 16 * a + 4 * p + c) as u8 & 0x10 == 0x10) == (a == 1),
        ((2 + 128 * s + 64 * z + 16 * a + 4 * p + c) as u8 & 0x04 == 0x04) == (p == 1),
        ((2 + 128 * s + 64 * z + 16 * a + 4 * p + c) as u8 & 0x01 == 0x01) == (c == 1),
{
}

proof fn lemma_flag_byte_of_bits(f: u8)
    by (bit_vector)
    ensures
        (2 + 128 * (if f & 0x80 == 0x80 { 1u8 } else { 0u8 }) + 64 * (if f & 0x40 == 0x40 {
            1u8
        } else {
            0u8
        }) + 16 * (if f & 0x10 == 0x10 { 1u8 } else { 0u8 }) + 4 * (if f & 0x04 == 0x04 {
            1u8
        } else {
            0u8
        }) + (if f & 0x01 == 0x01 { 1u8 } else { 0u8 })) as u8 == (f & 0xD5) | 0x02,
{
}

/// Packing the flags and unpacking them again restores all five flags.
pub proof fn law_flags_roundtrip(s: CpuState)
    ensures
        s.with_flags_byte(s.flags_byte()) == s,
{
    let b = |x: bool| -> u8 { if x { 1u8 } else { 0u8 } };
    lemma_flag_bits(b(s.sign), b(s.zero), b(s.auxc), b(s.parity), b(s.carry));
}

/// Unpacking a flag byte and packing the flags again keeps its bits 7, 6, 4, 2 and 0,
/// sets bit 1 and clears bits 5 and 3.
pub proof fn law_unpack_then_pack(s: CpuState, f: u8)
    ensures
        s.with_flags_byte(f).flags_byte() == (f & 0xD5) | 0x02,
{
    lemma_flag_byte_of_bits(f);
}

/// Writing BC, DE or HL and reading the pair back gives the written word.
pub proof fn law_pair_read_after_write(s: CpuState, w: int)
    requires
        0 <= w < 65536,
    ensures
        s.with_bc(w).bc() == w,
        s.with_de(w).de() == w,
        s.with_hl(w).hl() == w,
{
}

/// Writing a register and reading it back gives the written byte (for M, when HL
/// addresses memory).
pub proof fn law_reg_read_after_write(s: CpuState, code: int, v: u8)
    requires
        0 <= code < 8,
        s.reg_ok(code),
    ensures
        s.with_reg(code, v).reg(code) == v,
{
}

/// A word pushed on the stack is the word on top, and popping it restores the stack
/// pointer.
pub proof fn law_push_then_pop(s: CpuState, w: int)
    requires
        s.can_push(),
        0 <= w < 65536,
    ensures
        s.pushed(w).top() == w,
        s.pushed(w).popped().sp == s.sp,
        s.pushed(w).can_pop(),
{
}

/// PUSH then POP of the same pair (BC, DE, HL or PSW) leaves the pair and the stack
/// pointer as they were.
pub proof fn law_push_pop_pair(s: CpuState, p: int)
    requires
        0 <= p < 4,
        ready(s, (0xC5 + 16 * p) as u8),
        ready(step(s, (0xC5 + 16 * p) as u8), (0xC1 + 16 * p) as u8),
    ensures
        ({
            let t = step(step(s, (0xC5 + 16 * p) as u8), (0xC1 + 16 * p) as u8);
            &&& t.sp == s.sp
            &&& t.pc == s.pc + 2
            &&& p == 0 ==> t.b == s.b && t.c == s.c
            &&& p == 1 ==> t.d == s.d && t.e == s.e
            &&& p == 2 ==> t.h == s.h && t.l == s.l
            &&& p == 3 ==> t.a == s.a && t.flags_byte() == s.flags_byte() && t.sign == s.sign
                && t.zero == s.zero && t.auxc == s.auxc && t.parity == s.parity && t.carry
                == s.carry
        }),
{
    let push = (0xC5 + 16 * p) as u8;
    let pop = (0xC1 + 16 * p) as u8;
    assert(pair_code(push) == p && pair_code(pop) == p);
    lemma_step_push(s, push);
    let w = if p == 3 {
        s.psw()
    } else {
        s.pair(p)
    };
    let u = step(s, push);
    assert(u == s.pushed(w).with_pc(s.pc + 1));
    law_push_then_pop(s, w);
    lemma_step_pop(u, pop);
    assert(u.top() == w);
    law_flags_roundtrip(s);
}

/// CALL followed by RET returns to the instruction after the CALL (modulo 0x10000) with
/// the stack pointer restored.
pub proof fn law_call_then_ret(s: CpuState)
    requires
        ready(s, 0xCD),
        ready(step(s, 0xCD), 0xC9),
    ensures
        step(step(s, 0xCD), 0xC9).pc == (s.pc + 3) % 65536,
        step(step(s, 0xCD), 0xC9).sp == s.sp,
{
    reveal(step);
    reveal(ready);
}

/// Every instruction that does not transfer control, and every conditional jump, call
/// or return whose condition fails, advances the program counter by its length in the
/// instruction table. IN and OUT (0xDB, 0xD3) are the exception: the table gives them
/// two bytes and the processor, which does not implement them, advances by one.
pub proof fn law_pc_advance(s: CpuState, op: u8)
    requires
        ready(s, op),
        op != 0xD3 && op != 0xDB,
        !is_jmp(op) && !is_call(op) && !is_ret(op) && !is_rst(op) && op != 0xE9,
        (is_jcc(op) || is_ccc(op) || is_rcc(op)) ==> !s.condition(dst_code(op)),
    ensures
        step(s, op).pc == s.pc + instruction_length(op),
{
    reveal(step);
    reveal(ready);
}

/// INR then DCR of the same register gives back its value.
pub proof fn law_inr_then_dcr(s: CpuState, r: int)
    requires
        0 <= r < 8,
        ready(s, (4 + 8 * r) as u8),
        ready(step(s, (4 + 8 * r) as u8), (5 + 8 * r) as u8),
    ensures
        step(step(s, (4 + 8 * r) as u8), (5 + 8 * r) as u8).reg(r) == s.reg(r),
{
    let inr = (4 + 8 * r) as u8;
    let dcr = (5 + 8 * r) as u8;
    assert(dst_code(inr) == r && dst_code(dcr) == r);
    let v = s.reg(r);
    let res = ((v + 1) % 256) as u8;
    lemma_step_inr_dcr(s, inr);
    let u = s.with_reg(r, res);
    law_reg_read_after_write(s, r, res);
    let t = step(s, inr);
    assert(t.reg(r) == u.reg(r));
    assert(t.reg_ok(r));
    lemma_step_inr_dcr(t, dcr);
    let res2 = ((res + 255) % 256) as u8;
    law_reg_read_after_write(t, r, res2);
    assert(step(t, dcr).reg(r) == t.with_reg(r, res2).reg(r));
}

/// CMA twice, and XCHG twice, give back the state's registers; RLC then RRC gives back
/// the accumulator; RAL then RAR gives back the accumulator and the carry.
#[verifier::spinoff_prover]
pub proof fn law_undo_pairs(s: CpuState)
    requires
        s.pc + 2 <= usize::MAX,
    ensures
        step(step(s, 0x2F), 0x2F).a == s.a,
        step(step(s, 0xEB), 0xEB).d == s.d,
        step(step(s, 0xEB), 0xEB).e == s.e,
        step(step(s, 0xEB), 0xEB).h == s.h,
        step(step(s, 0xEB), 0xEB).l == s.l,
        step(step(s, 0x07), 0x0F).a == s.a,
        step(step(s, 0x17), 0x1F).a == s.a,
        step(step(s, 0x17), 0x1F).carry == s.carry,
{
    assert(step(step(s, 0x2F), 0x2F).a == s.a) by {
        let a = s.a;
        assert(!!a == a) by (bit_vector);
        lemma_step_acc(s, 0x2F);
        lemma_step_acc(step(s, 0x2F), 0x2F);
    }
    assert(step(step(s, 0xEB), 0xEB).d == s.d && step(step(s, 0xEB), 0xEB).e == s.e && step(
        step(s, 0xEB),
        0xEB,
    ).h == s.h && step(step(s, 0xEB), 0xEB).l == s.l) by {
        lemma_step_hl_ops(s, 0xEB);
        lemma_step_hl_ops(step(s, 0xEB), 0xEB);
    }
    assert(step(step(s, 0x07), 0x0F).a == s.a) by {
        lemma_step_acc(s, 0x07);
        lemma_step_acc(step(s, 0x07), 0x0F);
    }
    assert(step(step(s, 0x17), 0x1F).a == s.a && step(step(s, 0x17), 0x1F).carry == s.carry) by {
        lemma_step_acc(s, 0x17);
        lemma_step_acc(step(s, 0x17), 0x1F);
    }
}

/// On the test bench, PUSH then POP of BC or DE leaves the pair, and of HL exchanges
/// the bytes of H and L (the pair is read H-high and written to its slots low-slot-high);
/// the stack pointer is restored in every case.
pub proof fn law_bench_push_pop_pair(s: BenchState, p: int)
    requires
        s.wf(),
        0 <= p < 3,
        bench_ready(s, (0xC5 + 16 * p) as u8),
        bench_ready(bench_step(s, (0xC5 + 16 * p) as u8), (0xC1 + 16 * p) as u8),
    ensures
        ({
            let t = bench_step(bench_step(s, (0xC5 + 16 * p) as u8), (0xC1 + 16 * p) as u8);
            &&& p < 2 ==> t.pair(p) == s.pair(p)
            &&& p == 2 ==> t.regs[4] == s.regs[5] && t.regs[5] == s.regs[4]
            &&& t.sp == s.sp
            &&& t.pc == s.pc + 2
        }),
{
    let push = (0xC5 + 16 * p) as u8;
    let pop = (0xC1 + 16 * p) as u8;
    assert(pair_code(push) == p && pair_code(pop) == p);
    lemma_bench_push(s, push);
    let u = bench_step(s, push);
    lemma_bench_pop(u, pop);
    let w = s.pair(p);
    assert(u.mem[s.sp - 1] == high_byte(w));
    assert(u.mem[s.sp - 2] == low_byte(w));
    assert(u.word_at(u.sp as int) == w);
}

} // verus!
