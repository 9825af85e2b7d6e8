//! The mathematical model of the test-bench processor. It keeps its registers in
//! an eight-slot file addressed by register code with the lowest bit flipped, while
//! its register-pair reads and writes address the slots directly.
use vstd::prelude::*;
use crate::bits::{word, high_byte, low_byte, even_parity};
use crate::cpu::reg_slot;
use crate::model::{dst_code, src_code, pair_code};

verus! {

/// The state of the test-bench processor: the raw register file, the counters,
/// latches and flags, and its 64 KiB of memory.
#[verifier::ext_equal]
pub struct BenchState {
    pub regs: Seq<u8>,
    pub pc: usize,
    pub sp: usize,
    pub halt: bool,
    pub interrupt_enable: bool,
    pub sign: bool,
    pub zero: bool,
    pub auxc: bool,
    pub parity: bool,
    pub carry: bool,
    pub mem: Seq<u8>,
}

impl BenchState {
    /// Eight register slots and 64 KiB of memory.
    pub open spec fn wf(self) -> bool {
        self.regs.len() == 8 && self.mem.len() == 65536
    }

    /// Slots 0 and 1 as a word, slot 0 high.
    pub open spec fn bc(self) -> int {
        word(self.regs[0], self.regs[1])
    }

    /// Slots 2 and 3 as a word, slot 2 high.
    pub open spec fn de(self) -> int {
        word(self.regs[2], self.regs[3])
    }

    /// The HL pair: H (slot 5) the high byte, L (slot 4) the low byte.
    pub open spec fn hl(self) -> int {
        word(self.regs[5], self.regs[4])
    }

    /// Register `code`: codes 0-5 and 7 from slot `code ^ 1`, code 6 the memory byte at
    /// HL, any other code 0.
    pub open spec fn reg(self, code: int) -> u8 {
        if (0 <= code <= 5) || code == 7 {
            self.regs[reg_slot(code)]
        } else if code == 6 {
            self.mem[self.hl()]
        } else {
            0
        }
    }

    /// The state with register `code` set to `v`; an invalid code changes nothing.
    pub open spec fn with_reg(self, code: int, v: u8) -> BenchState {
        if (0 <= code <= 5) || code == 7 {
            BenchState { regs: self.regs.update(reg_slot(code), v), ..self }
        } else if code == 6 {
            BenchState { mem: self.mem.update(self.hl(), v), ..self }
        } else {
            self
        }
    }

    pub open spec fn with_pc(self, pc: int) -> BenchState {
        BenchState { pc: pc as usize, ..self }
    }

    pub open spec fn with_szp(self, r: u8) -> BenchState {
        BenchState { sign: r >= 128, zero: r == 0, parity: even_parity(r), ..self }
    }

    /// The flags packed into the flag byte `S Z 0 AC 0 P 1 C`.
    pub open spec fn flags_byte(self) -> u8 {
        (2 + (if self.sign { 128int } else { 0 }) + (if self.zero { 64int } else { 0 }) + (if self.auxc {
            16int
        } else {
            0
        }) + (if self.parity { 4int } else { 0 }) + (if self.carry { 1int } else { 0 })) as u8
    }

    /// The flags unpacked from a flag byte `S Z 0 AC 0 P 1 C`.
    pub open spec fn with_flags_byte(self, f: u8) -> BenchState {
        BenchState {
            sign: f & 0x80 == 0x80,
            zero: f & 0x40 == 0x40,
            auxc: f & 0x10 == 0x10,
            parity: f & 0x04 == 0x04,
            carry: f & 0x01 == 0x01,
            ..self
        }
    }

    /// The register pair `p` (0 slots 0-1, 1 slots 2-3, 2 HL).
    pub open spec fn pair(self, p: int) -> int {
        if p == 0 {
            self.bc()
        } else if p == 1 {
            self.de()
        } else {
            self.hl()
        }
    }

    /// The state with pair `p` set to `w`, its high byte in the lower slot of the pair
    /// (slot 4, which holds L, for HL).
    pub open spec fn with_pair(self, p: int, w: int) -> BenchState {
        BenchState {
            regs: self.regs.update(2 * p, high_byte(w)).update(2 * p + 1, low_byte(w)),
            ..self
        }
    }

    /// A (slot 6) and the flag byte as one word.
    pub open spec fn psw(self) -> int {
        word(self.regs[6], self.flags_byte())
    }

    /// Slot 7 set to the high byte of `w`, the flags from its low byte.
    pub open spec fn with_psw(self, w: int) -> BenchState {
        BenchState { regs: self.regs.update(7, high_byte(w)), ..self }.with_flags_byte(low_byte(w))
    }

    pub open spec fn word_at(self, addr: int) -> int {
        word(self.mem[addr + 1], self.mem[addr])
    }
}

pub open spec fn is_nop(op: u8) -> bool {
    op < 0x40 && op % 8 == 0
}

pub open spec fn is_inr_dcr(op: u8) -> bool {
    op < 0x40 && (op % 8 == 4 || op % 8 == 5)
}

pub open spec fn is_inx_dcx(op: u8) -> bool {
    op < 0x40 && (op % 16 == 3 || op % 16 == 11)
}

pub open spec fn is_rotate(op: u8) -> bool {
    op == 0x07 || op == 0x17 || op == 0x0F || op == 0x1F || op == 0x2F || op == 0x3F
}

pub open spec fn is_stax_ldax(op: u8) -> bool {
    op == 0x02 || op == 0x12 || op == 0x0A || op == 0x1A
}

pub open spec fn is_mov(op: u8) -> bool {
    0x40 <= op < 0x80 && op != 0x76
}

pub open spec fn is_alu(op: u8) -> bool {
    0x80 <= op < 0xC0
}

pub open spec fn is_pop(op: u8) -> bool {
    op >= 0xC0 && op % 16 == 1
}

pub open spec fn is_push(op: u8) -> bool {
    op >= 0xC0 && op % 16 == 5
}

pub open spec fn inr_dcr(s: BenchState, op: u8) -> BenchState {
    let r = dst_code(op);
    let v = s.reg(r);
    if op % 8 == 4 {
        let res = ((v + 1) % 256) as u8;
        BenchState { auxc: v % 16 == 15, ..s.with_reg(r, res).with_szp(res) }
    } else {
        let res = ((v + 255) % 256) as u8;
        BenchState { auxc: v % 16 == 0, ..s.with_reg(r, res).with_szp(res) }
    }
}

pub open spec fn inx_dcx(s: BenchState, op: u8) -> BenchState {
    let p = pair_code(op);
    if p == 3 {
        if op % 16 == 3 {
            BenchState { sp: (if s.sp == usize::MAX { 0 } else { s.sp + 1 }) as usize, ..s }
        } else {
            BenchState { sp: (if s.sp == 0 { usize::MAX as int } else { s.sp - 1 }) as usize, ..s }
        }
    } else if op % 16 == 3 {
        s.with_pair(p, (s.pair(p) + 1) % 65536)
    } else {
        s.with_pair(p, (s.pair(p) + 65535) % 65536)
    }
}

/// RLC, RAL, RRC, RAR, CMA, CMC on the accumulator (code 7).
pub open spec fn rotate(s: BenchState, op: u8) -> BenchState {
    let a = s.reg(7) as int;
    let cy: int = if s.carry { 1 } else { 0 };
    if op == 0x07 {
        BenchState { carry: a >= 128, ..s.with_reg(7, ((a * 2) % 256 + a / 128) as u8) }
    } else if op == 0x17 {
        BenchState { carry: a >= 128, ..s.with_reg(7, ((a * 2) % 256 + cy) as u8) }
    } else if op == 0x0F {
        BenchState { carry: a % 2 == 1, ..s.with_reg(7, (a / 2 + (a % 2) * 128) as u8) }
    } else if op == 0x1F {
        BenchState { carry: a % 2 == 1, ..s.with_reg(7, (a / 2 + cy * 128) as u8) }
    } else if op == 0x2F {
        s.with_reg(7, !s.reg(7))
    } else {
        BenchState { carry: !s.carry, ..s }
    }
}

pub open spec fn stax_ldax(s: BenchState, op: u8) -> BenchState {
    let addr = if op / 16 == 0 { s.bc() } else { s.de() };
    if op % 16 == 2 {
        BenchState { mem: s.mem.update(addr, s.reg(7)), ..s }
    } else {
        s.with_reg(7, s.mem[addr])
    }
}

/// MOV: a source code of 5 reads the memory byte at HL, else a destination code of 5
/// writes the source to the memory byte at HL, else register to register.
pub open spec fn mov(s: BenchState, op: u8) -> BenchState {
    let src = src_code(op);
    let dst = dst_code(op);
    if src == 5 {
        s.with_reg(dst, s.mem[s.hl()])
    } else if dst == 5 {
        BenchState { mem: s.mem.update(s.hl(), s.reg(src)), ..s }
    } else {
        s.with_reg(dst, s.reg(src))
    }
}

/// The eight accumulator operations; ADC sets carry and auxiliary carry as ADD does,
/// without the incoming carry.
pub open spec fn alu(s: BenchState, kind: int, v: u8) -> BenchState {
    let a = s.reg(7) as int;
    let b = v as int;
    let cy: int = if s.carry { 1 } else { 0 };
    if kind == 0 {
        let res = ((a + b) % 256) as u8;
        BenchState { carry: a + b > 255, auxc: a % 16 + b % 16 > 15, ..s.with_reg(7, res).with_szp(res) }
    } else if kind == 1 {
        let res = ((a + b + cy) % 256) as u8;
        BenchState { carry: a + b > 255, auxc: a % 16 + b % 16 > 15, ..s.with_reg(7, res).with_szp(res) }
    } else if kind == 2 {
        let res = ((a - b + 256) % 256) as u8;
        BenchState { carry: a < b, auxc: a % 16 < b % 16, ..s.with_reg(7, res).with_szp(res) }
    } else if kind == 3 {
        let res = ((a - b - cy + 512) % 256) as u8;
        BenchState { carry: a < b + cy, auxc: a % 16 < b % 16 + cy, ..s.with_reg(7, res).with_szp(res) }
    } else if kind == 4 {
        let res = s.reg(7) & v;
        BenchState { carry: false, auxc: true, ..s.with_reg(7, res).with_szp(res) }
    } else if kind == 5 {
        let res = s.reg(7) ^ v;
        BenchState { carry: false, auxc: false, ..s.with_reg(7, res).with_szp(res) }
    } else if kind == 6 {
        let res = s.reg(7) | v;
        BenchState { carry: false, auxc: false, ..s.with_reg(7, res).with_szp(res) }
    } else {
        let res = ((a - b + 256) % 256) as u8;
        BenchState { carry: a < b, auxc: a % 16 < b % 16, ..s.with_szp(res) }
    }
}

/// The state after the test-bench processor executes `op`; opcodes it does not
/// implement (among them DAA, STC, the immediates, jumps, calls and returns) only
/// advance the program counter.
#[verifier::opaque]
pub open spec fn bench_step(s: BenchState, op: u8) -> BenchState {
    let next = s.pc + 1;
    if is_inr_dcr(op) {
        inr_dcr(s, op).with_pc(next)
    } else if is_inx_dcx(op) {
        inx_dcx(s, op).with_pc(next)
    } else if is_rotate(op) {
        rotate(s, op).with_pc(next)
    } else if is_stax_ldax(op) {
        stax_ldax(s, op).with_pc(next)
    } else if op == 0x32 {
        BenchState { mem: s.mem.update(s.word_at(s.pc + 1), s.reg(7)), ..s }.with_pc(s.pc + 3)
    } else if op == 0x3A {
        s.with_reg(7, s.mem[s.word_at(s.pc + 1)]).with_pc(s.pc + 3)
    } else if is_mov(op) {
        mov(s, op).with_pc(next)
    } else if op == 0x76 {
        BenchState { halt: true, ..s }.with_pc(next)
    } else if is_alu(op) {
        alu(s, dst_code(op), s.reg(src_code(op))).with_pc(next)
    } else if is_pop(op) {
        let w = s.word_at(s.sp as int);
        let t = BenchState { sp: (s.sp + 2) as usize, ..s };
        if pair_code(op) == 3 {
            t.with_psw(w).with_pc(next)
        } else {
            t.with_pair(pair_code(op), w).with_pc(next)
        }
    } else if is_push(op) {
        let w = if pair_code(op) == 3 { s.psw() } else { s.pair(pair_code(op)) };
        BenchState {
            mem: s.mem.update(s.sp - 1, high_byte(w)).update(s.sp - 2, low_byte(w)),
            sp: (s.sp - 2) as usize,
            ..s
        }.with_pc(next)
    } else if op == 0xF3 {
        BenchState { interrupt_enable: false, ..s }.with_pc(next)
    } else if op == 0xFB {
        BenchState { interrupt_enable: true, ..s }.with_pc(next)
    } else {
        s.with_pc(next)
    }
}

/// When the test-bench processor can execute `op` without an overflow or an access
/// outside its memory.
#[verifier::opaque]
pub open spec fn bench_ready(s: BenchState, op: u8) -> bool {
    &&& s.pc + 1 <= usize::MAX
    &&& (op == 0x32 || op == 0x3A) ==> s.pc + 2 < 65536
    &&& is_alu(op) && dst_code(op) == 3 ==> !(s.carry && s.reg(src_code(op)) == 255)
    &&& is_pop(op) ==> s.sp + 1 < 65536
    &&& is_push(op) ==> 2 <= s.sp && s.sp - 1 < 65536
}

/// How `bench_step` and `bench_ready` read for each opcode group.
pub proof fn lemma_bench_inr_dcr(s: BenchState, op: u8)
    requires
        is_inr_dcr(op),
    ensures
        bench_step(s, op) == inr_dcr(s, op).with_pc(s.pc + 1),
        bench_ready(s, op) ==> s.pc + 1 <= usize::MAX,
{
    reveal(bench_step);
    reveal(bench_ready);
}

pub proof fn lemma_bench_inx_dcx(s: BenchState, op: u8)
    requires
        is_inx_dcx(op),
    ensures
        bench_step(s, op) == inx_dcx(s, op).with_pc(s.pc + 1),
        bench_ready(s, op) ==> s.pc + 1 <= usize::MAX,
{
    reveal(bench_step);
    reveal(bench_ready);
}

pub proof fn lemma_bench_rotate(s: BenchState, op: u8)
    requires
        is_rotate(op),
    ensures
        bench_step(s, op) == rotate(s, op).with_pc(s.pc + 1),
        bench_ready(s, op) ==> s.pc + 1 <= usize::MAX,
{
    reveal(bench_step);
    reveal(bench_ready);
}

pub proof fn lemma_bench_stax_ldax(s: BenchState, op: u8)
    requires
        is_stax_ldax(op),
    ensures
        bench_step(s, op) == stax_ldax(s, op).with_pc(s.pc + 1),
        bench_ready(s, op) ==> s.pc + 1 <= usize::MAX,
{
    reveal(bench_step);
    reveal(bench_ready);
}

pub proof fn lemma_bench_direct(s: BenchState, op: u8)
    requires
        op == 0x32 || op == 0x3A,
    ensures
        bench_step(s, op) == (if op == 0x32 {
            BenchState { mem: s.mem.update(s.word_at(s.pc + 1), s.reg(7)), ..s }
        } else {
            s.with_reg(7, s.mem[s.word_at(s.pc + 1)])
        }).with_pc(s.pc + 3),
        bench_ready(s, op) ==> s.pc + 2 < 65536,
{
    reveal(bench_step);
    reveal(bench_ready);
}

pub proof fn lemma_bench_mov(s: BenchState, op: u8)
    requires
        is_mov(op),
    ensures
        bench_step(s, op) == mov(s, op).with_pc(s.pc + 1),
        bench_ready(s, op) ==> s.pc + 1 <= usize::MAX,
{
    reveal(bench_step);
    reveal(bench_ready);
}

pub proof fn lemma_bench_alu(s: BenchState, op: u8)
    requires
        is_alu(op),
    ensures
        bench_step(s, op) == alu(s, dst_code(op), s.reg(src_code(op))).with_pc(s.pc + 1),
        bench_ready(s, op) ==> s.pc + 1 <= usize::MAX && (dst_code(op) == 3 ==> !(s.carry && s.reg(
            src_code(op),
        ) == 255)),
{
    reveal(bench_step);
    reveal(bench_ready);
}

pub proof fn lemma_bench_pop(s: BenchState, op: u8)
    requires
        is_pop(op),
    ensures
        bench_step(s, op) == (if pair_code(op) == 3 {
            BenchState { sp: (s.sp + 2) as usize, ..s }.with_psw(s.word_at(s.sp as int))
        } else {
            BenchState { sp: (s.sp + 2) as usize, ..s }.with_pair(
                pair_code(op),
                s.word_at(s.sp as int),
            )
        }).with_pc(s.pc + 1),
        bench_ready(s, op) ==> s.pc + 1 <= usize::MAX && s.sp + 1 < 65536,
{
    reveal(bench_step);
    reveal(bench_ready);
}

pub proof fn lemma_bench_push(s: BenchState, op: u8)
    requires
        is_push(op),
    ensures
        bench_step(s, op) == ({
            let w = if pair_code(op) == 3 {
                s.psw()
            } else {
                s.pair(pair_code(op))
            };
            BenchState {
                mem: s.mem.update(s.sp - 1, high_byte(w)).update(s.sp - 2, low_byte(w)),
                sp: (s.sp - 2) as usize,
                ..s
            }
        }).with_pc(s.pc + 1),
        bench_ready(s, op) ==> s.pc + 1 <= usize::MAX && 2 <= s.sp && s.sp - 1 < 65536,
{
    reveal(bench_step);
    reveal(bench_ready);
}

pub proof fn lemma_bench_control(s: BenchState, op: u8)
    requires
        !is_inr_dcr(op) && !is_inx_dcx(op) && !is_rotate(op) && !is_stax_ldax(op) && op != 0x32
            && op != 0x3A && !is_mov(op) && !is_alu(op) && !is_pop(op) && !is_push(op),
    ensures
        bench_step(s, op) == (if op == 0x76 {
            BenchState { halt: true, ..s }
        } else if op == 0xF3 {
            BenchState { interrupt_enable: false, ..s }
        } else if op == 0xFB {
            BenchState { interrupt_enable: true, ..s }
        } else {
            s
        }).with_pc(s.pc + 1),
        bench_ready(s, op) ==> s.pc + 1 <= usize::MAX,
{
    reveal(bench_step);
    reveal(bench_ready);
}

} // verus!
