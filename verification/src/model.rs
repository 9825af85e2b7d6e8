//! The mathematical model of the 8080 processor core: its state, and the effect
//! of executing one instruction on that state.
use vstd::prelude::*;
use crate::bits::{word, high_byte, low_byte, even_parity};

verus! {

/// The state of the processor: the seven byte registers, the program counter,
/// the stack pointer, the halt and interrupt-enable latches, the five condition
/// flags, and the bytes of the memory it is connected to.
#[verifier::ext_equal]
pub struct CpuState {
    pub a: u8,
    pub b: u8,
    pub c: u8,
    pub d: u8,
    pub e: u8,
    pub h: u8,
    pub l: u8,
    pub pc: usize,
    pub sp: usize,
    pub halt: bool,
    pub interrupt_enable: bool,
    pub sign: bool,
    pub zero: bool,
    pub auxc: bool,
    pub parity: bool,
    pub carry: bool,
    pub mem: Seq<u8>,
}

/// The register code named by bits 5-3 of an opcode.
pub open spec fn dst_code(op: u8) -> int {
    (op as int / 8) % 8
}

/// The register code named by bits 2-0 of an opcode.
pub open spec fn src_code(op: u8) -> int {
    op as int % 8
}

/// The register pair named by bits 5-4 of an opcode (0 BC, 1 DE, 2 HL, 3 SP or PSW).
pub open spec fn pair_code(op: u8) -> int {
    (op as int / 16) % 4
}

impl CpuState {
    /// The BC pair, B being the high byte.
    pub open spec fn bc(self) -> int {
        word(self.b, self.c)
    }

    /// The DE pair, D being the high byte.
    pub open spec fn de(self) -> int {
        word(self.d, self.e)
    }

    /// The HL pair, H being the high byte.
    pub open spec fn hl(self) -> int {
        word(self.h, self.l)
    }

    /// An address the memory holds and that fits the 32-bit memory port.
    pub open spec fn addressable(self, addr: int) -> bool {
        0 <= addr < self.mem.len() && addr <= u32::MAX
    }

    /// The little-endian word held at `addr` and `addr + 1`.
    pub open spec fn word_at(self, addr: int) -> int {
        word(self.mem[addr + 1], self.mem[addr])
    }

    /// The operand word of a three-byte instruction at the program counter.
    pub open spec fn operand_word(self) -> int {
        self.word_at(self.pc + 1)
    }

    /// The byte operand of a two-byte instruction at the program counter.
    pub open spec fn operand_byte(self) -> u8 {
        self.mem[self.pc + 1]
    }

    /// The register with code `code` (0 B, 1 C, 2 D, 3 E, 4 H, 5 L, 6 the memory
    /// byte addressed by HL, 7 A).
    pub open spec fn reg(self, code: int) -> u8 {
        if code == 0 {
            self.b
        } else if code == 1 {
            self.c
        } else if code == 2 {
            self.d
        } else if code == 3 {
            self.e
        } else if code == 4 {
            self.h
        } else if code == 5 {
            self.l
        } else if code == 6 {
            self.mem[self.hl()]
        } else {
            self.a
        }
    }

    /// The state with register `code` set to `v` (code 6 writes memory at HL).
    pub open spec fn with_reg(self, code: int, v: u8) -> CpuState {
        if code == 0 {
            CpuState { b: v, ..self }
        } else if code == 1 {
            CpuState { c: v, ..self }
        } else if code == 2 {
            CpuState { d: v, ..self }
        } else if code == 3 {
            CpuState { e: v, ..self }
        } else if code == 4 {
            CpuState { h: v, ..self }
        } else if code == 5 {
            CpuState { l: v, ..self }
        } else if code == 6 {
            CpuState { mem: self.mem.update(self.hl(), v), ..self }
        } else {
            CpuState { a: v, ..self }
        }
    }

    /// Register `code` can be accessed: when it is the memory operand, HL addresses memory.
    pub open spec fn reg_ok(self, code: int) -> bool {
        code != 6 || self.addressable(self.hl())
    }

    pub open spec fn with_pc(self, pc: int) -> CpuState {
        CpuState { pc: pc as usize, ..self }
    }

    /// Sign, zero and parity set from an 8-bit result.
    pub open spec fn with_szp(self, r: u8) -> CpuState {
        CpuState { sign: r >= 128, zero: r == 0, parity: even_parity(r), ..self }
    }

    /// The flags packed into the flag byte `S Z 0 AC 0 P 1 C`.
    pub open spec fn flags_byte(self) -> u8 {
        (2 + (if self.sign { 128int } else { 0 }) + (if self.zero { 64int } else { 0 }) + (if self.auxc {
            16int
        } else {
            0
        }) + (if self.parity { 4int } else { 0 }) + (if self.carry { 1int } else { 0 })) as u8
    }

    /// The flags unpacked from a flag byte `S Z 0 AC 0 P 1 C`.
    pub open spec fn with_flags_byte(self, f: u8) -> CpuState {
        CpuState {
            sign: f & 0x80 == 0x80,
            zero: f & 0x40 == 0x40,
            auxc: f & 0x10 == 0x10,
            parity: f & 0x04 == 0x04,
            carry: f & 0x01 == 0x01,
            ..self
        }
    }

    /// The accumulator and flag byte as one word, A being the high byte.
    pub open spec fn psw(self) -> int {
        word(self.a, self.flags_byte())
    }

    pub open spec fn with_bc(self, w: int) -> CpuState {
        CpuState { b: high_byte(w), c: low_byte(w), ..self }
    }

    pub open spec fn with_de(self, w: int) -> CpuState {
        CpuState { d: high_byte(w), e: low_byte(w), ..self }
    }

    pub open spec fn with_hl(self, w: int) -> CpuState {
        CpuState { h: high_byte(w), l: low_byte(w), ..self }
    }

    pub open spec fn with_psw(self, w: int) -> CpuState {
        CpuState { a: high_byte(w), ..self }.with_flags_byte(low_byte(w))
    }

    /// The state after pushing `w`: its high byte at SP - 1, its low byte at SP - 2.
    pub open spec fn pushed(self, w: int) -> CpuState {
        CpuState {
            mem: self.mem.update(self.sp - 1, high_byte(w)).update(self.sp - 2, low_byte(w)),
            sp: (self.sp - 2) as usize,
            ..self
        }
    }

    /// The word on top of the stack.
    pub open spec fn top(self) -> int {
        self.word_at(self.sp as int)
    }

    /// The state after popping a word off the stack.
    pub open spec fn popped(self) -> CpuState {
        CpuState { sp: (self.sp + 2) as usize, ..self }
    }

    pub open spec fn can_push(self) -> bool {
        self.sp >= 2 && self.addressable(self.sp - 1) && self.addressable(self.sp - 2)
    }

    pub open spec fn can_pop(self) -> bool {
        self.sp + 2 <= usize::MAX && self.addressable(self.sp as int) && self.addressable(
            self.sp + 1,
        )
    }

    /// The two operand bytes after the program counter can be fetched.
    pub open spec fn operand_ok(self) -> bool {
        self.pc + 2 <= usize::MAX && self.addressable(self.pc + 1) && self.addressable(self.pc + 2)
    }

    /// Condition `cc` of a conditional jump, call or return (0 NZ, 1 Z, 2 NC, 3 C,
    /// 4 PO, 5 PE, 6 P, 7 M).
    pub open spec fn condition(self, cc: int) -> bool {
        if cc == 0 {
            !self.zero
        } else if cc == 1 {
            self.zero
        } else if cc == 2 {
            !self.carry
        } else if cc == 3 {
            self.carry
        } else if cc == 4 {
            !self.parity
        } else if cc == 5 {
            self.parity
        } else if cc == 6 {
            !self.sign
        } else {
            self.sign
        }
    }

    /// The register pair `p` as INX, DCX and PUSH read it (3 is SP for INX and DCX).
    pub open spec fn pair(self, p: int) -> int {
        if p == 0 {
            self.bc()
        } else if p == 1 {
            self.de()
        } else {
            self.hl()
        }
    }

    /// The state with register pair `p` (0 BC, 1 DE, 2 HL) set to `w`.
    pub open spec fn with_pair(self, p: int, w: int) -> CpuState {
        if p == 0 {
            self.with_bc(w)
        } else if p == 1 {
            self.with_de(w)
        } else {
            self.with_hl(w)
        }
    }
}

// Opcode groups
pub open spec fn is_nop(op: u8) -> bool {
    op < 0x40 && op % 8 == 0
}

pub open spec fn is_inr(op: u8) -> bool {
    op < 0x40 && op % 8 == 4
}

pub open spec fn is_dcr(op: u8) -> bool {
    op < 0x40 && op % 8 == 5
}

pub open spec fn is_inx(op: u8) -> bool {
    op < 0x40 && op % 16 == 3
}

pub open spec fn is_dcx(op: u8) -> bool {
    op < 0x40 && op % 16 == 11
}

pub open spec fn is_lxi(op: u8) -> bool {
    op < 0x40 && op % 16 == 1
}

pub open spec fn is_mvi(op: u8) -> bool {
    op < 0x40 && op % 8 == 6
}

pub open spec fn is_stax(op: u8) -> bool {
    op == 0x02 || op == 0x12
}

pub open spec fn is_ldax(op: u8) -> bool {
    op == 0x0A || op == 0x1A
}

pub open spec fn is_mov(op: u8) -> bool {
    0x40 <= op < 0x80 && op != 0x76
}

pub open spec fn is_alu(op: u8) -> bool {
    0x80 <= op < 0xC0
}

pub open spec fn is_alu_imm(op: u8) -> bool {
    op >= 0xC0 && op % 8 == 6
}

pub open spec fn is_jcc(op: u8) -> bool {
    op >= 0xC0 && op % 8 == 2
}

pub open spec fn is_jmp(op: u8) -> bool {
    op == 0xC3 || op == 0xCB
}

pub open spec fn is_pop(op: u8) -> bool {
    op >= 0xC0 && op % 16 == 1
}

pub open spec fn is_push(op: u8) -> bool {
    op >= 0xC0 && op % 16 == 5
}

pub open spec fn is_call(op: u8) -> bool {
    op >= 0xC0 && op % 16 == 13
}

pub open spec fn is_ccc(op: u8) -> bool {
    op >= 0xC0 && op % 8 == 4
}

pub open spec fn is_ret(op: u8) -> bool {
    op == 0xC9 || op == 0xD9
}

pub open spec fn is_rcc(op: u8) -> bool {
    op >= 0xC0 && op % 8 == 0
}

pub open spec fn is_rst(op: u8) -> bool {
    op >= 0xC0 && op % 8 == 7
}

/// Rotations, decimal adjust and carry operations on the accumulator (0x07 to 0x3F
/// in steps of 8).
pub open spec fn is_acc_op(op: u8) -> bool {
    op < 0x40 && op % 8 == 7
}

pub open spec fn is_direct(op: u8) -> bool {
    op == 0x22 || op == 0x2A || op == 0x32 || op == 0x3A
}

/// INR and DCR: the register incremented or decremented by one, S Z P from the
/// result, the auxiliary carry from the low nibble; the carry flag is untouched.
pub open spec fn inr_dcr(s: CpuState, op: u8) -> CpuState {
    let r = dst_code(op);
    let v = s.reg(r);
    if op % 8 == 4 {
        let res = ((v + 1) % 256) as u8;
        CpuState { auxc: v % 16 == 15, ..s.with_reg(r, res).with_szp(res) }
    } else {
        let res = ((v + 255) % 256) as u8;
        CpuState { auxc: v % 16 == 0, ..s.with_reg(r, res).with_szp(res) }
    }
}

/// INX and DCX: the register pair or SP incremented or decremented, wrapping.
pub open spec fn inx_dcx(s: CpuState, op: u8) -> CpuState {
    let p = pair_code(op);
    let delta: int = if op % 16 == 3 { 1 } else { 65535 };
    if p == 3 {
        if op % 16 == 3 {
            CpuState { sp: (if s.sp == usize::MAX { 0 } else { s.sp + 1 }) as usize, ..s }
        } else {
            CpuState { sp: (if s.sp == 0 { usize::MAX as int } else { s.sp - 1 }) as usize, ..s }
        }
    } else {
        s.with_pair(p, (s.pair(p) + delta) % 65536)
    }
}

/// RLC, RRC, RAL, RAR, DAA, CMA, STC, CMC.
pub open spec fn acc_op(s: CpuState, op: u8) -> CpuState {
    let a = s.a as int;
    let cy: int = if s.carry { 1 } else { 0 };
    if op == 0x07 {
        CpuState { a: ((a * 2) % 256 + a / 128) as u8, carry: a >= 128, ..s }
    } else if op == 0x0F {
        CpuState { a: (a / 2 + (a % 2) * 128) as u8, carry: a % 2 == 1, ..s }
    } else if op == 0x17 {
        CpuState { a: ((a * 2) % 256 + cy) as u8, carry: a >= 128, ..s }
    } else if op == 0x1F {
        CpuState { a: (a / 2 + cy * 128) as u8, carry: a % 2 == 1, ..s }
    } else if op == 0x27 {
        let low = a % 16 > 9 || s.auxc;
        let high = a > 0x99 || s.carry;
        let adj: int = (if low { 6int } else { 0 }) + (if high { 0x60int } else { 0 });
        let res = ((a + adj) % 256) as u8;
        CpuState { a: res, auxc: low, carry: high, ..s }.with_szp(res)
    } else if op == 0x2F {
        CpuState { a: !s.a, ..s }
    } else if op == 0x37 {
        CpuState { carry: true, ..s }
    } else {
        CpuState { carry: !s.carry, ..s }
    }
}

/// STAX and LDAX: the accumulator stored to or loaded from the address in BC or DE.
pub open spec fn stax_ldax(s: CpuState, op: u8) -> CpuState {
    let addr = if op / 16 == 0 { s.bc() } else { s.de() };
    if op % 16 == 2 {
        CpuState { mem: s.mem.update(addr, s.a), ..s }
    } else {
        CpuState { a: s.mem[addr], ..s }
    }
}

/// SHLD, LHLD, STA, LDA with the address in the operand word. SHLD stores H at the
/// address and L after it; LHLD loads L from the address and H from after it.
pub open spec fn direct(s: CpuState, op: u8) -> CpuState {
    let addr = s.operand_word();
    if op == 0x22 {
        CpuState { mem: s.mem.update(addr, s.h).update(addr + 1, s.l), ..s }
    } else if op == 0x2A {
        CpuState { l: s.mem[addr], h: s.mem[addr + 1], ..s }
    } else if op == 0x32 {
        CpuState { mem: s.mem.update(addr, s.a), ..s }
    } else {
        CpuState { a: s.mem[addr], ..s }
    }
}

/// LXI: a register pair, or SP, loaded from the operand word.
pub open spec fn lxi(s: CpuState, op: u8) -> CpuState {
    let lower = s.mem[s.pc + 1];
    let upper = s.mem[s.pc + 2];
    let p = pair_code(op);
    if p == 0 {
        CpuState { b: upper, c: lower, ..s }
    } else if p == 1 {
        CpuState { d: upper, e: lower, ..s }
    } else if p == 2 {
        CpuState { h: upper, l: lower, ..s }
    } else {
        CpuState { sp: word(upper, lower) as usize, ..s }
    }
}

/// The eight arithmetic and logic operations of the accumulator with operand `v`
/// (0 ADD, 1 ADC, 2 SUB, 3 SBB, 4 ANA, 5 XRA, 6 ORA, 7 CMP).
pub open spec fn alu(s: CpuState, kind: int, v: u8) -> CpuState {
    let a = s.a as int;
    let b = v as int;
    let cy: int = if s.carry { 1 } else { 0 };
    if kind == 0 {
        let res = ((a + b) % 256) as u8;
        CpuState { a: res, carry: a + b > 255, auxc: a % 16 + b % 16 > 15, ..s }.with_szp(res)
    } else if kind == 1 {
        let res = ((a + b + cy) % 256) as u8;
        CpuState {
            a: res,
            carry: a + b + cy > 255,
            auxc: a % 16 + b % 16 + cy > 15,
            ..s
        }.with_szp(res)
    } else if kind == 2 {
        let res = ((a - b + 256) % 256) as u8;
        CpuState { a: res, carry: a < b, auxc: a % 16 < b % 16, ..s }.with_szp(res)
    } else if kind == 3 {
        let res = ((a - b - cy + 512) % 256) as u8;
        CpuState { a: res, carry: a < b + cy, auxc: a % 16 < b % 16 + cy, ..s }.with_szp(res)
    } else if kind == 4 {
        let res = s.a & v;
        CpuState { a: res, carry: false, auxc: true, ..s }.with_szp(res)
    } else if kind == 5 {
        let res = s.a ^ v;
        CpuState { a: res, carry: false, auxc: false, ..s }.with_szp(res)
    } else if kind == 6 {
        let res = s.a | v;
        CpuState { a: res, carry: false, auxc: false, ..s }.with_szp(res)
    } else {
        let res = ((a - b + 256) % 256) as u8;
        CpuState { carry: a < b, auxc: a % 16 < b % 16, ..s }.with_szp(res)
    }
}

/// The immediate forms (ADI, ACI, SUI, SBI, ANI, XRI, ORI, CPI) act as the register
/// forms on their operand byte.
pub open spec fn alu_imm(s: CpuState, kind: int, v: u8) -> CpuState {
    alu(s, kind, v)
}

/// The state after one instruction `op` is executed in state `s`.
#[verifier::opaque]
pub open spec fn step(s: CpuState, op: u8) -> CpuState {
    let next = s.pc + 1;
    if is_nop(op) {
        s.with_pc(next)
    } else if is_inr(op) || is_dcr(op) {
        inr_dcr(s, op).with_pc(next)
    } else if is_inx(op) || is_dcx(op) {
        inx_dcx(s, op).with_pc(next)
    } else if is_acc_op(op) {
        acc_op(s, op).with_pc(next)
    } else if is_stax(op) || is_ldax(op) {
        stax_ldax(s, op).with_pc(next)
    } else if is_direct(op) {
        direct(s, op).with_pc(s.pc + 3)
    } else if is_lxi(op) {
        lxi(s, op).with_pc(s.pc + 3)
    } else if is_mvi(op) {
        s.with_reg(dst_code(op), s.operand_byte()).with_pc(s.pc + 2)
    } else if is_mov(op) {
        s.with_reg(dst_code(op), s.reg(src_code(op))).with_pc(next)
    } else if op == 0x76 {
        CpuState { halt: true, ..s }.with_pc(next)
    } else if is_alu(op) {
        alu(s, dst_code(op), s.reg(src_code(op))).with_pc(next)
    } else if is_alu_imm(op) {
        alu_imm(s, dst_code(op), s.operand_byte()).with_pc(s.pc + 2)
    } else if is_jcc(op) {
        if s.condition(dst_code(op)) {
            s.with_pc(s.operand_word())
        } else {
            s.with_pc(s.pc + 3)
        }
    } else if is_jmp(op) {
        s.with_pc(s.operand_word())
    } else if is_pop(op) {
        let w = s.top();
        let p = pair_code(op);
        let t = s.popped();
        if p == 3 {
            t.with_psw(w).with_pc(next)
        } else {
            t.with_pair(p, w).with_pc(next)
        }
    } else if is_push(op) {
        let p = pair_code(op);
        let w = if p == 3 { s.psw() } else { s.pair(p) };
        s.pushed(w).with_pc(next)
    } else if op == 0xF3 {
        CpuState { interrupt_enable: false, ..s }.with_pc(next)
    } else if op == 0xFB {
        CpuState { interrupt_enable: true, ..s }.with_pc(next)
    } else if is_call(op) || (is_ccc(op) && s.condition(dst_code(op))) {
        s.pushed((s.pc + 3) % 65536).with_pc(s.operand_word())
    } else if is_ccc(op) {
        s.with_pc(s.pc + 3)
    } else if is_ret(op) || (is_rcc(op) && s.condition(dst_code(op))) {
        s.popped().with_pc(s.top())
    } else if is_rcc(op) {
        s.with_pc(next)
    } else if is_rst(op) {
        s.pushed(s.pc as int % 65536).with_pc(dst_code(op) * 8)
    } else if op == 0xE3 {
        let tl = s.mem[s.sp as int];
        let th = s.mem[s.sp + 1];
        CpuState {
            mem: s.mem.update(s.sp as int, s.l).update(s.sp + 1, s.h),
            h: th,
            l: tl,
            ..s
        }.with_pc(next)
    } else if op == 0xE9 {
        s.with_pc(s.hl())
    } else if op == 0xEB {
        CpuState { d: s.h, h: s.d, e: s.l, l: s.e, ..s }.with_pc(next)
    } else if op == 0xF9 {
        CpuState { sp: s.hl() as usize, ..s }.with_pc(next)
    } else {
        s.with_pc(next)
    }
}

/// The conditions under which executing `op` in state `s` completes: every memory
/// access is to an address the memory holds, no address or counter computation
/// overflows, and SBB/SBI never add a set carry to an operand of 255.
#[verifier::opaque]
pub open spec fn ready(s: CpuState, op: u8) -> bool {
    &&& s.pc + 1 <= usize::MAX
    &&& (is_inr(op) || is_dcr(op)) ==> s.reg_ok(dst_code(op))
    &&& (is_stax(op) || is_ldax(op)) ==> s.addressable(
        if op / 16 == 0 {
            s.bc()
        } else {
            s.de()
        },
    )
    &&& is_direct(op) ==> {
        &&& s.operand_ok()
        &&& s.pc + 3 <= usize::MAX
        &&& s.addressable(s.operand_word())
        &&& (op == 0x22 || op == 0x2A) ==> s.operand_word() < 0xFFFF && s.addressable(
            s.operand_word() + 1,
        )
    }
    &&& is_lxi(op) ==> s.operand_ok() && s.pc + 3 <= usize::MAX
    &&& is_mvi(op) ==> s.addressable(s.pc + 1) && s.pc + 2 <= usize::MAX && s.reg_ok(dst_code(op))
    &&& is_mov(op) ==> s.reg_ok(src_code(op)) && s.reg_ok(dst_code(op))
    &&& is_alu(op) ==> s.reg_ok(src_code(op)) && (dst_code(op) == 3 ==> !(s.carry && s.reg(
        src_code(op),
    ) == 255))
    &&& is_alu_imm(op) ==> s.addressable(s.pc + 1) && s.pc + 2 <= usize::MAX && (dst_code(op) == 3
        ==> !(s.carry && s.operand_byte() == 255))
    &&& is_jcc(op) ==> if s.condition(dst_code(op)) {
        s.operand_ok()
    } else {
        s.pc + 3 <= usize::MAX
    }
    &&& is_jmp(op) ==> s.operand_ok()
    &&& is_pop(op) ==> s.can_pop()
    &&& is_push(op) ==> s.can_push()
    &&& (is_call(op) || is_ccc(op)) ==> s.operand_ok() && s.pc + 3 <= usize::MAX
    &&& (is_call(op) || (is_ccc(op) && s.condition(dst_code(op)))) ==> s.can_push()
    &&& (is_ret(op) || (is_rcc(op) && s.condition(dst_code(op)))) ==> s.can_pop()
    &&& is_rst(op) ==> s.can_push()
    &&& op == 0xE3 ==> s.sp + 1 <= usize::MAX && s.addressable(s.sp as int) && s.addressable(
        s.sp + 1,
    )
}

/// How `step` and `ready` read for each opcode group.
pub proof fn lemma_step_nop(s: CpuState, op: u8)
    requires
        is_nop(op) || op == 0x76 || op == 0xF3 || op == 0xFB,
    ensures
        step(s, op) == (if op == 0x76 {
            CpuState { halt: true, ..s }
        } else if op == 0xF3 {
            CpuState { interrupt_enable: false, ..s }
        } else if op == 0xFB {
            CpuState { interrupt_enable: true, ..s }
        } else {
            s
        }).with_pc(s.pc + 1),
        ready(s, op) ==> s.pc + 1 <= usize::MAX,
{
    reveal(step);
    reveal(ready);
}

pub proof fn lemma_step_inr_dcr(s: CpuState, op: u8)
    requires
        is_inr(op) || is_dcr(op),
    ensures
        step(s, op) == inr_dcr(s, op).with_pc(s.pc + 1),
        ready(s, op) ==> s.pc + 1 <= usize::MAX && s.reg_ok(dst_code(op)),
{
    reveal(step);
    reveal(ready);
}

pub proof fn lemma_step_inx_dcx(s: CpuState, op: u8)
    requires
        is_inx(op) || is_dcx(op),
    ensures
        step(s, op) == inx_dcx(s, op).with_pc(s.pc + 1),
        ready(s, op) ==> s.pc + 1 <= usize::MAX,
{
    reveal(step);
    reveal(ready);
}

pub proof fn lemma_step_acc(s: CpuState, op: u8)
    requires
        is_acc_op(op),
    ensures
        step(s, op) == acc_op(s, op).with_pc(s.pc + 1),
        ready(s, op) ==> s.pc + 1 <= usize::MAX,
{
    reveal(step);
    reveal(ready);
}

pub proof fn lemma_step_stax_ldax(s: CpuState, op: u8)
    requires
        is_stax(op) || is_ldax(op),
    ensures
        step(s, op) == stax_ldax(s, op).with_pc(s.pc + 1),
        ready(s, op) ==> s.pc + 1 <= usize::MAX && s.addressable(
            if op / 16 == 0 {
                s.bc()
            } else {
                s.de()
            },
        ),
{
    reveal(step);
    reveal(ready);
}

pub proof fn lemma_step_direct(s: CpuState, op: u8)
    requires
        is_direct(op),
    ensures
        step(s, op) == direct(s, op).with_pc(s.pc + 3),
        ready(s, op) ==> {
            &&& s.operand_ok()
            &&& s.pc + 3 <= usize::MAX
            &&& s.addressable(s.operand_word())
            &&& (op == 0x22 || op == 0x2A) ==> s.operand_word() < 0xFFFF && s.addressable(
                s.operand_word() + 1,
            )
        },
{
    reveal(step);
    reveal(ready);
}

pub proof fn lemma_step_lxi(s: CpuState, op: u8)
    requires
        is_lxi(op),
    ensures
        step(s, op) == lxi(s, op).with_pc(s.pc + 3),
        ready(s, op) ==> s.operand_ok() && s.pc + 3 <= usize::MAX,
{
    reveal(step);
    reveal(ready);
}

pub proof fn lemma_step_mvi(s: CpuState, op: u8)
    requires
        is_mvi(op),
    ensures
        step(s, op) == s.with_reg(dst_code(op), s.operand_byte()).with_pc(s.pc + 2),
        ready(s, op) ==> s.addressable(s.pc + 1) && s.pc + 2 <= usize::MAX && s.reg_ok(
            dst_code(op),
        ),
{
    reveal(step);
    reveal(ready);
}

pub proof fn lemma_step_mov(s: CpuState, op: u8)
    requires
        is_mov(op),
    ensures
        step(s, op) == s.with_reg(dst_code(op), s.reg(src_code(op))).with_pc(s.pc + 1),
        ready(s, op) ==> s.pc + 1 <= usize::MAX && s.reg_ok(src_code(op)) && s.reg_ok(
            dst_code(op),
        ),
{
    reveal(step);
    reveal(ready);
}

pub proof fn lemma_step_alu(s: CpuState, op: u8)
    requires
        is_alu(op),
    ensures
        step(s, op) == alu(s, dst_code(op), s.reg(src_code(op))).with_pc(s.pc + 1),
        ready(s, op) ==> s.pc + 1 <= usize::MAX && s.reg_ok(src_code(op)) && (dst_code(op) == 3
            ==> !(s.carry && s.reg(src_code(op)) == 255)),
{
    reveal(step);
    reveal(ready);
}

pub proof fn lemma_step_alu_imm(s: CpuState, op: u8)
    requires
        is_alu_imm(op),
    ensures
        step(s, op) == alu_imm(s, dst_code(op), s.operand_byte()).with_pc(s.pc + 2),
        ready(s, op) ==> s.addressable(s.pc + 1) && s.pc + 2 <= usize::MAX && (dst_code(op) == 3
            ==> !(s.carry && s.operand_byte() == 255)),
{
    reveal(step);
    reveal(ready);
}

pub proof fn lemma_step_jump(s: CpuState, op: u8)
    requires
        is_jcc(op) || is_jmp(op),
    ensures
        step(s, op) == (if is_jmp(op) || s.condition(dst_code(op)) {
            s.with_pc(s.operand_word())
        } else {
            s.with_pc(s.pc + 3)
        }),
        ready(s, op) ==> if is_jmp(op) || s.condition(dst_code(op)) {
            s.operand_ok()
        } else {
            s.pc + 3 <= usize::MAX
        },
{
    reveal(step);
    reveal(ready);
}

pub proof fn lemma_step_pop(s: CpuState, op: u8)
    requires
        is_pop(op),
    ensures
        step(s, op) == (if pair_code(op) == 3 {
            s.popped().with_psw(s.top())
        } else {
            s.popped().with_pair(pair_code(op), s.top())
        }).with_pc(s.pc + 1),
        ready(s, op) ==> s.pc + 1 <= usize::MAX && s.can_pop(),
{
    reveal(step);
    reveal(ready);
}

pub proof fn lemma_step_push(s: CpuState, op: u8)
    requires
        is_push(op),
    ensures
        step(s, op) == s.pushed(
            if pair_code(op) == 3 {
                s.psw()
            } else {
                s.pair(pair_code(op))
            },
        ).with_pc(s.pc + 1),
        ready(s, op) ==> s.pc + 1 <= usize::MAX && s.can_push(),
{
    reveal(step);
    reveal(ready);
}

pub proof fn lemma_step_call(s: CpuState, op: u8)
    requires
        is_call(op) || is_ccc(op),
    ensures
        step(s, op) == (if is_call(op) || s.condition(dst_code(op)) {
            s.pushed((s.pc + 3) % 65536).with_pc(s.operand_word())
        } else {
            s.with_pc(s.pc + 3)
        }),
        ready(s, op) ==> s.operand_ok() && s.pc + 3 <= usize::MAX && ((is_call(op)
            || s.condition(dst_code(op))) ==> s.can_push()),
{
    reveal(step);
    reveal(ready);
}

pub proof fn lemma_step_ret(s: CpuState, op: u8)
    requires
        is_ret(op) || is_rcc(op),
    ensures
        step(s, op) == (if is_ret(op) || s.condition(dst_code(op)) {
            s.popped().with_pc(s.top())
        } else {
            s.with_pc(s.pc + 1)
        }),
        ready(s, op) ==> s.pc + 1 <= usize::MAX && ((is_ret(op) || s.condition(dst_code(op)))
            ==> s.can_pop()),
{
    reveal(step);
    reveal(ready);
}

pub proof fn lemma_step_rst(s: CpuState, op: u8)
    requires
        is_rst(op),
    ensures
        step(s, op) == s.pushed(s.pc as int % 65536).with_pc(dst_code(op) * 8),
        ready(s, op) ==> s.can_push(),
{
    reveal(step);
    reveal(ready);
}

pub proof fn lemma_step_hl_ops(s: CpuState, op: u8)
    requires
        op == 0xE3 || op == 0xE9 || op == 0xEB || op == 0xF9,
    ensures
        step(s, op) == (if op == 0xE3 {
            CpuState {
                mem: s.mem.update(s.sp as int, s.l).update(s.sp + 1, s.h),
                h: s.mem[s.sp + 1],
                l: s.mem[s.sp as int],
                ..s
            }.with_pc(s.pc + 1)
        } else if op == 0xE9 {
            s.with_pc(s.hl())
        } else if op == 0xEB {
            CpuState { d: s.h, h: s.d, e: s.l, l: s.e, ..s }.with_pc(s.pc + 1)
        } else {
            CpuState { sp: s.hl() as usize, ..s }.with_pc(s.pc + 1)
        }),
        ready(s, op) ==> s.pc + 1 <= usize::MAX && (op == 0xE3 ==> s.sp + 1 <= usize::MAX
            && s.addressable(s.sp as int) && s.addressable(s.sp + 1)),
{
    reveal(step);
    reveal(ready);
}

/// Opcodes outside every group (DAD, IN, OUT) only advance the program counter.
pub proof fn lemma_step_other(s: CpuState, op: u8)
    requires
        !is_nop(op) && !is_inr(op) && !is_dcr(op) && !is_inx(op) && !is_dcx(op) && !is_acc_op(op)
            && !is_stax(op) && !is_ldax(op) && !is_direct(op) && !is_lxi(op) && !is_mvi(op)
            && !is_mov(op) && op != 0x76 && !is_alu(op) && !is_alu_imm(op) && !is_jcc(op)
            && !is_jmp(op) && !is_pop(op) && !is_push(op) && op != 0xF3 && op != 0xFB
            && !is_call(op) && !is_ccc(op) && !is_ret(op) && !is_rcc(op) && !is_rst(op) && op
            != 0xE3 && op != 0xE9 && op != 0xEB && op != 0xF9,
    ensures
        step(s, op) == s.with_pc(s.pc + 1),
        ready(s, op) ==> s.pc + 1 <= usize::MAX,
{
    reveal(step);
    reveal(ready);
}

} // verus!
