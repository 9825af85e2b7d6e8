//! The 8080 processor core: registers, flags, stack and the instruction interpreter.
use vstd::prelude::*;
use crate::bits::{word, high_byte, low_byte, count_ones, join_bytes, split_word, low_nibble, lemma_masks};
use crate::memory::{Access, Memory};
use crate::model::{CpuState, ready, step, dst_code, src_code, pair_code, alu, alu_imm, inr_dcr, inx_dcx, acc_op, stax_ldax, direct, lxi, is_nop, is_inr, is_dcr, is_inx, is_dcx, is_lxi, is_mvi, is_stax, is_ldax, is_mov, is_alu, is_alu_imm, is_jcc, is_jmp, is_pop, is_push, is_call, is_ccc, is_ret, is_rcc, is_rst, is_acc_op, is_direct, lemma_step_nop, lemma_step_inr_dcr, lemma_step_inx_dcx, lemma_step_acc, lemma_step_stax_ldax, lemma_step_direct, lemma_step_lxi, lemma_step_mvi, lemma_step_mov, lemma_step_alu, lemma_step_alu_imm, lemma_step_jump, lemma_step_pop, lemma_step_push, lemma_step_call, lemma_step_ret, lemma_step_rst, lemma_step_hl_ops, lemma_step_other};
use crate::ram::RAM;

verus! {

// masks for flags
const FLAG_S: u8 = 0b1000_0000;  // Sign

const FLAG_Z: u8 = 0b0100_0000;  // Zero

const FLAG_AC: u8 = 0b0001_0000;  // Auxiliary Carry

const FLAG_P: u8 = 0b0000_0100;  // Parity

const FLAG_C: u8 = 0b0000_0001;  // Carry

/// A register operand as the 8080 encodes it in an opcode; `M` is the memory byte
/// addressed by HL.
#[derive(Copy, Clone, Debug, PartialEq, Eq, Structural)]
pub enum Reg {
    B,
    C,
    D,
    E,
    H,
    L,
    M,
    A,
}

impl Reg {
    /// The three-bit code of the register.
    pub open spec fn code(self) -> u8 {
        match self {
            Reg::B => 0,
            Reg::C => 1,
            Reg::D => 2,
            Reg::E => 3,
            Reg::H => 4,
            Reg::L => 5,
            Reg::M => 6,
            Reg::A => 7,
        }
    }

    /// The register with code `x`; a code above 7 names B.
    pub open spec fn of_code(x: u8) -> Reg {
        if x == 0 {
            Reg::B
        } else if x == 1 {
            Reg::C
        } else if x == 2 {
            Reg::D
        } else if x == 3 {
            Reg::E
        } else if x == 4 {
            Reg::H
        } else if x == 5 {
            Reg::L
        } else if x == 6 {
            Reg::M
        } else if x == 7 {
            Reg::A
        } else {
            Reg::B
        }
    }
}

impl From<u8> for Reg {
    fn from(x: u8) -> (r: Reg) {
        match x {
            0b000 => Reg::B,
            0b001 => Reg::C,
            0b010 => Reg::D,
            0b011 => Reg::E,
            0b100 => Reg::H,
            0b101 => Reg::L,
            0b110 => Reg::M,
            0b111 => Reg::A,
            _ => Reg::B,
        }
    }
}

impl vstd::std_specs::convert::FromSpecImpl<u8> for Reg {
    open spec fn obeys_from_spec() -> bool {
        true
    }

    open spec fn from_spec(x: u8) -> Reg {
        Reg::of_code(x)
    }
}

impl From<Reg> for u8 {
    fn from(reg: Reg) -> (r: u8) {
        match reg {
            Reg::B => 0b000,
            Reg::C => 0b001,
            Reg::D => 0b010,
            Reg::E => 0b011,
            Reg::H => 0b100,
            Reg::L => 0b101,
            Reg::M => 0b110,
            Reg::A => 0b111,
        }
    }
}

impl vstd::std_specs::convert::FromSpecImpl<Reg> for u8 {
    open spec fn obeys_from_spec() -> bool {
        true
    }

    open spec fn from_spec(reg: Reg) -> u8 {
        reg.code()
    }
}

/// The slot of the register file that holds register `reg`: its code with the
/// lowest bit flipped.
fn slot(reg: Reg) -> (r: usize)
    requires
        reg != Reg::M,
    ensures
        r < 8,
        r == reg_slot(reg.code() as int),
{
    match reg {
        Reg::B => 1,
        Reg::C => 0,
        Reg::D => 3,
        Reg::E => 2,
        Reg::H => 5,
        Reg::L => 4,
        Reg::M => 7,
        Reg::A => 6,
    }
}

/// Register code `code` is kept in slot `code ^ 1` of the register file.
pub open spec fn reg_slot(code: int) -> int {
    if code % 2 == 0 {
        code + 1
    } else {
        code - 1
    }
}

/// The processor state at power-up: every register, counter and flag zero, on
/// memory `mem`.
pub open spec fn power_up_state(mem: Seq<u8>) -> CpuState {
    CpuState {
        a: 0,
        b: 0,
        c: 0,
        d: 0,
        e: 0,
        h: 0,
        l: 0,
        pc: 0,
        sp: 0,
        halt: false,
        interrupt_enable: false,
        sign: false,
        zero: false,
        auxc: false,
        parity: false,
        carry: false,
        mem,
    }
}

/// The processor state after a reset: as at power-up, but with the stack pointer at
/// 0xFFFF.
pub open spec fn reset_state(mem: Seq<u8>) -> CpuState {
    CpuState { sp: 0xFFFF, ..power_up_state(mem) }
}

/// An Intel 8080 processor connected to a memory of type `B`.
pub struct CPU<B: Memory> {
    // registers, register code r kept in slot r ^ 1
    registers: [u8; 8],
    // special registers
    pub pc: usize,
    sp: usize,
    // halt flag
    pub halt: bool,
    // interrupt enable
    interrupt_enable: bool,
    // other flags
    sign: bool,
    zero: bool,
    auxc: bool,
    parity: bool,
    carry: bool,
    // memory
    pub ram: RAM<B>,
}

impl<B: Memory> View for CPU<B> {
    type V = CpuState;

    closed spec fn view(&self) -> CpuState {
        CpuState {
            a: self.registers@[6],
            b: self.registers@[1],
            c: self.registers@[0],
            d: self.registers@[3],
            e: self.registers@[2],
            h: self.registers@[5],
            l: self.registers@[4],
            pc: self.pc,
            sp: self.sp,
            halt: self.halt,
            interrupt_enable: self.interrupt_enable,
            sign: self.sign,
            zero: self.zero,
            auxc: self.auxc,
            parity: self.parity,
            carry: self.carry,
            mem: self.ram.bytes(),
        }
    }
}

impl<B: Memory> CPU<B> {
    /// Every read and write the processor has made to its memory, in order.
    pub closed spec fn accesses(&self) -> Seq<Access> {
        self.ram.accesses()
    }

    /// A processor at power-up on memory `ram`.
    pub fn new(ram: RAM<B>) -> (r: Self)
        ensures
            r@ == power_up_state(ram.bytes()),
    {
        Self {
            registers: [0;8],
            pc: 0,
            sp: 0,
            halt: false,
            interrupt_enable: false,
            sign: false,
            zero: false,
            auxc: false,
            parity: false,
            carry: false,
            ram,
        }
    }

    /// Clears the registers, counters and flags, and sets the stack pointer to 0xFFFF;
    /// memory is left as it is.
    pub fn reset(&mut self)
        ensures
            final(self)@ == reset_state(old(self)@.mem),
    {
        self.registers = [0;8];
        self.pc = 0;
        self.sp = 0xFFFF;  // default value for now
        self.halt = false;
        self.interrupt_enable = false;
        self.sign = false;
        self.zero = false;
        self.auxc = false;
        self.parity = false;
        self.carry = false;
    }

    /// The BC pair, B being the high byte.
    pub fn read_bc(&mut self) -> (r: u16)
        ensures
            final(self).accesses() == old(self).accesses(),
            r == old(self)@.bc(),
            final(self)@ == old(self)@,
    {
        let hi = self.read_reg(Reg::B);
        let lo = self.read_reg(Reg::C);
        join_bytes(hi, lo)
    }

    /// The DE pair, D being the high byte.
    pub fn read_de(&mut self) -> (r: u16)
        ensures
            final(self).accesses() == old(self).accesses(),
            r == old(self)@.de(),
            final(self)@ == old(self)@,
    {
        let hi = self.read_reg(Reg::D);
        let lo = self.read_reg(Reg::E);
        join_bytes(hi, lo)
    }

    /// The HL pair, H being the high byte.
    pub fn read_hl(&mut self) -> (r: u16)
        ensures
            final(self).accesses() == old(self).accesses(),
            r == old(self)@.hl(),
            final(self)@ == old(self)@,
    {
        // concatenation of H and L
        join_bytes(self.registers[slot(Reg::H)], self.registers[slot(Reg::L)])
    }

    /// The accumulator and the packed flags, A being the high byte.
    pub fn read_psw(&mut self) -> (r: u16)
        ensures
            final(self).accesses() == old(self).accesses(),
            r == old(self)@.psw(),
            final(self)@ == old(self)@,
    {
        let hi = self.read_reg(Reg::A);
        join_bytes(hi, self.pack_flags())
    }

    /// Sets B to the high byte and C to the low byte of `val`.
    pub fn set_bc(&mut self, val: u16)
        ensures
            final(self)@ == old(self)@.with_bc(val as int),
    {
        let (upper, lower) = split_word(val);
        self.set_reg(Reg::B, upper);
        self.set_reg(Reg::C, lower);
    }

    /// Sets D to the high byte and E to the low byte of `val`.
    pub fn set_de(&mut self, val: u16)
        ensures
            final(self)@ == old(self)@.with_de(val as int),
    {
        let (upper, lower) = split_word(val);
        self.set_reg(Reg::D, upper);
        self.set_reg(Reg::E, lower);
    }

    /// Sets H to the high byte and L to the low byte of `val`.
    pub fn set_hl(&mut self, val: u16)
        ensures
            final(self)@ == old(self)@.with_hl(val as int),
    {
        let (upper, lower) = split_word(val);
        self.set_reg(Reg::H, upper);
        self.set_reg(Reg::L, lower);
    }

    /// Sets A to the high byte of `val` and the flags from its low byte.
    pub fn set_psw(&mut self, val: u16)
        ensures
            final(self)@ == old(self)@.with_psw(val as int),
    {
        let (upper, lower) = split_word(val);
        self.set_reg(Reg::A, upper);
        // unpack u8 into flags
        self.unpack_flags(lower);
    }

    /* M Register */
    /// The memory byte addressed by HL.
    pub fn read_m(&mut self) -> (r: u8)
        requires
            old(self)@.addressable(old(self)@.hl()),
        ensures
            r == old(self)@.mem[old(self)@.hl()],
            final(self)@ == old(self)@,
            final(self).accesses() == old(self).accesses().push(
                Access::Read(old(self)@.hl() as u32),
            ),
    {
        let addr: u16 = self.read_hl();
        self.ram.read(addr as usize)
    }

    /// Stores `val` at the memory byte addressed by HL.
    pub fn write_m(&mut self, val: u8)
        requires
            old(self)@.addressable(old(self)@.hl()),
        ensures
            final(self)@ == old(self)@.with_reg(6, val),
            final(self).accesses() == old(self).accesses().push(
                Access::Write(old(self)@.hl() as u32, val),
            ),
    {
        let addr: u16 = self.read_hl();
        self.ram.write(addr as usize, val);
    }

    /// The program counter.
    pub fn program_counter(&self) -> (r: usize)
        ensures
            r == self@.pc,
    {
        self.pc
    }

    /// Sets the program counter.
    pub fn set_program_counter(&mut self, pc: usize)
        ensures
            final(self)@ == old(self)@.with_pc(pc as int),
    {
        self.pc = pc;
    }

    pub fn halted(&self) -> (r: bool)
        ensures
            r == self@.halt,
    {
        self.halt
    }

    pub fn halt(&mut self)
        ensures
            final(self)@ == (CpuState { halt: true, ..old(self)@ }),
    {
        self.halt = true;
    }

    pub fn unhalt(&mut self)
        ensures
            final(self)@ == (CpuState { halt: false, ..old(self)@ }),
    {
        self.halt = false;
    }

    /// The value of register `reg`; for `M`, the memory byte addressed by HL.
    pub fn read_reg(&mut self, reg: Reg) -> (r: u8)
        requires
            old(self)@.reg_ok(reg.code() as int),
        ensures
            r == old(self)@.reg(reg.code() as int),
            final(self)@ == old(self)@,
            final(self).accesses() == if reg == Reg::M {
                old(self).accesses().push(Access::Read(old(self)@.hl() as u32))
            } else {
                old(self).accesses()
            },
    {
        match reg {
            Reg::M => self.read_m(),
            _ => self.registers[slot(reg)],
        }
    }

    /// Sets register `reg` to `val`; for `M`, stores it at the memory byte addressed by HL.
    pub fn set_reg(&mut self, reg: Reg, val: u8)
        requires
            old(self)@.reg_ok(reg.code() as int),
        ensures
            final(self)@ == old(self)@.with_reg(reg.code() as int, val),
            final(self).accesses() == if reg == Reg::M {
                old(self).accesses().push(Access::Write(old(self)@.hl() as u32, val))
            } else {
                old(self).accesses()
            },
    {
        match reg {
            Reg::M => {
                self.write_m(val);
            },
            _ => {
                self.registers[slot(reg)] = val;
            },
        }
    }

    /// Sets sign, zero and parity from an 8-bit result.
    pub fn set_szp(&mut self, result: u8)
        ensures
            final(self)@ == old(self)@.with_szp(result),
    {
        self.sign = result >= 0x80;
        self.zero = result == 0;
        self.parity = count_ones(result) % 2 == 0;
    }

    /// Packs the flags into the flag byte `S Z 0 AC 0 P 1 C`.
    pub fn pack_flags(&self) -> (r: u8)
        ensures
            r == self@.flags_byte(),
    {
        let mut base: u8 = 0b0000_0010;  // bit 1 is always 1
        if self.sign {
            base = base + FLAG_S;
        }
        if self.zero {
            base = base + FLAG_Z;
        }
        if self.auxc {
            base = base + FLAG_AC;
        }
        if self.parity {
            base = base + FLAG_P;
        }
        if self.carry {
            base = base + FLAG_C;
        }
        base
    }

    /// Unpacks the flags from a flag byte `S Z 0 AC 0 P 1 C`.
    pub fn unpack_flags(&mut self, flags: u8)
        ensures
            final(self)@ == old(self)@.with_flags_byte(flags),
    {
        // u8 structure: S, Z, 0, A, 0, P, 1, C
        self.sign = (flags & 0x80) == 0x80;
        self.zero = (flags & 0x40) == 0x40;
        self.auxc = (flags & 0x10) == 0x10;
        self.parity = (flags & 0x04) == 0x04;
        self.carry = (flags & 0x01) == 0x01;
    }

    /// The opcode at the program counter.
    pub fn fetch_instruction(&mut self) -> (r: u8)
        requires
            old(self)@.addressable(old(self)@.pc as int),
        ensures
            r == old(self)@.mem[old(self)@.pc as int],
            final(self)@ == old(self)@,
            final(self).accesses() == old(self).accesses().push(
                Access::Read(old(self)@.pc as u32),
            ),
    {
        self.ram.read(self.pc)
    }

    /// The little-endian word at `pc + 1` and `pc + 2`.
    pub fn fetch_word(&mut self, pc: usize) -> (r: u16)
        requires
            pc + 2 <= usize::MAX,
            old(self)@.addressable(pc + 1),
            old(self)@.addressable(pc + 2),
        ensures
            r == old(self)@.word_at(pc + 1),
            final(self)@ == old(self)@,
            final(self).accesses() == old(self).accesses() + seq![
                Access::Read((pc + 1) as u32),
                Access::Read((pc + 2) as u32),
            ],
    {
        let ghost start = self.accesses();
        let lower: u8 = self.ram.read(pc + 1);
        let higher: u8 = self.ram.read(pc + 2);
        assert(self.accesses() =~= start + seq![
            Access::Read((pc + 1) as u32),
            Access::Read((pc + 2) as u32),
        ]);
        join_bytes(higher, lower)
    }

    /// The byte at `pc + 1`.
    pub fn fetch_byte(&mut self, pc: usize) -> (r: u8)
        requires
            pc + 1 <= usize::MAX,
            old(self)@.addressable(pc + 1),
        ensures
            r == old(self)@.mem[pc + 1],
            final(self)@ == old(self)@,
            final(self).accesses() == old(self).accesses().push(Access::Read((pc + 1) as u32)),
    {
        self.ram.read(pc + 1)
    }

    /// Pushes `word`: the high byte at SP - 1, the low byte at SP - 2.
    pub fn stack_push(&mut self, word: u16)
        requires
            old(self)@.can_push(),
        ensures
            final(self)@ == old(self)@.pushed(word as int),
            final(self).accesses() == old(self).accesses() + seq![
                Access::Write((old(self)@.sp - 1) as u32, high_byte(word as int)),
                Access::Write((old(self)@.sp - 2) as u32, low_byte(word as int)),
            ],
    {
        let ghost start = self.accesses();
        let (upper, lower) = split_word(word);
        self.sp = self.sp - 1;
        self.ram.write(self.sp, upper);
        self.sp = self.sp - 1;
        self.ram.write(self.sp, lower);
        assert(self.accesses() =~= start + seq![
            Access::Write((old(self)@.sp - 1) as u32, high_byte(word as int)),
            Access::Write((old(self)@.sp - 2) as u32, low_byte(word as int)),
        ]);
    }

    /// Pops the word on top of the stack.
    pub fn stack_pop(&mut self) -> (r: u16)
        requires
            old(self)@.can_pop(),
        ensures
            r == old(self)@.top(),
            final(self)@ == old(self)@.popped(),
            final(self).accesses() == old(self).accesses() + seq![
                Access::Read(old(self)@.sp as u32),
                Access::Read((old(self)@.sp + 1) as u32),
            ],
    {
        let ghost start = self.accesses();
        let lower: u8 = self.ram.read(self.sp);
        self.sp = self.sp + 1;
        let upper: u8 = self.ram.read(self.sp);
        self.sp = self.sp + 1;
        assert(self.accesses() =~= start + seq![
            Access::Read(old(self)@.sp as u32),
            Access::Read((old(self)@.sp + 1) as u32),
        ]);
        join_bytes(upper, lower)
    }

    /// Whether condition `cc` (0 NZ, 1 Z, 2 NC, 3 C, 4 PO, 5 PE, 6 P, 7 M) holds.
    fn condition(&self, cc: u8) -> (r: bool)
        ensures
            r == self@.condition(cc as int),
    {
        match cc {
            0 => !self.zero,
            1 => self.zero,
            2 => !self.carry,
            3 => self.carry,
            4 => !self.parity,
            5 => self.parity,
            6 => !self.sign,
            _ => self.sign,
        }
    }
}

impl<B: Memory> CPU<B> {
    /// Executes one instruction and advances the program counter past it (or to the
    /// target of a jump, call, return or restart).
    pub fn execute_instruction(&mut self, instruction: u8)
        requires
            ready(old(self)@, instruction),
        ensures
            final(self)@ == step(old(self)@, instruction),
    {
        match instruction {
            /* NOP Opcodes */
            0x00 | 0x10 | 0x20 | 0x30 | 0x08 | 0x18 | 0x28 | 0x38 => self.exec_control(instruction),
            /* Increments/Decrements */
            0x04 | 0x0C | 0x14 | 0x1C | 0x24 | 0x2C | 0x34 | 0x3C => self.exec_inr(instruction),
            0x05 | 0x0D | 0x15 | 0x1D | 0x25 | 0x2D | 0x35 | 0x3D => self.exec_dcr(instruction),
            0x03 | 0x13 | 0x23 | 0x33 => self.exec_inx(instruction),
            0x0B | 0x1B | 0x2B | 0x3B => self.exec_dcx(instruction),
            /* Misc Instructions */
            0x07 | 0x0F | 0x17 | 0x1F | 0x27 | 0x2F | 0x37 | 0x3F => self.exec_acc(instruction),
            /* Loads and Stores */
            0x02 | 0x12 | 0x0A | 0x1A => self.exec_stax_ldax(instruction),
            0x22 | 0x2A | 0x32 | 0x3A => self.exec_direct(instruction),
            0x01 | 0x11 | 0x21 | 0x31 => self.exec_lxi(instruction),
            /* MOV Instructions */
            0x06 | 0x16 | 0x26 | 0x36 | 0x0E | 0x1E | 0x2E | 0x3E => self.exec_mvi(instruction),
            0x40..=0x75 | 0x77..=0x7F => self.exec_mov(instruction),
            /* HLT */
            0x76 => self.exec_control(instruction),
            /* 8-bit Register Arithmetic */
            0x80..=0xBF => self.exec_alu(instruction),
            0xC6 | 0xCE | 0xD6 | 0xDE | 0xE6 | 0xEE | 0xF6 | 0xFE => self.exec_alu_imm(instruction),
            /* Jumps and Conditional Jumps */
            0xC2 | 0xCA | 0xD2 | 0xDA | 0xE2 | 0xEA | 0xF2 | 0xFA | 0xC3 | 0xCB => self.exec_jump(
                instruction,
            ),
            /* PUSH and POP */
            0xC1 | 0xD1 | 0xE1 | 0xF1 => self.exec_pop(instruction),
            0xC5 | 0xD5 | 0xE5 | 0xF5 => self.exec_push(instruction),
            /* Interrupt Enable/Disable */
            0xF3 | 0xFB => self.exec_control(instruction),
            /* CALL instructions */
            0xCD | 0xDD | 0xED | 0xFD | 0xC4 | 0xCC | 0xD4 | 0xDC | 0xE4 | 0xEC | 0xF4
            | 0xFC => self.exec_call(instruction),
            /* RET instructions */
            0xC9 | 0xD9 | 0xC0 | 0xC8 | 0xD0 | 0xD8 | 0xE0 | 0xE8 | 0xF0
            | 0xF8 => self.exec_ret(instruction),
            /* RST instructions */
            0xC7 | 0xD7 | 0xE7 | 0xF7 | 0xCF | 0xDF | 0xEF | 0xFF => self.exec_rst(instruction),
            /* Misc Instructions */
            0xE3 | 0xE9 | 0xEB | 0xF9 => self.exec_hl_ops(instruction),
            _ => {
                proof {
                    lemma_step_other(old(self)@, instruction);
                }
                self.pc = self.pc + 1;
            },
        }
    }

    /// NOP, HLT, DI, EI.
    fn exec_control(&mut self, instruction: u8)
        requires
            is_nop(instruction) || instruction == 0x76 || instruction == 0xF3 || instruction == 0xFB,
            ready(old(self)@, instruction),
        ensures
            final(self)@ == step(old(self)@, instruction),
    {
        proof {
            lemma_step_nop(old(self)@, instruction);
        }
        match instruction {
            0x76 => {
                self.halt = true;
            },
            0xF3 => {
                // DI
                self.interrupt_enable = false;
            },
            0xFB => {
                // EI
                self.interrupt_enable = true;
            },
            _ => {},
        }
        self.pc = self.pc + 1;
    }

    /// RST n: pushes the program counter of the RST itself and jumps to 8 * n.
    fn exec_rst(&mut self, instruction: u8)
        requires
            is_rst(instruction),
            ready(old(self)@, instruction),
        ensures
            final(self)@ == step(old(self)@, instruction),
    {
        proof {
            lemma_step_rst(old(self)@, instruction);
        }
        let new_pc: u16 = ((instruction / 8) % 8) as u16 * 8;
        // push old pc to stack (lower then upper)
        self.stack_push((self.pc % 0x10000) as u16);
        self.pc = new_pc as usize;
    }

    /// INR: increments a register; S Z P from the result, AC when the low nibble
    /// carried out.
    fn exec_inr(&mut self, instruction: u8)
        requires
            is_inr(instruction),
            ready(old(self)@, instruction),
        ensures
            final(self)@ == step(old(self)@, instruction),
    {
        proof {
            lemma_step_inr_dcr(old(self)@, instruction);
        }
        self.inr_dcr(instruction);
        self.pc = self.pc + 1;
    }

    /// DCR: decrements a register; S Z P from the result, AC when the low nibble
    /// was zero.
    fn exec_dcr(&mut self, instruction: u8)
        requires
            is_dcr(instruction),
            ready(old(self)@, instruction),
        ensures
            final(self)@ == step(old(self)@, instruction),
    {
        proof {
            lemma_step_inr_dcr(old(self)@, instruction);
        }
        self.inr_dcr(instruction);
        self.pc = self.pc + 1;
    }

    #[verifier::rlimit(40)]
    fn inr_dcr(&mut self, instruction: u8)
        requires
            is_inr(instruction) || is_dcr(instruction),
            old(self)@.reg_ok(dst_code(instruction)),
        ensures
            final(self)@ == inr_dcr(old(self)@, instruction),
    {
        let reg: Reg = Reg::from((instruction / 8) % 8);
        assert(reg.code() as int == dst_code(instruction));
        let val: u8 = self.read_reg(reg);
        let increment: bool = instruction % 8 == 4;
        let result: u8 = if increment {
            val.wrapping_add(1)
        } else {
            val.wrapping_sub(1)
        };
        // aux carry: out of the low nibble on increment, borrow into it on decrement
        let aux: bool = if increment {
            low_nibble(val) == 0x0F
        } else {
            low_nibble(val) == 0x00
        };
        assert(result == (if increment {
            (val + 1) % 256
        } else {
            (val + 255) % 256
        }));
        self.set_reg(reg, result);
        // use result to update flags (S, Z, A, P)
        self.set_szp(result);
        self.auxc = aux;
    }

    fn exec_inx(&mut self, instruction: u8)
        requires
            is_inx(instruction),
            ready(old(self)@, instruction),
        ensures
            final(self)@ == step(old(self)@, instruction),
    {
        proof {
            lemma_step_inx_dcx(old(self)@, instruction);
        }
        self.inx_dcx(instruction);
        self.pc = self.pc + 1;
    }

    fn exec_dcx(&mut self, instruction: u8)
        requires
            is_dcx(instruction),
            ready(old(self)@, instruction),
        ensures
            final(self)@ == step(old(self)@, instruction),
    {
        proof {
            lemma_step_inx_dcx(old(self)@, instruction);
        }
        self.inx_dcx(instruction);
        self.pc = self.pc + 1;
    }

    fn inx_dcx(&mut self, instruction: u8)
        requires
            is_inx(instruction) || is_dcx(instruction),
        ensures
            final(self)@ == inx_dcx(old(self)@, instruction),
    {
        let pair: u8 = (instruction / 16) % 4;
        if pair == 3 {
            // SP
            if instruction % 16 == 3 {
                self.sp = self.sp.wrapping_add(1);
            } else {
                self.sp = self.sp.wrapping_sub(1);
            }
        } else {
            self.step_pair(pair, instruction % 16 == 3);
        }
    }

    /// Increments (or decrements) register pair `pair` (0 BC, 1 DE, 2 HL), wrapping.
    fn step_pair(&mut self, pair: u8, increment: bool)
        requires
            pair < 3,
        ensures
            final(self)@ == old(self)@.with_pair(
                pair as int,
                (old(self)@.pair(pair as int) + (if increment {
                    1int
                } else {
                    65535
                })) % 65536,
            ),
    {
        let val: u16 = match pair {
            0b00 => self.read_bc(),
            0b01 => self.read_de(),
            _ => self.read_hl(),
        };
        let new_val: u16 = if increment {
            val.wrapping_add(1)
        } else {
            val.wrapping_sub(1)
        };
        match pair {
            0b00 => self.set_bc(new_val),
            0b01 => self.set_de(new_val),
            _ => self.set_hl(new_val),
        }
    }

    /// RLC, RRC, RAL, RAR, DAA, CMA, STC, CMC.
    fn exec_acc(&mut self, instruction: u8)
        requires
            is_acc_op(instruction),
            ready(old(self)@, instruction),
        ensures
            final(self)@ == step(old(self)@, instruction),
    {
        proof {
            lemma_step_acc(old(self)@, instruction);
        }
        match instruction {
            0x07 | 0x0F | 0x17 | 0x1F => self.rotate(instruction),
            0x27 => self.decimal_adjust(),
            _ => self.carry_ops(instruction),
        }
        self.pc = self.pc + 1;
    }

    /// RLC, RRC, RAL, RAR.
    #[verifier::spinoff_prover]
    #[verifier::rlimit(40)]
    fn rotate(&mut self, instruction: u8)
        requires
            instruction == 0x07 || instruction == 0x0F || instruction == 0x17 || instruction
                == 0x1F,
        ensures
            final(self)@ == acc_op(old(self)@, instruction),
    {
        let ghost s = old(self)@;
        let a: u8 = self.read_reg(Reg::A);
        let carry: u8 = if self.carry {
            1
        } else {
            0
        };
        proof {
            lemma_masks(a, carry);
            lemma_masks(a, (a & 0x80) >> 7);
            lemma_masks(a, a & 0x01);
        }
        match instruction {
            0x07 => {
                // RLC
                let msb: u8 = (a & 0x80) >> 7;
                self.set_reg(Reg::A, (a << 1) | msb);
                self.carry = msb == 1;
                assert(self@ == acc_op(s, instruction));
            },
            0x17 => {
                // RAL
                let msb: u8 = (a & 0x80) >> 7;
                self.set_reg(Reg::A, (a << 1) | carry);
                self.carry = msb == 1;
            },
            0x0F => {
                // RRC
                let lsb: u8 = a & 0x01;
                self.set_reg(Reg::A, (a >> 1) | (lsb << 7));
                self.carry = lsb == 1;
            },
            _ => {
                // RAR
                let lsb: u8 = a & 0x01;
                self.set_reg(Reg::A, (a >> 1) | (carry << 7));
                self.carry = lsb == 1;
            },
        }
    }

    /// DAA: adds 6 to correct the low digit when it is above 9 or AC is set, and 0x60 to
    /// correct the high digit when A is above 0x99 or CY is set.
    #[verifier::spinoff_prover]
    fn decimal_adjust(&mut self)
        ensures
            final(self)@ == acc_op(old(self)@, 0x27),
    {
        let a: u8 = self.read_reg(Reg::A);
        let mut adjustment: u8 = 0;
        if low_nibble(a) > 9 || self.auxc {
            adjustment = adjustment + 0x06;
            self.auxc = true;
        }
        if (a > 0x99) || self.carry {
            adjustment = adjustment + 0x60;
            self.carry = true;
        }
        let result: u8 = a.wrapping_add(adjustment);
        self.set_reg(Reg::A, result);
        self.set_szp(result);
    }

    /// CMA, STC, CMC.
    fn carry_ops(&mut self, instruction: u8)
        requires
            instruction == 0x2F || instruction == 0x37 || instruction == 0x3F,
        ensures
            final(self)@ == acc_op(old(self)@, instruction),
    {
        match instruction {
            0x2F => {
                // CMA
                let value = self.read_reg(Reg::A);
                self.set_reg(Reg::A, !value);
            },
            0x37 => {
                // STC
                self.carry = true;
            },
            _ => {
                // CMC
                self.carry = !self.carry;
            },
        }
    }

    /// STAX and LDAX: the accumulator stored to, or loaded from, the address in BC or DE.
    fn exec_stax_ldax(&mut self, instruction: u8)
        requires
            is_stax(instruction) || is_ldax(instruction),
            ready(old(self)@, instruction),
        ensures
            final(self)@ == step(old(self)@, instruction),
    {
        proof {
            lemma_step_stax_ldax(old(self)@, instruction);
        }
        let pair: u8 = (instruction / 16) % 2;
        let addr: u16 = if pair == 0 {
            self.read_bc()
        } else {
            self.read_de()
        };
        if instruction % 16 == 2 {
            let val: u8 = self.read_reg(Reg::A);
            self.ram.write(addr as usize, val);
        } else {
            let value = self.ram.read(addr as usize);
            self.set_reg(Reg::A, value);
        }
        self.pc = self.pc + 1;
    }

    /// SHLD, LHLD, STA, LDA.
    fn exec_direct(&mut self, instruction: u8)
        requires
            is_direct(instruction),
            ready(old(self)@, instruction),
        ensures
            final(self)@ == step(old(self)@, instruction),
    {
        proof {
            lemma_step_direct(old(self)@, instruction);
        }
        let addr: u16 = self.fetch_word(self.pc);
        match instruction {
            0x22 => {
                // SHLD a16
                // H -> MEM[a16], L -> MEM[a16+1]
                let mut value = self.read_reg(Reg::H);
                self.ram.write(addr as usize, value);
                value = self.read_reg(Reg::L);
                self.ram.write((addr + 1) as usize, value);
            },
            0x2A => {
                // LHLD a16
                let l_byte: u8 = self.ram.read(addr as usize);
                let h_byte: u8 = self.ram.read((addr + 1) as usize);
                self.set_reg(Reg::L, l_byte);
                self.set_reg(Reg::H, h_byte);
            },
            0x32 => {
                // STA a16
                let value = self.read_reg(Reg::A);
                self.ram.write(addr as usize, value);
            },
            _ => {
                // LDA a16
                let value = self.ram.read(addr as usize);
                self.set_reg(Reg::A, value);
            },
        }
        self.pc = self.pc + 3;
    }

    /// LXI rp, d16.
    fn exec_lxi(&mut self, instruction: u8)
        requires
            is_lxi(instruction),
            ready(old(self)@, instruction),
        ensures
            final(self)@ == step(old(self)@, instruction),
    {
        proof {
            lemma_step_lxi(old(self)@, instruction);
        }
        let lower: u8 = self.fetch_byte(self.pc);
        let upper: u8 = self.fetch_byte(self.pc + 1);
        // rp encoded in bits 5-4 of opcode
        let code: u8 = (instruction / 16) % 4;
        match code {
            0x00 => {
                self.set_reg(Reg::B, upper);
                self.set_reg(Reg::C, lower);
            },
            0x01 => {
                self.set_reg(Reg::D, upper);
                self.set_reg(Reg::E, lower);
            },
            0x02 => {
                self.set_reg(Reg::H, upper);
                self.set_reg(Reg::L, lower);
            },
            _ => {
                let concat: u16 = join_bytes(upper, lower);
                self.sp = concat as usize;
            },
        }
        self.pc = self.pc + 3;
    }

    /// MVI reg, d8.
    fn exec_mvi(&mut self, instruction: u8)
        requires
            is_mvi(instruction),
            ready(old(self)@, instruction),
        ensures
            final(self)@ == step(old(self)@, instruction),
    {
        proof {
            lemma_step_mvi(old(self)@, instruction);
        }
        let byte: u8 = self.fetch_byte(self.pc);
        // reg encoded in bits 5-3 of opcode
        let reg: Reg = Reg::from((instruction / 8) % 8);
        self.set_reg(reg, byte);
        self.pc = self.pc + 2;
    }

    /// MOV dst, src.
    #[verifier::rlimit(40)]
    fn exec_mov(&mut self, instruction: u8)
        requires
            is_mov(instruction),
            ready(old(self)@, instruction),
        ensures
            final(self)@ == step(old(self)@, instruction),
    {
        proof {
            lemma_step_mov(old(self)@, instruction);
        }
        let src: Reg = Reg::from(instruction % 8);
        let dst: Reg = Reg::from((instruction / 8) % 8);
        if src == Reg::M {
            // read mem at addr HL, store value in dst
            let value = self.read_m();
            self.set_reg(dst, value);
        } else if dst == Reg::M {
            // store value in src at mem addr HL
            let value = self.read_reg(src);
            self.write_m(value);
        } else {
            // reg -> reg mov
            let value: u8 = self.read_reg(src);
            self.set_reg(dst, value);
        }
        self.pc = self.pc + 1;
    }

    /// Applies arithmetic or logic operation `kind` to the accumulator and `b`.
    fn alu_apply(&mut self, kind: u8, b: u8)
        requires
            kind < 8,
            kind == 3 ==> !(old(self)@.carry && b == 255),
        ensures
            final(self)@ == alu(old(self)@, kind as int, b),
    {
        match kind {
            0 | 1 => self.alu_add(kind, b),
            2 | 3 | 7 => self.alu_sub(kind, b),
            _ => self.alu_logic(kind, b),
        }
    }

    /// ADD (kind 0) and ADC (kind 1).
    fn alu_add(&mut self, kind: u8, b: u8)
        requires
            kind == 0 || kind == 1,
        ensures
            final(self)@ == alu(old(self)@, kind as int, b),
    {
        let carry: u8 = if kind == 1 && self.carry {
            1
        } else {
            0
        };
        let a: u8 = self.read_reg(Reg::A);
        let result: u8 = a.wrapping_add(b).wrapping_add(carry);
        assert(result == ((a + b + carry) % 256) as u8);
        self.set_reg(Reg::A, result);
        self.set_szp(result);
        self.carry = (a as u16 + b as u16 + carry as u16) > 0x00FF;
        self.auxc = (low_nibble(a) + low_nibble(b) + carry) > 0xF;
    }

    /// SUB (kind 2), SBB (kind 3) and CMP (kind 7, flags only).
    fn alu_sub(&mut self, kind: u8, b: u8)
        requires
            kind == 2 || kind == 3 || kind == 7,
            kind == 3 ==> !(old(self)@.carry && b == 255),
        ensures
            final(self)@ == alu(old(self)@, kind as int, b),
    {
        let carry: u8 = if kind == 3 && self.carry {
            1
        } else {
            0
        };
        let a: u8 = self.read_reg(Reg::A);
        let result: u8 = a.wrapping_sub(b).wrapping_sub(carry);
        if kind == 3 {
            assert(result == ((a - b - carry + 512) % 256) as u8);
        } else {
            assert(result == ((a - b + 256) % 256) as u8);
        }
        if kind != 7 {
            self.set_reg(Reg::A, result);
        }
        self.set_szp(result);
        self.carry = a < (b + carry);
        self.auxc = low_nibble(a) < (low_nibble(b) + carry);
    }

    /// ANA (kind 4), XRA (kind 5), ORA (kind 6).
    fn alu_logic(&mut self, kind: u8, b: u8)
        requires
            kind == 4 || kind == 5 || kind == 6,
        ensures
            final(self)@ == alu(old(self)@, kind as int, b),
    {
        let a: u8 = self.read_reg(Reg::A);
        let result: u8 = if kind == 4 {
            a & b
        } else if kind == 5 {
            a ^ b
        } else {
            a | b
        };
        self.set_reg(Reg::A, result);
        self.set_szp(result);
        self.carry = false;
        self.auxc = kind == 4;
    }

    /// ADD, ADC, SUB, SBB, ANA, XRA, ORA, CMP with a register operand.
    fn exec_alu(&mut self, instruction: u8)
        requires
            is_alu(instruction),
            ready(old(self)@, instruction),
        ensures
            final(self)@ == step(old(self)@, instruction),
    {
        proof {
            lemma_step_alu(old(self)@, instruction);
        }
        let src_reg: Reg = Reg::from(instruction % 8);
        let b: u8 = self.read_reg(src_reg);
        self.alu_apply((instruction / 8) % 8, b);
        self.pc = self.pc + 1;
    }

    /// ADI, ACI, SUI, SBI, ANI, XRI, ORI, CPI with a byte operand.
    fn exec_alu_imm(&mut self, instruction: u8)
        requires
            is_alu_imm(instruction),
            ready(old(self)@, instruction),
        ensures
            final(self)@ == step(old(self)@, instruction),
    {
        proof {
            lemma_step_alu_imm(old(self)@, instruction);
        }
        let byte: u8 = self.fetch_byte(self.pc);
        let kind: u8 = (instruction / 8) % 8;
        self.alu_apply(kind, byte);
        self.pc = self.pc + 2;
    }

    /// JMP and the conditional jumps.
    fn exec_jump(&mut self, instruction: u8)
        requires
            is_jcc(instruction) || is_jmp(instruction),
            ready(old(self)@, instruction),
        ensures
            final(self)@ == step(old(self)@, instruction),
    {
        proof {
            lemma_step_jump(old(self)@, instruction);
        }
        if instruction % 8 == 3 || self.condition((instruction / 8) % 8) {
            let addr: u16 = self.fetch_word(self.pc);
            self.pc = addr as usize;
        } else {
            self.pc = self.pc + 3;
        }
    }

    /// POP rp.
    fn exec_pop(&mut self, instruction: u8)
        requires
            is_pop(instruction),
            ready(old(self)@, instruction),
        ensures
            final(self)@ == step(old(self)@, instruction),
    {
        proof {
            lemma_step_pop(old(self)@, instruction);
        }
        let word: u16 = self.stack_pop();
        let pair: u8 = (instruction / 16) % 4;
        match pair {
            0b00 => self.set_bc(word),
            0b01 => self.set_de(word),
            0b10 => self.set_hl(word),
            _ => self.set_psw(word),
        }
        self.pc = self.pc + 1;
    }

    /// PUSH rp.
    fn exec_push(&mut self, instruction: u8)
        requires
            is_push(instruction),
            ready(old(self)@, instruction),
        ensures
            final(self)@ == step(old(self)@, instruction),
    {
        proof {
            lemma_step_push(old(self)@, instruction);
        }
        let pair: u8 = (instruction / 16) % 4;
        let word: u16 = match pair {
            0b00 => self.read_bc(),
            0b01 => self.read_de(),
            0b10 => self.read_hl(),
            _ => self.read_psw(),
        };
        self.stack_push(word);
        self.pc = self.pc + 1;
    }

    /// CALL and the conditional calls: the operand word is fetched either way.
    fn exec_call(&mut self, instruction: u8)
        requires
            is_call(instruction) || is_ccc(instruction),
            ready(old(self)@, instruction),
        ensures
            final(self)@ == step(old(self)@, instruction),
    {
        proof {
            lemma_step_call(old(self)@, instruction);
        }
        let addr: u16 = self.fetch_word(self.pc);
        if instruction % 16 == 0x0D || self.condition((instruction / 8) % 8) {
            let store_pc: u16 = ((self.pc + 3) % 0x10000) as u16;
            self.stack_push(store_pc);
            self.pc = addr as usize;
        } else {
            self.pc = self.pc + 3;
        }
    }

    /// RET and the conditional returns.
    fn exec_ret(&mut self, instruction: u8)
        requires
            is_ret(instruction) || is_rcc(instruction),
            ready(old(self)@, instruction),
        ensures
            final(self)@ == step(old(self)@, instruction),
    {
        proof {
            lemma_step_ret(old(self)@, instruction);
        }
        if instruction % 16 == 0x09 || self.condition((instruction / 8) % 8) {
            let new_pc: u16 = self.stack_pop();
            self.pc = new_pc as usize;
        } else {
            self.pc = self.pc + 1;
        }
    }

    /// XTHL, PCHL, XCHG, SPHL.
    fn exec_hl_ops(&mut self, instruction: u8)
        requires
            instruction == 0xE3 || instruction == 0xE9 || instruction == 0xEB || instruction
                == 0xF9,
            ready(old(self)@, instruction),
        ensures
            final(self)@ == step(old(self)@, instruction),
    {
        proof {
            lemma_step_hl_ops(old(self)@, instruction);
        }
        match instruction {
            0xE3 => {
                // XTHL
                let temp_l: u8 = self.ram.read(self.sp);
                let temp_h: u8 = self.ram.read(self.sp + 1);
                let mut value = self.read_reg(Reg::L);
                self.ram.write(self.sp, value);
                value = self.read_reg(Reg::H);
                self.ram.write(self.sp + 1, value);
                self.set_reg(Reg::H, temp_h);
                self.set_reg(Reg::L, temp_l);
                self.pc = self.pc + 1;
            },
            0xE9 => {
                // PCHL (HL -> PC)
                self.pc = self.read_hl() as usize;
            },
            0xEB => {
                // XCHG: D <-> H, E <-> L
                let mut temp = self.read_reg(Reg::D);
                let mut value = self.read_reg(Reg::H);
                self.set_reg(Reg::D, value);
                self.set_reg(Reg::H, temp);
                temp = self.read_reg(Reg::E);
                value = self.read_reg(Reg::L);
                self.set_reg(Reg::E, value);
                self.set_reg(Reg::L, temp);
                self.pc = self.pc + 1;
            },
            _ => {
                // SPHL (HL -> SP)
                self.sp = self.read_hl() as usize;
                self.pc = self.pc + 1;
            },
        }
    }
}

} // verus!
