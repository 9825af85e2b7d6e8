//! The test-bench processor: an 8080 core with a subset of the instruction set and
//! its own 64 KiB memory.
use vstd::prelude::*;
use vstd::string::StringExecFns;
use crate::bits::{word, count_ones, join_bytes, split_word, low_nibble, lemma_masks};
use crate::bench::model::{
    BenchState, bench_step, bench_ready, inr_dcr, inx_dcx, rotate, stax_ldax, mov, alu,
    is_inr_dcr, is_inx_dcx, is_rotate, is_stax_ldax, is_mov, is_alu, is_pop, is_push,
    lemma_bench_inr_dcr, lemma_bench_inx_dcx, lemma_bench_rotate, lemma_bench_stax_ldax,
    lemma_bench_direct, lemma_bench_mov, lemma_bench_alu, lemma_bench_pop, lemma_bench_push,
    lemma_bench_control,
};
use crate::bench::ram::RAM;
use crate::cpu::reg_slot;
use crate::model::{dst_code, src_code, pair_code};

verus! {

// masks for flags
const FLAG_S: u8 = 0b1000_0000;  // Sign

const FLAG_Z: u8 = 0b0100_0000;  // Zero

const FLAG_AC: u8 = 0b0001_0000;  // Auxiliary Carry

const FLAG_P: u8 = 0b0000_0100;  // Parity

const FLAG_C: u8 = 0b0000_0001;  // Carry

/// A register operand of the test-bench processor; M (code 6) is handled apart from
/// the register file.
#[derive(Copy, Clone, Debug)]
pub enum Reg {
    B,
    C,
    D,
    E,
    H,
    L,
    A,
}

impl Reg {
    /// The register with code `x`; code 6 (M) is decoded apart from the register file,
    /// and codes above 7 do not occur.
    pub fn from_code(x: u8) -> (r: Reg)
        requires
            x < 8,
            x != 6,
        ensures
            r == (if x == 0 {
                Reg::B
            } else if x == 1 {
                Reg::C
            } else if x == 2 {
                Reg::D
            } else if x == 3 {
                Reg::E
            } else if x == 4 {
                Reg::H
            } else if x == 5 {
                Reg::L
            } else {
                Reg::A
            }),
    {
        match x {
            0b000 => Reg::B,
            0b001 => Reg::C,
            0b010 => Reg::D,
            0b011 => Reg::E,
            0b100 => Reg::H,
            0b101 => Reg::L,
            _ => Reg::A,
        }
    }
}

/// The register file slot of register code `reg` (0-5, 7): the code with its lowest bit
/// flipped.
fn slot_of(reg: u8) -> (r: usize)
    requires
        reg < 8,
    ensures
        r == reg_slot(reg as int),
        r < 8,
{
    proof {
        lemma_flip_low_bit(reg as usize);
    }
    reg as usize ^ 1
}

proof fn lemma_flip_low_bit(x: usize)
    by (bit_vector)
    requires
        x < 8,
    ensures
        x ^ 1 == (if x % 2 == 0 {
            x + 1
        } else {
            x - 1
        }),
        x ^ 1 < 8,
{
}

/// The test-bench processor and its memory.
#[derive(Clone, Copy)]
pub struct CPU {
    // registers
    registers: [u8; 8],
    // special registers
    pc: usize,
    sp: usize,
    // halt flag
    halt: bool,
    // interrupt enable
    interrupt_enable: bool,
    // other flags
    sign: bool,
    zero: bool,
    auxc: bool,
    parity: bool,
    carry: bool,
    // memory
    ram: RAM,
}

impl View for CPU {
    type V = BenchState;

    closed spec fn view(&self) -> BenchState {
        BenchState {
            regs: self.registers@,
            pc: self.pc,
            sp: self.sp,
            halt: self.halt,
            interrupt_enable: self.interrupt_enable,
            sign: self.sign,
            zero: self.zero,
            auxc: self.auxc,
            parity: self.parity,
            carry: self.carry,
            mem: self.ram.contents(),
        }
    }
}

/// The state at power-up: all registers, counters and flags zero.
pub open spec fn bench_power_up(mem: Seq<u8>) -> BenchState {
    BenchState {
        regs: Seq::new(8, |i: int| 0u8),
        pc: 0,
        sp: 0,
        halt: false,
        interrupt_enable: false,
        sign: false,
        zero: false,
        auxc: false,
        parity: false,
        carry: false,
        mem,
    }
}

/// The flag display `[SZAPC]`: each flag's letter when set, `.` when clear.
pub open spec fn flags_text(s: BenchState) -> Seq<char> {
    "["@ + (if s.sign {
        "S"@
    } else {
        "."@
    }) + (if s.zero {
        "Z"@
    } else {
        "."@
    }) + (if s.auxc {
        "A"@
    } else {
        "."@
    }) + (if s.parity {
        "P"@
    } else {
        "."@
    }) + (if s.carry {
        "C"@
    } else {
        "."@
    }) + "]"@
}

impl CPU {
    /// Eight register slots and 64 KiB of memory.
    pub proof fn lemma_wf(&self)
        ensures
            self@.wf(),
    {
        self.ram.lemma_size();
    }

    /// A processor at power-up with memory `ram`.
    pub fn new(ram: RAM) -> (r: Self)
        ensures
            r@ == bench_power_up(ram.contents()),
    {
        Self {
            registers: [0;8],
            pc: 0,
            sp: 0,
            halt: false,
            interrupt_enable: false,
            sign: false,
            zero: false,
            auxc: false,
            parity: false,
            carry: false,
            ram,
        }
    }

    /// Clears registers, counters and flags, and sets the stack pointer to 0xFFFF.
    pub fn reset(&mut self)
        ensures
            final(self)@ == (BenchState { sp: 0xFFFF, ..bench_power_up(old(self)@.mem) }),
    {
        self.registers = [0;8];
        self.pc = 0;
        self.sp = 0xFFFF;  // default value for now
        self.halt = false;
        self.interrupt_enable = false;
        self.sign = false;
        self.zero = false;
        self.auxc = false;
        self.parity = false;
        self.carry = false;
    }

    /// Slots 0 and 1 as a word, slot 0 high.
    pub fn read_bc(&self) -> (r: u16)
        ensures
            r == self@.bc(),
    {
        join_bytes(self.registers[0b000], self.registers[0b001])
    }

    /// Slots 2 and 3 as a word, slot 2 high.
    pub fn read_de(&self) -> (r: u16)
        ensures
            r == self@.de(),
    {
        join_bytes(self.registers[0b010], self.registers[0b011])
    }

    /// The HL pair: H the high byte, L the low byte.
    pub fn read_hl(&self) -> (r: u16)
        ensures
            r == self@.hl(),
    {
        // concatenation of H and L
        join_bytes(self.registers[0b101], self.registers[0b100])
    }

    /// A and the packed flags, A the high byte.
    pub fn read_psw(&self) -> (r: u16)
        ensures
            r == self@.psw(),
    {
        join_bytes(self.read_reg(0b111), self.pack_flags())
    }

    pub fn set_bc(&mut self, val: u16)
        ensures
            final(self)@ == old(self)@.with_pair(0, val as int),
    {
        let (upper, lower) = split_word(val);
        self.registers[0b000] = upper;
        self.registers[0b001] = lower;
    }

    pub fn set_de(&mut self, val: u16)
        ensures
            final(self)@ == old(self)@.with_pair(1, val as int),
    {
        let (upper, lower) = split_word(val);
        self.registers[0b010] = upper;
        self.registers[0b011] = lower;
    }

    pub fn set_hl(&mut self, val: u16)
        ensures
            final(self)@ == old(self)@.with_pair(2, val as int),
    {
        let (upper, lower) = split_word(val);
        self.registers[0b100] = upper;
        self.registers[0b101] = lower;
    }

    /// Slot 7 from the high byte, the flags from the low byte.
    pub fn set_psw(&mut self, val: u16)
        ensures
            final(self)@ == old(self)@.with_psw(val as int),
    {
        let (upper, lower) = split_word(val);
        self.registers[0b111] = upper;
        // unpack u8 into flags
        self.unpack_flags(lower);
    }

    /* M Register */
    /// The memory byte at HL.
    pub fn read_m(&self) -> (r: u8)
        ensures
            r == self@.mem[self@.hl()],
    {
        proof {
            self.lemma_wf();
        }
        let addr: u16 = self.read_hl();
        self.ram.read(addr as usize)
    }

    /// Stores `val` at the memory byte at HL.
    pub fn write_m(&mut self, val: u8)
        ensures
            final(self)@ == old(self)@.with_reg(6, val),
    {
        let addr: u16 = self.read_hl();
        self.ram.write(addr as usize, val);
    }

    /// The program counter, truncated to 16 bits.
    pub fn read_pc(&self) -> (r: u16)
        ensures
            r == self@.pc % 65536,
    {
        (self.pc % 0x10000) as u16
    }

    pub fn halted(&self) -> (r: bool)
        ensures
            r == self@.halt,
    {
        self.halt
    }

    pub fn read_sign(&self) -> (r: bool)
        ensures
            r == self@.sign,
    {
        self.sign
    }

    pub fn read_zero(&self) -> (r: bool)
        ensures
            r == self@.zero,
    {
        self.zero
    }

    pub fn read_auxc(&self) -> (r: bool)
        ensures
            r == self@.auxc,
    {
        self.auxc
    }

    pub fn read_parity(&self) -> (r: bool)
        ensures
            r == self@.parity,
    {
        self.parity
    }

    pub fn read_carry(&self) -> (r: bool)
        ensures
            r == self@.carry,
    {
        self.carry
    }

    pub fn set_pc(&mut self, val: u16)
        ensures
            final(self)@ == (BenchState { pc: val as usize, ..old(self)@ }),
    {
        self.pc = val as usize;
    }

    pub fn set_sp(&mut self, val: u16)
        ensures
            final(self)@ == (BenchState { sp: val as usize, ..old(self)@ }),
    {
        self.sp = val as usize;
    }

    /// Register `reg`: codes 0-5 and 7 from the register file, 6 the memory byte at
    /// HL, any other code 0.
    pub fn read_reg(&self, reg: u8) -> (r: u8)
        ensures
            r == self@.reg(reg as int),
    {
        match reg {
            0b000..=0b101 | 0b111 => { self.registers[slot_of(reg)] },
            0b110 => { self.read_m() },
            _ => { 0 },  // invalid register
        }
    }

    /// Sets register `reg`; code 6 stores to the memory byte at HL, any code above 7
    /// changes nothing.
    pub fn set_reg(&mut self, reg: u8, val: u8)
        ensures
            final(self)@ == old(self)@.with_reg(reg as int, val),
    {
        match reg {
            0b000..=0b101 | 0b111 => {
                self.registers[slot_of(reg)] = val;
            },
            0b110 => {
                self.write_m(val);
            },
            _ => {},  // invalid register
        }
    }

    /// Sets sign, zero and parity from an 8-bit result.
    pub fn set_szp(&mut self, result: u8)
        ensures
            final(self)@ == old(self)@.with_szp(result),
    {
        self.sign = result >= 0x80;
        self.zero = result == 0;
        self.parity = count_ones(result) % 2 == 0;
    }

    /// Packs the flags into `S Z 0 AC 0 P 1 C`.
    pub fn pack_flags(&self) -> (r: u8)
        ensures
            r == self@.flags_byte(),
    {
        let mut base: u8 = 0b0000_0010;  // bit 1 is always 1
        if self.sign {
            base = base + FLAG_S;
        }
        if self.zero {
            base = base + FLAG_Z;
        }
        if self.auxc {
            base = base + FLAG_AC;
        }
        if self.parity {
            base = base + FLAG_P;
        }
        if self.carry {
            base = base + FLAG_C;
        }
        base
    }

    /// Unpacks the flags from a flag byte `S Z 0 AC 0 P 1 C`.
    pub fn unpack_flags(&mut self, flags: u8)
        ensures
            final(self)@ == old(self)@.with_flags_byte(flags),
    {
        // u8 structure: S, Z, 0, A, 0, P, 1, C
        self.sign = (flags & 0x80) == 0x80;
        self.zero = (flags & 0x40) == 0x40;
        self.auxc = (flags & 0x10) == 0x10;
        self.parity = (flags & 0x04) == 0x04;
        self.carry = (flags & 0x01) == 0x01;
    }

    /// The flags as `[SZAPC]`, a `.` in place of each flag that is clear.
    pub fn format_flags(&self) -> (r: String)
        ensures
            r@ == flags_text(self@),
    {
        let mut text = String::from_str("[");
        text.append(if self.sign { "S" } else { "." });  // Sign
        text.append(if self.zero { "Z" } else { "." });  // Zero
        text.append(if self.auxc { "A" } else { "." });  // Aux Carry
        text.append(if self.parity { "P" } else { "." });  // Parity
        text.append(if self.carry { "C" } else { "." });  // Carry
        text.append("]");
        text
    }

    /// Whether the opcode at the program counter can be fetched and executed without an
    /// overflow or an access outside memory.
    pub fn can_step(&self) -> (r: bool)
        ensures
            r == (self@.pc < 65536 && bench_ready(self@, self@.mem[self@.pc as int])),
    {
        proof {
            reveal(bench_ready);
            self.lemma_wf();
        }
        if self.pc >= 0x10000 {
            return false;
        }
        let op = self.ram.read(self.pc);
        if op == 0x32 || op == 0x3A {
            self.pc + 2 < 0x10000
        } else if 0x98 <= op && op <= 0x9F {
            !(self.carry && self.read_reg(op % 8) == 255)
        } else if op >= 0xC0 && op % 16 == 1 {
            self.sp < 0xFFFF
        } else if op >= 0xC0 && op % 16 == 5 {
            2 <= self.sp && self.sp <= 0x10000
        } else {
            true
        }
    }

    /// The opcode at the program counter.
    pub fn fetch_instruction(&self) -> (r: u8)
        requires
            self@.pc < 65536,
        ensures
            r == self@.mem[self@.pc as int],
    {
        self.ram.read(self.pc)
    }
}

impl CPU {
    /// Executes one instruction; opcodes outside the implemented subset only advance
    /// the program counter.
    pub fn execute_instruction(&mut self, instruction: u8)
        requires
            bench_ready(old(self)@, instruction),
        ensures
            final(self)@ == bench_step(old(self)@, instruction),
    {
        proof {
            self.lemma_wf();
        }
        match instruction {
            0x04 | 0x0C | 0x14 | 0x1C | 0x24 | 0x2C | 0x34 | 0x3C | 0x05 | 0x0D | 0x15 | 0x1D
            | 0x25 | 0x2D | 0x35 | 0x3D => self.exec_inr_dcr(instruction),
            0x03 | 0x13 | 0x23 | 0x33 | 0x0B | 0x1B | 0x2B | 0x3B => self.exec_inx_dcx(instruction),
            0x07 | 0x17 | 0x0F | 0x1F | 0x2F | 0x3F => self.exec_rotate(instruction),
            0x02 | 0x12 | 0x0A | 0x1A => self.exec_stax_ldax(instruction),
            0x32 | 0x3A => self.exec_direct(instruction),
            0x40..=0x75 | 0x77..=0x7F => self.exec_mov(instruction),
            0x80..=0xBF => self.exec_alu(instruction),
            0xC1 | 0xD1 | 0xE1 | 0xF1 => self.exec_pop(instruction),
            0xC5 | 0xD5 | 0xE5 | 0xF5 => self.exec_push(instruction),
            _ => self.exec_control(instruction),
        }
    }

    fn exec_inr_dcr(&mut self, instruction: u8)
        requires
            is_inr_dcr(instruction),
            bench_ready(old(self)@, instruction),
        ensures
            final(self)@ == bench_step(old(self)@, instruction),
    {
        proof {
            lemma_bench_inr_dcr(old(self)@, instruction);
        }
        self.inr_dcr(instruction);
        self.pc = self.pc + 1;
    }

    /// INR and DCR: the register changed by one; S Z P from the result, AC from the low
    /// nibble.
    fn inr_dcr(&mut self, instruction: u8)
        requires
            is_inr_dcr(instruction),
        ensures
            final(self)@ == inr_dcr(old(self)@, instruction),
    {
        // look at bits 5-3 for register number
        let reg: u8 = (instruction / 8) % 8;
        let val: u8 = self.read_reg(reg);
        let increment: bool = instruction % 8 == 4;
        let result: u8 = if increment {
            val.wrapping_add(1)
        } else {
            val.wrapping_sub(1)
        };
        let aux: bool = if increment {
            low_nibble(val) == 0x0F
        } else {
            low_nibble(val) == 0x00
        };
        assert(result == (if increment {
            (val + 1) % 256
        } else {
            (val + 255) % 256
        }));
        self.set_reg(reg, result);
        self.set_szp(result);
        self.auxc = aux;
    }

    fn exec_inx_dcx(&mut self, instruction: u8)
        requires
            is_inx_dcx(instruction),
            bench_ready(old(self)@, instruction),
        ensures
            final(self)@ == bench_step(old(self)@, instruction),
    {
        proof {
            lemma_bench_inx_dcx(old(self)@, instruction);
        }
        self.inx_dcx(instruction);
        self.pc = self.pc + 1;
    }

    fn inx_dcx(&mut self, instruction: u8)
        requires
            is_inx_dcx(instruction),
        ensures
            final(self)@ == inx_dcx(old(self)@, instruction),
    {
        let pair: u8 = (instruction / 16) % 4;
        let increment: bool = instruction % 16 == 3;
        if pair == 3 {
            // SP
            self.sp = if increment {
                self.sp.wrapping_add(1)
            } else {
                self.sp.wrapping_sub(1)
            };
        } else {
            self.step_pair(pair, increment);
        }
    }

    /// Increments (or decrements) register pair `pair`, wrapping.
    fn step_pair(&mut self, pair: u8, increment: bool)
        requires
            pair < 3,
        ensures
            final(self)@ == old(self)@.with_pair(
                pair as int,
                (old(self)@.pair(pair as int) + (if increment {
                    1int
                } else {
                    65535
                })) % 65536,
            ),
    {
        let val: u16 = match pair {
            0b00 => self.read_bc(),
            0b01 => self.read_de(),
            _ => self.read_hl(),
        };
        let new_val: u16 = if increment {
            val.wrapping_add(1)
        } else {
            val.wrapping_sub(1)
        };
        match pair {
            0b00 => self.set_bc(new_val),
            0b01 => self.set_de(new_val),
            _ => self.set_hl(new_val),
        }
    }

    fn exec_rotate(&mut self, instruction: u8)
        requires
            is_rotate(instruction),
            bench_ready(old(self)@, instruction),
        ensures
            final(self)@ == bench_step(old(self)@, instruction),
    {
        proof {
            lemma_bench_rotate(old(self)@, instruction);
        }
        self.rotate(instruction);
        self.pc = self.pc + 1;
    }

    /// RLC, RAL, RRC, RAR, CMA, CMC.
    fn rotate(&mut self, instruction: u8)
        requires
            is_rotate(instruction),
        ensures
            final(self)@ == rotate(old(self)@, instruction),
    {
        let a: u8 = self.read_reg(0b111);
        let carry: u8 = if self.carry {
            1
        } else {
            0
        };
        proof {
            lemma_masks(a, carry);
            lemma_masks(a, (a & 0x80) >> 7);
            lemma_masks(a, a & 0x01);
        }
        match instruction {
            0x07 => {
                // RLC
                let msb: u8 = (a & 0x80) >> 7;
                self.set_reg(0b111, (a << 1) | msb);
                self.carry = msb == 1;
            },
            0x17 => {
                // RAL
                let msb: u8 = (a & 0x80) >> 7;
                self.set_reg(0b111, (a << 1) | carry);
                self.carry = msb == 1;
            },
            0x0F => {
                // RRC
                let lsb: u8 = a & 0x01;
                self.set_reg(0b111, (a >> 1) | (lsb << 7));
                self.carry = lsb == 1;
            },
            0x1F => {
                // RAR
                let lsb: u8 = a & 0x01;
                self.set_reg(0b111, (a >> 1) | (carry << 7));
                self.carry = lsb == 1;
            },
            0x2F => {
                // CMA
                self.set_reg(0b111, !a);
            },
            _ => {
                // CMC
                self.carry = !self.carry;
            },
        }
    }

    fn exec_stax_ldax(&mut self, instruction: u8)
        requires
            is_stax_ldax(instruction),
            bench_ready(old(self)@, instruction),
        ensures
            final(self)@ == bench_step(old(self)@, instruction),
    {
        proof {
            lemma_bench_stax_ldax(old(self)@, instruction);
            self.lemma_wf();
        }
        let pair: u8 = (instruction / 16) % 2;
        let addr: u16 = if pair == 0 {
            self.read_bc()
        } else {
            self.read_de()
        };
        if instruction % 16 == 2 {
            // STAX
            let val: u8 = self.read_reg(0b111);
            self.ram.write(addr as usize, val);
        } else {
            // LDAX
            let value: u8 = self.ram.read(addr as usize);
            self.set_reg(0b111, value);
        }
        self.pc = self.pc + 1;
    }

    /// STA a16 and LDA a16, the address in the two bytes after the opcode.
    fn exec_direct(&mut self, instruction: u8)
        requires
            instruction == 0x32 || instruction == 0x3A,
            bench_ready(old(self)@, instruction),
        ensures
            final(self)@ == bench_step(old(self)@, instruction),
    {
        proof {
            lemma_bench_direct(old(self)@, instruction);
            self.lemma_wf();
        }
        let lower: u8 = self.ram.read(self.pc + 1);
        let upper: u8 = self.ram.read(self.pc + 2);
        let addr: u16 = join_bytes(upper, lower);
        if instruction == 0x32 {
            let value: u8 = self.read_reg(0b111);
            self.ram.write(addr as usize, value);
        } else {
            let value: u8 = self.ram.read(addr as usize);
            self.set_reg(0b111, value);
        }
        self.pc = self.pc + 3;
    }

    fn exec_mov(&mut self, instruction: u8)
        requires
            is_mov(instruction),
            bench_ready(old(self)@, instruction),
        ensures
            final(self)@ == bench_step(old(self)@, instruction),
    {
        proof {
            lemma_bench_mov(old(self)@, instruction);
        }
        let src: u8 = instruction % 8;
        let dst: u8 = (instruction / 8) % 8;
        if src == 0b101 {
            // read mem at addr HL, store value in dst
            let value: u8 = self.read_m();
            self.set_reg(dst, value);
        } else if dst == 0b101 {
            // store value in src at mem addr HL
            let value: u8 = self.read_reg(src);
            self.write_m(value);
        } else {
            // reg -> reg mov
            let value: u8 = self.read_reg(src);
            self.set_reg(dst, value);
        }
        self.pc = self.pc + 1;
    }

    fn exec_alu(&mut self, instruction: u8)
        requires
            is_alu(instruction),
            bench_ready(old(self)@, instruction),
        ensures
            final(self)@ == bench_step(old(self)@, instruction),
    {
        proof {
            lemma_bench_alu(old(self)@, instruction);
        }
        let src_reg: u8 = instruction % 8;
        let kind: u8 = (instruction / 8) % 8;
        let b: u8 = self.read_reg(src_reg);
        if kind <= 1 {
            self.alu_add(kind, b);
        } else if kind == 2 || kind == 3 || kind == 7 {
            self.alu_sub(kind, b);
        } else {
            self.alu_logic(kind, b);
        }
        self.pc = self.pc + 1;
    }

    /// ADD and ADC: carry and auxiliary carry from A + b alone.
    fn alu_add(&mut self, kind: u8, b: u8)
        requires
            kind == 0 || kind == 1,
        ensures
            final(self)@ == alu(old(self)@, kind as int, b),
    {
        let mut carry: u8 = 0;
        if self.carry && kind == 1 {
            carry = 1;
        }
        let a: u8 = self.read_reg(0b111);
        let result: u8 = a.wrapping_add(b).wrapping_add(carry);
        assert(result == ((a + b + carry) % 256) as u8);
        self.set_reg(0b111, result);
        self.set_szp(result);
        self.carry = (a as u16 + b as u16) > 0x00FF;
        self.auxc = (low_nibble(a) + low_nibble(b)) > 0xF;
    }

    /// SUB, SBB and CMP (flags only).
    fn alu_sub(&mut self, kind: u8, b: u8)
        requires
            kind == 2 || kind == 3 || kind == 7,
            kind == 3 ==> !(old(self)@.carry && b == 255),
        ensures
            final(self)@ == alu(old(self)@, kind as int, b),
    {
        let mut carry: u8 = 0;
        if self.carry && kind == 3 {
            carry = 1;
        }
        let a: u8 = self.read_reg(0b111);
        let result: u8 = a.wrapping_sub(b).wrapping_sub(carry);
        if kind == 3 {
            assert(result == ((a - b - carry + 512) % 256) as u8);
        } else {
            assert(result == ((a - b + 256) % 256) as u8);
        }
        if kind != 7 {
            self.set_reg(0b111, result);
        }
        self.set_szp(result);
        self.carry = a < (b + carry);
        self.auxc = low_nibble(a) < (low_nibble(b) + carry);
    }

    /// ANA, XRA, ORA.
    fn alu_logic(&mut self, kind: u8, b: u8)
        requires
            kind == 4 || kind == 5 || kind == 6,
        ensures
            final(self)@ == alu(old(self)@, kind as int, b),
    {
        let a: u8 = self.read_reg(0b111);
        let result: u8 = if kind == 4 {
            a & b
        } else if kind == 5 {
            a ^ b
        } else {
            a | b
        };
        self.set_reg(0b111, result);
        self.set_szp(result);
        self.carry = false;
        self.auxc = kind == 4;
    }

    fn exec_pop(&mut self, instruction: u8)
        requires
            is_pop(instruction),
            bench_ready(old(self)@, instruction),
        ensures
            final(self)@ == bench_step(old(self)@, instruction),
    {
        proof {
            lemma_bench_pop(old(self)@, instruction);
            self.lemma_wf();
        }
        let lower: u8 = self.ram.read(self.sp);
        self.sp = self.sp + 1;
        let upper: u8 = self.ram.read(self.sp);
        self.sp = self.sp + 1;
        let word: u16 = join_bytes(upper, lower);
        let pair: u8 = (instruction / 16) % 4;
        match pair {
            0b00 => self.set_bc(word),
            0b01 => self.set_de(word),
            0b10 => self.set_hl(word),
            _ => self.set_psw(word),
        }
        self.pc = self.pc + 1;
    }

    fn exec_push(&mut self, instruction: u8)
        requires
            is_push(instruction),
            bench_ready(old(self)@, instruction),
        ensures
            final(self)@ == bench_step(old(self)@, instruction),
    {
        proof {
            lemma_bench_push(old(self)@, instruction);
            self.lemma_wf();
        }
        let pair: u8 = (instruction / 16) % 4;
        let word: u16 = match pair {
            0b00 => self.read_bc(),
            0b01 => self.read_de(),
            0b10 => self.read_hl(),
            _ => self.read_psw(),
        };
        let (upper, lower) = split_word(word);
        self.sp = self.sp - 1;
        self.ram.write(self.sp, upper);
        self.sp = self.sp - 1;
        self.ram.write(self.sp, lower);
        self.pc = self.pc + 1;
    }

    /// HLT, DI, EI, and the opcodes the bench leaves unimplemented.
    fn exec_control(&mut self, instruction: u8)
        requires
            !is_inr_dcr(instruction) && !is_inx_dcx(instruction) && !is_rotate(instruction)
                && !is_stax_ldax(instruction) && instruction != 0x32 && instruction != 0x3A
                && !is_mov(instruction) && !is_alu(instruction) && !is_pop(instruction) && !is_push(
                instruction,
            ),
            bench_ready(old(self)@, instruction),
        ensures
            final(self)@ == bench_step(old(self)@, instruction),
    {
        proof {
            lemma_bench_control(old(self)@, instruction);
        }
        match instruction {
            0x76 => {
                self.halt = true;
            },
            0xF3 => {
                // DI
                self.interrupt_enable = false;
            },
            0xFB => {
                // EI
                self.interrupt_enable = true;
            },
            _ => {},
        }
        self.pc = self.pc + 1;
    }
}

} // verus!
