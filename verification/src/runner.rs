//! The runner card: a register-level processor model that listens to an external
//! clock, and its packed flag register.
use vstd::prelude::*;
use crate::bits::{count_ones, even_parity};

verus! {

/// The sign, zero and parity bits of an 8-bit result, in flag-byte positions.
pub open spec fn szp_bits(r: u8) -> int {
    (if r >= 128 { 0x80int } else { 0 }) + (if r == 0 { 0x40int } else { 0 }) + (if even_parity(r) {
        0x04int
    } else {
        0
    })
}

proof fn lemma_carry_bit(x: u8)
    by (bit_vector)
    ensures
        x & 0x01 == x % 2,
{
}

proof fn lemma_inr_aux(b: u8)
    by (bit_vector)
    ensures
        ((((b & 0xF) + (1u8 & 0xF) + 0u8) as u8) & 0x10 != 0) == (b % 16 == 15),
{
}

/// The flag register of the runner: sign, zero, parity and carry kept in their bit
/// positions, the auxiliary carry kept as the inputs it is computed from.
#[derive(Debug, Clone, Copy)]
pub struct Flags {
    szpc: u8,  // sign, zero, 0, 0, 0, parity, 0, carry
    aux_input: (u8, u8, u8, bool),  // aux carry calculations input
}

impl Flags {
    /// The carry-in of the auxiliary-carry inputs is small enough that the nibble sum
    /// fits a byte.
    #[verifier::type_invariant]
    spec fn inv(self) -> bool {
        self.aux_input.2 <= 225
    }

    /// The sign, zero, parity and carry bits, in flag-byte positions.
    pub closed spec fn szpc(self) -> u8 {
        self.szpc
    }

    /// The two operands, the carry-in and the forced value the auxiliary carry is
    /// computed from.
    pub closed spec fn aux_input(self) -> (u8, u8, u8, bool) {
        self.aux_input
    }

    /// The auxiliary carry: forced, or a carry out of bit 3 of the nibble sum.
    pub open spec fn aux_spec(self) -> bool {
        let (a, b, c, f) = self.aux_input();
        f || (((a & 0xF) + (b & 0xF) + c) as u8) & 0x10 != 0
    }

    // sign is bit 7 of flags
    pub fn sign(&self) -> (r: bool)
        ensures
            r == (self.szpc() & 0x80 != 0),
    {
        (self.szpc & 0x80) != 0
    }

    // parity is bit 2 of flags
    pub fn parity(&self) -> (r: bool)
        ensures
            r == (self.szpc() & 0x04 != 0),
    {
        (self.szpc & 0x04) != 0
    }

    // zero is bit 6 of flags
    pub fn zero(&self) -> (r: bool)
        ensures
            r == (self.szpc() & 0x40 != 0),
    {
        (self.szpc & 0x40) != 0
    }

    // carry is bit 0 of flags
    pub fn carry(&self) -> (r: bool)
        ensures
            r == (self.szpc() & 0x01 != 0),
    {
        (self.szpc & 0x01) != 0
    }

    /// The auxiliary carry, which would be bit 4 of the flag byte.
    pub fn aux(&self) -> (r: bool)
        ensures
            r == self.aux_spec(),
    {
        proof {
            use_type_invariant(self);
        }
        let (a, b, c, f) = self.aux_input;
        proof {
            lemma_nibble_sum_fits(a, b, c);
        }
        let nibble_carry: bool = ((a & 0xF) + (b & 0xF) + c) & 0x10 != 0;
        f || nibble_carry
    }

    /// The flags as the low byte of a PSW word: the stored bits, bit 1 always set, and
    /// the auxiliary carry at bit 4.
    pub fn pack_flags(&self) -> (r: u16)
        ensures
            r == (self.szpc() as u16) | 0x0002 | ((if self.aux_spec() {
                1u16
            } else {
                0u16
            }) << 4),
    {
        let aux: u16 = if self.aux() {
            1
        } else {
            0
        };
        u16::from(self.szpc) | 0x0002 | (aux << 4)
    }

    /// Takes sign, zero, parity and carry from the low byte of `psw`, and forces the
    /// auxiliary carry to its bit 4.
    pub fn unpack_flags(&mut self, psw: u16)
        ensures
            final(self).szpc() == ((psw % 256) as u8) & 0b1100_0101,
            final(self).aux_input() == (0u8, 0u8, 0u8, (psw & 0x0010) != 0),
    {
        // truncate psw into flags register, unpack
        proof {
            use_type_invariant(&*self);
        }
        self.szpc = ((psw % 256) as u8) & 0b1100_0101;
        self.aux_input = (0, 0, 0, (psw & 0x0010) != 0);
    }
}

proof fn lemma_nibble_sum_fits(a: u8, b: u8, c: u8)
    by (bit_vector)
    requires
        c <= 225,
    ensures
        (a & 0xF) + (b & 0xF) + c <= 255,
{
}

/// After INR B the stored flag bits say of the new B what their names say: zero (bit 6)
/// exactly when B wrapped to 0, sign (bit 7) exactly when its bit 7 is set, parity (bit 2)
/// exactly when it has an even number of one bits; the carry (bit 0) is kept.
pub proof fn law_runner_increment_flags(b: u8, szpc: u8)
    ensures
        ({
            let res = ((b + 1) % 256) as u8;
            let bits = ((szpc & 0x01) + szp_bits(res)) as u8;
            &&& (bits & 0x40 != 0) == (b == 255)
            &&& (bits & 0x80 != 0) == (res >= 128)
            &&& (bits & 0x04 != 0) == even_parity(res)
            &&& bits & 0x01 == szpc & 0x01
        }),
{
    let res = ((b + 1) % 256) as u8;
    let c = szpc & 0x01;
    let sb: u8 = if res >= 128 { 1 } else { 0 };
    let zb: u8 = if res == 0 { 1 } else { 0 };
    let pb: u8 = if even_parity(res) { 1 } else { 0 };
    assert(c <= 1) by (bit_vector)
        requires
            c == szpc & 0x01,
    ;
    assert(((c + 128 * sb + 64 * zb + 4 * pb) as u8 & 0x40 != 0) == (zb == 1) && ((c + 128 * sb
        + 64 * zb + 4 * pb) as u8 & 0x80 != 0) == (sb == 1) && ((c + 128 * sb + 64 * zb + 4 * pb) as u8
        & 0x04 != 0) == (pb == 1) && (c + 128 * sb + 64 * zb + 4 * pb) as u8 & 0x01 == c)
        by (bit_vector)
        requires
            c <= 1,
            sb <= 1,
            zb <= 1,
            pb <= 1,
    ;
}

impl Default for Flags {
    fn default() -> (r: Flags)
        ensures
            r.szpc() == 0,
            r.aux_input() == (0u8, 0u8, 0u8, false),
    {
        Flags { szpc: 0, aux_input: (0, 0, 0, false) }
    }
}

/// Unpacking a PSW and packing the flags again keeps bits 7, 6, 4, 2 and 0 of its low
/// byte, sets bit 1, and clears the rest.
pub proof fn law_pack_after_unpack(psw: u16, szpc: u8, aux: bool)
    requires
        szpc == ((psw % 256) as u8) & 0b1100_0101,
        aux == ((psw & 0x0010) != 0),
    ensures
        ((szpc as u16) | 0x0002 | ((if aux {
            1u16
        } else {
            0u16
        }) << 4)) == (psw & 0x00D5) | 0x0002,
{
    let low: u8 = (psw % 256) as u8;
    assert(((low & 0b1100_0101) as u16) | 0x0002 | ((if (psw & 0x0010) != 0 {
        1u16
    } else {
        0u16
    }) << 4) == (psw & 0x00D5) | 0x0002) by (bit_vector)
        requires
            low == (psw % 256) as u8,
    ;
}

/// The runner's processor: seven byte registers, counters, flags and latches.
pub struct CPU {
    // 8-bit general-purpose registers (7 total)
    pub a: u8,  // Accumulator
    pub b: u8,
    pub c: u8,
    pub d: u8,
    pub e: u8,
    pub h: u8,
    pub l: u8,
    // Special registers
    pub stack_pointer: usize,  // Stack Pointer
    pub program_counter: usize,  // Program Counter
    // Flags
    pub flags: Flags,
    pub interrupt_enable: bool,  // interrupt enable, not part of flags register
    pub halt: bool,  // true if cpu is halted
}

impl CPU {
    /// The registers, counters and latches are all clear.
    pub open spec fn is_clear(&self) -> bool {
        &&& self.a == 0 && self.b == 0 && self.c == 0 && self.d == 0
        &&& self.e == 0 && self.h == 0 && self.l == 0
        &&& self.stack_pointer == 0 && self.program_counter == 0
        &&& self.flags.szpc() == 0 && self.flags.aux_input() == (0u8, 0u8, 0u8, false)
        &&& !self.interrupt_enable && !self.halt
    }

    /// A processor with every register set to 0.
    pub fn new() -> (r: Self)
        ensures
            r.is_clear(),
    {
        CPU {
            a: 0,
            b: 0,
            c: 0,
            d: 0,
            e: 0,
            h: 0,
            l: 0,
            stack_pointer: 0,
            program_counter: 0,
            flags: Flags::default(),
            interrupt_enable: false,
            halt: false,
        }
    }

    /// Clears the registers, counters, flags and latches.
    pub fn reset(&mut self)
        ensures
            final(self).is_clear(),
    {
        self.program_counter = 0;
        self.interrupt_enable = false;  // only enable interrupts after EI instr
        // reset registers
        self.a = 0;
        self.b = 0;
        self.c = 0;
        self.d = 0;
        self.e = 0;
        self.h = 0;
        self.l = 0;
        self.stack_pointer = 0;
        self.flags = Flags::default();
        self.halt = false;
    }

    /// The program counter, truncated to 16 bits.
    pub fn read_pc(&self) -> (r: u16)
        ensures
            r == self.program_counter % 65536,
    {
        (self.program_counter % 0x10000) as u16
    }

    /// The stack pointer, truncated to 16 bits.
    pub fn read_sp(&self) -> (r: u16)
        ensures
            r == self.stack_pointer % 65536,
    {
        (self.stack_pointer % 0x10000) as u16
    }

    pub fn set_interrupt_enable(&mut self, enable: bool)
        ensures
            *final(self) == (CPU { interrupt_enable: enable, ..*old(self) }),
    {
        self.interrupt_enable = enable;
    }

    pub fn jump(&mut self, jump_addr: u16)
        ensures
            *final(self) == (CPU { program_counter: jump_addr as usize, ..*old(self) }),
    {
        self.program_counter = jump_addr as usize;
    }

    /// Executes one cycle of an instruction: nothing while halted; HLT halts; INR B
    /// increments B, sets S, Z and P from the result and the auxiliary carry from its low
    /// nibble, and keeps the carry; every other opcode is left alone (MVI A takes its
    /// operand through `execute_with_operand`).
    pub fn execute_instruction(&mut self, instruction: u8, cycle_num: u8)
        ensures
            old(self).halt ==> *final(self) == *old(self),
            !old(self).halt && instruction == 0x76 ==> *final(self) == (CPU {
                halt: true,
                ..*old(self)
            }),
            !old(self).halt && instruction == 0x04 ==> {
                let res = ((old(self).b + 1) % 256) as u8;
                &&& *final(self) == (CPU { b: res, flags: final(self).flags, ..*old(self) })
                &&& final(self).flags.szpc() == ((old(self).flags.szpc() & 0x01) + szp_bits(
                    res,
                )) as u8
                &&& final(self).flags.aux_input() == (old(self).b, 1u8, 0u8, false)
                &&& final(self).flags.aux_spec() == (old(self).b % 16 == 15)
            },
            !old(self).halt && instruction != 0x76 && instruction != 0x04 ==> *final(self)
                == *old(self),
    {
        // do nothing if halt is asserted
        if self.halt == false {
            match instruction {
                0x00 => {  /* NOP (No Operation) */
                },
                0x76 => {
                    self.halt();
                },  // HLT (Halt)
                0x04 => {
                    self.increment_b();
                },  // INR B
                _ => {  /* Handle other instructions */
                },
            }
        }
    }

    /// INR B: B incremented (wrapping), S Z P from the result, the auxiliary carry from
    /// the low nibble, the carry kept.
    fn increment_b(&mut self)
        ensures
            ({
                let res = ((old(self).b + 1) % 256) as u8;
                &&& *final(self) == (CPU { b: res, flags: final(self).flags, ..*old(self) })
                &&& final(self).flags.szpc() == ((old(self).flags.szpc() & 0x01) + szp_bits(
                    res,
                )) as u8
                &&& final(self).flags.aux_input() == (old(self).b, 1u8, 0u8, false)
                &&& final(self).flags.aux_spec() == (old(self).b % 16 == 15)
            }),
    {
        let val: u8 = self.b;
        let result: u8 = if val == 255 {
            0
        } else {
            val + 1
        };
        let mut bits: u8 = self.flags.szpc % 2;
        proof {
            lemma_carry_bit(self.flags.szpc);
            lemma_inr_aux(val);
        }
        if result >= 0x80 {
            bits = bits + 0x80;
        }
        if result == 0 {
            bits = bits + 0x40;
        }
        if count_ones(result) % 2 == 0 {
            bits = bits + 0x04;
        }
        self.b = result;
        self.flags = Flags { szpc: bits, aux_input: (val, 1, 0, false) };
    }

    /// Executes an instruction whose one-byte operand has been read from the bus: MVI A
    /// loads it into A; nothing happens while halted or for any other opcode.
    pub fn execute_with_operand(&mut self, instruction: u8, operand: u8)
        ensures
            !old(self).halt && instruction == 0x3E ==> *final(self) == (CPU {
                a: operand,
                ..*old(self)
            }),
            old(self).halt || instruction != 0x3E ==> *final(self) == *old(self),
    {
        if self.halt == false {
            match instruction {
                0x3E => {
                    self.a = operand;
                },  // MVI A, d8
                _ => {},
            }
        }
    }

    // Halt the CPU
    pub fn halt(&mut self)
        ensures
            *final(self) == (CPU { halt: true, ..*old(self) }),
    {
        self.halt = true;
    }
}

/// The runner: its processor and the two ends of the channel pair that connect it to
/// its bus controller.
pub struct Runner<T, R> {
    pub cpu: CPU,
    pub recv_channel: R,
    pub send_channel: T,
}

impl<T, R> Runner<T, R> {
    /// A runner with a clear processor on the given channel ends.
    pub fn new(tx: T, rx: R) -> (r: Self)
        ensures
            r.cpu.is_clear(),
            r.recv_channel == rx,
            r.send_channel == tx,
    {
        Self { cpu: CPU::new(), recv_channel: rx, send_channel: tx }
    }
}

} // verus!
