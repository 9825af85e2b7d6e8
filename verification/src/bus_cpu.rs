//! A processor whose memory traffic goes over the S-100 bus: the bus transactions it
//! issues, and the subset of instructions it carries out through them.
use vstd::prelude::*;
use crate::bits::{word, join_bytes};
use crate::cpu::{CPU, Reg, power_up_state, reset_state};
use crate::instructions::{instruction_info, instruction_length};
use crate::bus::write_word;
use crate::memory::Memory;
use crate::model::CpuState;
use crate::ram::RAM;
use crate::sms::{BusOp, BusStateMachines, read_cycle, write_cycle, pulled};

verus! {

/// The bus is wide enough for every 16-bit address.
pub open spec fn spans_address_space(bus: Seq<u8>) -> bool {
    bus.len() >= 65536
}

/// The bus can start a new memory cycle: it spans the address space and no write cycle
/// is half done.
pub open spec fn bus_idle<S: BusStateMachines>(bus_sms: &S) -> bool {
    spans_address_space(bus_sms.bytes()) && bus_sms.write_phase() == 0
}

/// A memory read transaction over the bus: the address to the read state machine, the
/// SMEMR strobe pushed low, the data word pulled, and the strobe returned high. The byte
/// read is the low byte of the data word.
pub fn bus_read<S: BusStateMachines>(bus_sms: &mut S, address: u16) -> (r: u8)
    requires
        bus_idle(&*old(bus_sms)),
    ensures
        final(bus_sms).ops().len() == old(bus_sms).ops().len() + 4,
        final(bus_sms).ops() == old(bus_sms).ops() + read_cycle(
            address as u32,
            pulled(final(bus_sms).ops()[old(bus_sms).ops().len() + 2int]),
            1,
        ),
        r == pulled(final(bus_sms).ops()[old(bus_sms).ops().len() + 2int]) % 256,
        r == old(bus_sms).bytes()[address as int],
        final(bus_sms).bytes() == old(bus_sms).bytes(),
        bus_idle(&*final(bus_sms)),
{
    let ghost start = old(bus_sms).ops();
    // Push address to address/data state machine
    bus_sms.push_read_address(address as u32);
    // Pull SMEMR# low to start memory read transaction
    bus_sms.push_smemr(0);
    // Read the data received
    let data = bus_sms.pull_read_data();
    // Return SMEMR# high to end the transaction
    bus_sms.push_smemr(1);
    assert(final(bus_sms).ops() =~= start + read_cycle(address as u32, data, 1));
    (data % 256) as u8
}

/// A memory write transaction over the bus: the pins driven, the word with the address
/// above the data byte, the wait for the done interrupt, and the data pins released.
pub fn bus_write<S: BusStateMachines>(bus_sms: &mut S, address: u16, data: u8)
    requires
        bus_idle(&*old(bus_sms)),
    ensures
        final(bus_sms).ops() == old(bus_sms).ops() + write_cycle(
            (address as int * 256 + data as int) as u32,
        ),
        final(bus_sms).bytes() == old(bus_sms).bytes().update(address as int, data),
        bus_idle(&*final(bus_sms)),
{
    let ghost start = old(bus_sms).ops();
    // Set address and data pins to output
    bus_sms.push_write(0xFFFFFF);
    // Combine address and data for the write transaction
    let value = write_word(address, data);
    // Send address and data
    bus_sms.push_write(value);
    // Wait for write to complete
    bus_sms.wait_write_done();
    // Reset pin directions
    bus_sms.push_write(0xFFFF00);
    assert(final(bus_sms).ops() =~= start + write_cycle(value));
}

/// The little-endian word at the two bus addresses after `pc`, addresses taken modulo
/// 0x10000.
pub open spec fn bus_word(bus: Seq<u8>, pc: int) -> int {
    word(bus[(pc + 2) % 65536], bus[(pc + 1) % 65536])
}

/// The processor state and bus contents after the bus processor executes `op`: LDA,
/// STA, MOV B,M and MOV M,r go over the bus, HLT halts, and every other opcode is
/// skipped by its length.
pub open spec fn bus_step(c: CpuState, bus: Seq<u8>, op: u8) -> (CpuState, Seq<u8>) {
    let addr = bus_word(bus, c.pc as int);
    if op == 0x3A {
        (CpuState { a: bus[addr], ..c }.with_pc(c.pc + 3), bus)
    } else if op == 0x32 {
        (c.with_pc(c.pc + 3), bus.update(addr, c.a))
    } else if op == 0x46 {
        (CpuState { b: bus[c.hl()], ..c }.with_pc(c.pc + 1), bus)
    } else if (0x70 <= op <= 0x75) || op == 0x77 {
        (c.with_pc(c.pc + 1), bus.update(c.hl(), c.reg(op as int % 8)))
    } else if op == 0x76 {
        (CpuState { halt: true, ..c }.with_pc(c.pc + 1), bus)
    } else {
        (c.with_pc(c.pc + instruction_length(op)), bus)
    }
}

/// The read cycle for `address` that the log `ops` holds at position `at`, with the data
/// word it pulled there.
pub open spec fn read_at(ops: Seq<BusOp>, at: int, address: int) -> Seq<BusOp> {
    read_cycle(address as u32, pulled(ops[at + 2]), 1)
}

/// The bus operations the bus processor performs for `op` in state `c` on a bus holding
/// `bus`, as the log `ops` holds them from position `at`: LDA reads its two operand
/// bytes and then the byte at the operand address; STA reads its operand bytes and
/// writes A at the operand address; MOV B,M reads at HL; MOV M,r writes the register
/// at HL; every other opcode makes no bus cycle.
pub open spec fn bus_step_ops(c: CpuState, bus: Seq<u8>, op: u8, ops: Seq<BusOp>, at: int) -> Seq<
    BusOp,
> {
    let p1 = (c.pc + 1) % 65536;
    let p2 = (c.pc + 2) % 65536;
    let addr = bus_word(bus, c.pc as int);
    if op == 0x3A {
        read_at(ops, at, p1) + read_at(ops, at + 4, p2) + read_at(ops, at + 8, addr)
    } else if op == 0x32 {
        read_at(ops, at, p1) + read_at(ops, at + 4, p2) + write_cycle((addr * 256 + c.a) as u32)
    } else if op == 0x46 {
        read_at(ops, at, c.hl())
    } else if (0x70 <= op <= 0x75) || op == 0x77 {
        write_cycle((c.hl() * 256 + c.reg(op as int % 8)) as u32)
    } else {
        Seq::empty()
    }
}

/// A processor that reads and writes memory through bus transactions.
pub struct BusCPU<M: Memory, S: BusStateMachines> {
    cpu: CPU<M>,
    bus_sms: S,  // the bus the transactions go over
}

impl<M: Memory, S: BusStateMachines> BusCPU<M, S> {
    /// The state of the processor.
    pub closed spec fn cpu_state(&self) -> CpuState {
        self.cpu@
    }

    /// The memory on the bus.
    pub closed spec fn bus_bytes(&self) -> Seq<u8> {
        self.bus_sms.bytes()
    }

    /// The bus can start a new memory cycle.
    pub closed spec fn bus_ready(&self) -> bool {
        bus_idle(&self.bus_sms)
    }

    /// Every operation performed on the bus state machines so far.
    pub closed spec fn bus_ops(&self) -> Seq<BusOp> {
        self.bus_sms.ops()
    }

    /// The bus state machines the processor drives.
    pub fn bus(&self) -> (r: &S)
        ensures
            r.ops() == self.bus_ops(),
            r.bytes() == self.bus_bytes(),
    {
        &self.bus_sms
    }

    /// A processor at power-up on the local memory `ram`, issuing its memory traffic on
    /// the bus `bus_sms`.
    pub fn new(ram: RAM<M>, bus_sms: S) -> (r: Self)
        requires
            bus_idle(&bus_sms),
        ensures
            r.bus_ready(),
            r.cpu_state() == power_up_state(ram.bytes()),
            r.bus_bytes() == bus_sms.bytes(),
    {
        let cpu = CPU::new(ram);
        Self { cpu, bus_sms }
    }

    pub fn reset(&mut self)
        ensures
            final(self).cpu_state() == reset_state(old(self).cpu_state().mem),
            final(self).bus_bytes() == old(self).bus_bytes(),
            final(self).bus_ops() == old(self).bus_ops(),
            final(self).bus_ready() == old(self).bus_ready(),
    {
        self.cpu.reset();
    }

    /// Reads the bus at `addr` taken modulo 0x10000.
    pub fn read_mem(&mut self, addr: usize) -> (r: u8)
        requires
            old(self).bus_ready(),
        ensures
            final(self).bus_ready(),
            r == old(self).bus_bytes()[addr as int % 65536],
            final(self).bus_bytes() == old(self).bus_bytes(),
            final(self).cpu_state() == old(self).cpu_state(),
            final(self).bus_ops() == old(self).bus_ops() + read_at(
                final(self).bus_ops(),
                old(self).bus_ops().len() as int,
                addr as int % 65536,
            ),
    {
        bus_read(&mut self.bus_sms, (addr % 0x10000) as u16)
    }

    /// Writes the bus at `addr` taken modulo 0x10000.
    pub fn write_mem(&mut self, addr: usize, data: u8)
        requires
            old(self).bus_ready(),
        ensures
            final(self).bus_ready(),
            final(self).bus_bytes() == old(self).bus_bytes().update(addr as int % 65536, data),
            final(self).cpu_state() == old(self).cpu_state(),
            final(self).bus_ops() == old(self).bus_ops() + write_cycle(
                ((addr as int % 65536) * 256 + data as int) as u32,
            ),
    {
        bus_write(&mut self.bus_sms, (addr % 0x10000) as u16, data)
    }

    /// The opcode on the bus at the program counter.
    pub fn fetch_instruction(&mut self) -> (r: u8)
        requires
            old(self).bus_ready(),
        ensures
            final(self).bus_ready(),
            r == old(self).bus_bytes()[old(self).cpu_state().pc as int % 65536],
            final(self).bus_bytes() == old(self).bus_bytes(),
            final(self).cpu_state() == old(self).cpu_state(),
            final(self).bus_ops() == old(self).bus_ops() + read_at(
                final(self).bus_ops(),
                old(self).bus_ops().len() as int,
                old(self).cpu_state().pc as int % 65536,
            ),
    {
        let addr = self.cpu.program_counter();
        self.read_mem(addr)
    }

    /// The byte on the bus after `pc`.
    pub fn fetch_byte(&mut self, pc: usize) -> (r: u8)
        requires
            old(self).bus_ready(),
            pc + 1 <= usize::MAX,
        ensures
            final(self).bus_ready(),
            r == old(self).bus_bytes()[(pc + 1) % 65536],
            final(self).bus_bytes() == old(self).bus_bytes(),
            final(self).cpu_state() == old(self).cpu_state(),
            final(self).bus_ops() == old(self).bus_ops() + read_at(
                final(self).bus_ops(),
                old(self).bus_ops().len() as int,
                (pc + 1) % 65536,
            ),
    {
        self.read_mem(pc + 1)
    }

    /// The little-endian word on the bus after `pc`.
    pub fn fetch_word(&mut self, pc: usize) -> (r: u16)
        requires
            old(self).bus_ready(),
            pc + 2 <= usize::MAX,
        ensures
            final(self).bus_ready(),
            r == bus_word(old(self).bus_bytes(), pc as int),
            final(self).bus_bytes() == old(self).bus_bytes(),
            final(self).cpu_state() == old(self).cpu_state(),
            final(self).bus_ops() == old(self).bus_ops() + read_at(
                final(self).bus_ops(),
                old(self).bus_ops().len() as int,
                (pc + 1) % 65536,
            ) + read_at(final(self).bus_ops(), old(self).bus_ops().len() + 4int, (pc + 2) % 65536),
    {
        let ghost start = self.bus_ops();
        let lower = self.read_mem(pc + 1);
        let ghost mid = self.bus_ops();
        let higher = self.read_mem(pc + 2);
        proof {
            let n = start.len() as int;
            assert(self.bus_ops()[n + 2] == mid[n + 2]);
            assert(self.bus_ops() =~= start + read_at(self.bus_ops(), n, (pc + 1) % 65536)
                + read_at(self.bus_ops(), n + 4, (pc + 2) % 65536));
        }
        join_bytes(higher, lower)
    }

    /// Executes one instruction with its memory traffic on the bus.
    pub fn execute_instruction(&mut self, instruction: u8)
        requires
            old(self).bus_ready(),
            old(self).cpu_state().pc + 3 <= usize::MAX,
        ensures
            final(self).bus_ready(),
            (final(self).cpu_state(), final(self).bus_bytes()) == bus_step(
                old(self).cpu_state(),
                old(self).bus_bytes(),
                instruction,
            ),
            final(self).bus_ops() == old(self).bus_ops() + bus_step_ops(
                old(self).cpu_state(),
                old(self).bus_bytes(),
                instruction,
                final(self).bus_ops(),
                old(self).bus_ops().len() as int,
            ),
    {
        match instruction {
            // Memory read and write instructions
            0x3A | 0x32 => self.exec_direct(instruction),
            // MOV M instructions
            0x46 | 0x70..=0x75 | 0x77 => self.exec_mov_m(instruction),
            // HLT instruction
            0x76 => {
                self.cpu.halt();
                self.cpu.set_program_counter(self.cpu.program_counter() + 1);
            },
            _ => {
                // Skip unhandled instruction
                let info = instruction_info(instruction);
                self.cpu.set_program_counter(self.cpu.program_counter() + info.bytes as usize);
            },
        }
    }

    /// LDA a16 and STA a16 over the bus.
    fn exec_direct(&mut self, instruction: u8)
        requires
            instruction == 0x3A || instruction == 0x32,
            old(self).bus_ready(),
            old(self).cpu_state().pc + 3 <= usize::MAX,
        ensures
            final(self).bus_ready(),
            (final(self).cpu_state(), final(self).bus_bytes()) == bus_step(
                old(self).cpu_state(),
                old(self).bus_bytes(),
                instruction,
            ),
            final(self).bus_ops() == old(self).bus_ops() + bus_step_ops(
                old(self).cpu_state(),
                old(self).bus_bytes(),
                instruction,
                final(self).bus_ops(),
                old(self).bus_ops().len() as int,
            ),
    {
        let addr = self.fetch_word(self.cpu.program_counter());
        if instruction == 0x3A {
            // LDA a16
            let data = self.read_mem(addr as usize);
            self.cpu.set_reg(Reg::A, data);
        } else {
            // STA a16
            let data = self.cpu.read_reg(Reg::A);
            self.write_mem(addr as usize, data);
        }
        // Advance PC past the instruction and operands
        self.cpu.set_program_counter(self.cpu.program_counter() + 3);
    }

    /// MOV B,M and MOV M,r over the bus, addressed by HL.
    fn exec_mov_m(&mut self, instruction: u8)
        requires
            instruction == 0x46 || (0x70 <= instruction <= 0x75) || instruction == 0x77,
            old(self).bus_ready(),
            old(self).cpu_state().pc + 3 <= usize::MAX,
        ensures
            final(self).bus_ready(),
            (final(self).cpu_state(), final(self).bus_bytes()) == bus_step(
                old(self).cpu_state(),
                old(self).bus_bytes(),
                instruction,
            ),
            final(self).bus_ops() == old(self).bus_ops() + bus_step_ops(
                old(self).cpu_state(),
                old(self).bus_bytes(),
                instruction,
                final(self).bus_ops(),
                old(self).bus_ops().len() as int,
            ),
    {
        let addr = self.cpu.read_hl() as usize;
        if instruction == 0x46 {
            // MOV B,M
            let data = self.read_mem(addr);
            self.cpu.set_reg(Reg::B, data);
        } else {
            // MOV M,r
            let reg = Reg::from(instruction % 8);
            let data = self.cpu.read_reg(reg);
            self.write_mem(addr, data);
        }
        self.cpu.set_program_counter(self.cpu.program_counter() + 1);
    }

    pub fn halted(&self) -> (r: bool)
        ensures
            r == self.cpu_state().halt,
    {
        self.cpu.halted()
    }
}

/// The bus test program: `LDA 2008h; STA 3000h; HLT`.
pub open spec fn bus_test_program(bus: Seq<u8>) -> Seq<u8> {
    bus.update(0, 0x3A).update(1, 0x08).update(2, 0x20).update(3, 0x32).update(4, 0x00).update(
        5,
        0x30,
    ).update(6, 0x76)
}

/// The bus operations that load the test program: one write cycle per byte, addresses 0
/// to 6 in order, each word holding the address above the byte.
pub open spec fn bus_test_program_ops() -> Seq<BusOp> {
    write_cycle(0x003A) + write_cycle(0x0108) + write_cycle(0x0220) + write_cycle(0x0332)
        + write_cycle(0x0400) + write_cycle(0x0530) + write_cycle(0x0676)
}

/// Writes the bus test program over the bus at addresses 0 to 6: load the byte at
/// 0x2008 into A, store A at 0x3000, halt.
pub fn initialize_program<M: Memory, S: BusStateMachines>(bus_cpu: &mut BusCPU<M, S>)
    requires
        old(bus_cpu).bus_ready(),
    ensures
        final(bus_cpu).bus_ready(),
        final(bus_cpu).bus_bytes() == bus_test_program(old(bus_cpu).bus_bytes()),
        final(bus_cpu).cpu_state() == old(bus_cpu).cpu_state(),
        final(bus_cpu).bus_ops() == old(bus_cpu).bus_ops() + bus_test_program_ops(),
{
    let ghost start = bus_cpu.bus_ops();
    // Program bytes: LDA 0x2008
    bus_cpu.write_mem(0x0000, 0x3A);  // LDA a16
    bus_cpu.write_mem(0x0001, 0x08);  // Low byte of address
    bus_cpu.write_mem(0x0002, 0x20);  // High byte of address
    // STA 0x3000
    bus_cpu.write_mem(0x0003, 0x32);  // STA a16
    bus_cpu.write_mem(0x0004, 0x00);  // Low byte of address
    bus_cpu.write_mem(0x0005, 0x30);  // High byte of address
    // HLT
    bus_cpu.write_mem(0x0006, 0x76);  // HLT
    assert(bus_cpu.bus_ops() =~= start + bus_test_program_ops());
}

} // verus!
