//! The bus state machines a memory cycle runs on, as the processor side drives them:
//! the words it pushes to the read, SMEMR and write state machines, the data word it
//! pulls, and the write-done interrupt it waits on. A memory board on the bus answers
//! the cycles.
use vstd::prelude::*;
use crate::memory::Memory;

verus! {

/// One operation on the bus state machines.
#[derive(Clone, Copy, Debug, PartialEq, Eq, Structural)]
pub enum BusOp {
    /// A word pushed to the read state machine: the address it drives.
    PushReadAddress(u32),
    /// A word pushed to the SMEMR state machine: the level of the strobe.
    PushSmemr(u32),
    /// The data word pulled from the read state machine.
    PullReadData(u32),
    /// A word pushed to the write state machine: pin directions or address and data.
    PushWrite(u32),
    /// The wait for the write state machine's done interrupt.
    WaitWriteDone,
}

/// The pin-direction word that drives the address and data pins for a write.
pub const WRITE_PINS_OUT: u32 = 0xFFFFFF;

/// The pin-direction word that releases the data pins after a write.
pub const WRITE_PINS_RELEASE: u32 = 0xFFFF00;

/// The operations of a read cycle: the address, the SMEMR strobe asserted (0), the data
/// word pulled, and the strobe word `end` pushed to close the cycle.
pub open spec fn read_cycle(address: u32, data: u32, end: u32) -> Seq<BusOp> {
    seq![
        BusOp::PushReadAddress(address),
        BusOp::PushSmemr(0),
        BusOp::PullReadData(data),
        BusOp::PushSmemr(end),
    ]
}

/// The operations of a write cycle: the pins driven, the word with the address above
/// the data byte, the wait for the done interrupt, and the data pins released.
pub open spec fn write_cycle(word: u32) -> Seq<BusOp> {
    seq![
        BusOp::PushWrite(WRITE_PINS_OUT),
        BusOp::PushWrite(word),
        BusOp::WaitWriteDone,
        BusOp::PushWrite(WRITE_PINS_RELEASE),
    ]
}

/// The data word of a pull operation (0 for any other operation).
pub open spec fn pulled(op: BusOp) -> u32 {
    match op {
        BusOp::PullReadData(w) => w,
        _ => 0,
    }
}

/// The bus state machines and the memory board that answers them.
///
/// The read state machine drives the low 16 bits of the address pushed to it; with the
/// SMEMR strobe asserted, the board presents the byte at that address, and the data
/// word pulled carries it in its low byte. A write cycle is three words to the write
/// state machine: pin directions, the address above the data byte, pin directions
/// again; the board stores the byte when it sees the second.
pub trait BusStateMachines {
    /// Every operation performed so far, in order.
    spec fn ops(&self) -> Seq<BusOp>;

    /// The bytes of the memory on the bus, indexed by address.
    spec fn bytes(&self) -> Seq<u8>;

    /// The address the read state machine drives.
    spec fn read_address(&self) -> int;

    /// How many words of the current write cycle have been pushed, modulo 3.
    spec fn write_phase(&self) -> int;

    fn push_read_address(&mut self, word: u32)
        ensures
            final(self).ops() == old(self).ops().push(BusOp::PushReadAddress(word)),
            final(self).bytes() == old(self).bytes(),
            final(self).read_address() == word as int % 65536,
            final(self).write_phase() == old(self).write_phase(),
    ;

    fn push_smemr(&mut self, level: u32)
        ensures
            final(self).ops() == old(self).ops().push(BusOp::PushSmemr(level)),
            final(self).bytes() == old(self).bytes(),
            final(self).read_address() == old(self).read_address(),
            final(self).write_phase() == old(self).write_phase(),
    ;

    /// Pulls the data word of a read cycle whose strobe is asserted.
    fn pull_read_data(&mut self) -> (r: u32)
        requires
            old(self).bytes().len() >= 65536,
            old(self).ops().len() > 0,
            old(self).ops().last() == BusOp::PushSmemr(0),
        ensures
            final(self).ops() == old(self).ops().push(BusOp::PullReadData(r)),
            r % 256 == old(self).bytes()[old(self).read_address()],
            final(self).bytes() == old(self).bytes(),
            final(self).read_address() == old(self).read_address(),
            final(self).write_phase() == old(self).write_phase(),
    ;

    fn push_write(&mut self, word: u32)
        requires
            old(self).bytes().len() >= 65536,
        ensures
            final(self).ops() == old(self).ops().push(BusOp::PushWrite(word)),
            final(self).bytes() == if old(self).write_phase() == 1 {
                old(self).bytes().update((word as int / 256) % 65536, (word % 256) as u8)
            } else {
                old(self).bytes()
            },
            final(self).read_address() == old(self).read_address(),
            final(self).write_phase() == (old(self).write_phase() + 1) % 3,
    ;

    fn wait_write_done(&mut self)
        ensures
            final(self).ops() == old(self).ops().push(BusOp::WaitWriteDone),
            final(self).bytes() == old(self).bytes(),
            final(self).read_address() == old(self).read_address(),
            final(self).write_phase() == old(self).write_phase(),
    ;
}

/// A memory board on the bus, with the state machines that talk to it: it latches the
/// read address, answers a strobed read with the byte there, and decodes write words.
pub struct BoardBus<M: Memory> {
    memory: M,
    address_latch: u32,  // the low 16 bits of the last read address
    phase: u8,  // words of the current write cycle seen so far
    log: Vec<BusOp>,  // every operation performed, in order
}

impl<M: Memory> BoardBus<M> {
    /// A board holding `memory`, with nothing driven yet.
    pub fn new(memory: M) -> (r: Self)
        ensures
            r.ops() == Seq::<BusOp>::empty(),
            r.bytes() == memory.bytes(),
            r.read_address() == 0,
            r.write_phase() == 0,
    {
        BoardBus { memory, address_latch: 0, phase: 0, log: Vec::new() }
    }

    /// Every operation performed on the state machines, in order.
    pub fn history(&self) -> (r: &Vec<BusOp>)
        ensures
            r@ == self.ops(),
    {
        &self.log
    }

    /// The memory the board holds.
    pub fn memory(&self) -> (r: &M)
        ensures
            r.bytes() == self.bytes(),
    {
        &self.memory
    }
}

impl<M: Memory> BusStateMachines for BoardBus<M> {
    closed spec fn ops(&self) -> Seq<BusOp> {
        self.log@
    }

    closed spec fn bytes(&self) -> Seq<u8> {
        self.memory.bytes()
    }

    closed spec fn read_address(&self) -> int {
        self.address_latch as int % 65536
    }

    closed spec fn write_phase(&self) -> int {
        self.phase as int % 3
    }

    fn push_read_address(&mut self, word: u32) {
        self.address_latch = word % 0x10000;
        self.log.push(BusOp::PushReadAddress(word));
    }

    fn push_smemr(&mut self, level: u32) {
        self.log.push(BusOp::PushSmemr(level));
    }

    fn pull_read_data(&mut self) -> (r: u32) {
        let data = self.memory.read(self.address_latch % 0x10000);
        self.log.push(BusOp::PullReadData(data as u32));
        data as u32
    }

    fn push_write(&mut self, word: u32) {
        if self.phase % 3 == 1 {
            let address = (word / 256) % 0x10000;
            let data = (word % 256) as u8;
            self.memory.write(address, data);
        }
        self.phase = (self.phase % 3 + 1) % 3;
        self.log.push(BusOp::PushWrite(word));
    }

    fn wait_write_done(&mut self) {
        self.log.push(BusOp::WaitWriteDone);
    }
}

} // verus!
