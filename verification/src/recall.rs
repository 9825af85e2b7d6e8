//! The memory card: 64 KiB of storage answering requests from its bus controller,
//! and the messages and bus state they exchange.
use vstd::prelude::*;
use crate::bus::split_write_word;
use crate::memory::{Access, Memory};

verus! {

const MEMORY_SIZE: usize = 65536;

/// Messages between the memory card and its bus controller.
pub enum Message {
    MemoryReadRequest { addr: usize },
    MemoryWriteRequest { addr: usize, data: u8 },
    MemoryReadResponse { data: u8 },
}

/// What the bus controller sees on the bus pins.
pub struct BusState {
    pub addr: usize,
    pub data: u8,
    pub read_request: bool,
    pub write_request: bool,
    pub read_response: bool,
}

/// 64 KiB of memory (16-bit addresses).
pub struct RAM {
    memory: [u8; MEMORY_SIZE],  // support 16-bit addresses
    log: Ghost<Seq<Access>>,  // the accesses made through the memory interface
}

impl RAM {
    pub closed spec fn contents(&self) -> Seq<u8> {
        self.memory@
    }

    /// A cleared memory.
    pub fn new() -> (r: Self)
        ensures
            r.contents() == Seq::new(65536, |i: int| 0u8),
    {
        RAM { memory: [0;MEMORY_SIZE], log: Ghost(Seq::empty()) }
    }

    /// The byte at `addr`.
    pub fn read(&mut self, addr: usize) -> (r: u8)
        requires
            addr < 65536,
        ensures
            r == old(self).contents()[addr as int],
            final(self).contents() == old(self).contents(),
    {
        self.memory[addr]
    }

    /// Stores `data` at `addr`.
    pub fn write(&mut self, addr: usize, data: u8)
        requires
            addr < 65536,
        ensures
            final(self).contents() == old(self).contents().update(addr as int, data),
    {
        self.memory[addr] = data;
    }
}

impl Memory for RAM {
    open spec fn bytes(&self) -> Seq<u8> {
        self.contents()
    }

    closed spec fn accesses(&self) -> Seq<Access> {
        self.log@
    }

    fn read(&mut self, addr: u32) -> (r: u8) {
        assert(self.memory@.len() == 65536);
        let ghost before = self.log@;
        let data = RAM::read(self, addr as usize);
        self.log = Ghost(before.push(Access::Read(addr)));
        data
    }

    fn write(&mut self, addr: u32, data: u8) {
        assert(self.memory@.len() == 65536);
        let ghost before = self.log@;
        RAM::write(self, addr as usize, data);
        self.log = Ghost(before.push(Access::Write(addr, data)));
    }
}

/// The memory card: its RAM and the two ends of the channel pair to its bus
/// controller.
pub struct Recall<T, R> {
    // needs a RAM instance and send/receive channels
    pub ram: RAM,
    pub recv_channel: R,
    pub send_channel: T,
}

impl<T, R> Recall<T, R> {
    /// A memory card with cleared RAM on the given channel ends.
    pub fn new(tx: T, rx: R) -> (r: Self)
        ensures
            r.ram.contents() == Seq::new(65536, |i: int| 0u8),
            r.recv_channel == rx,
            r.send_channel == tx,
    {
        // define channels and connect in main.rs
        Recall { ram: RAM::new(), recv_channel: rx, send_channel: tx }
    }
}

/// A bus cycle addressed to the memory card: a read of an address, or a write whose
/// word holds the address above the data byte.
#[derive(Clone, Copy, Debug)]
pub enum BusCycle {
    Read { address: u32 },
    Write { word: u32 },
}

/// The memory address a cycle is for.
pub open spec fn cycle_address(cycle: BusCycle) -> int {
    match cycle {
        BusCycle::Read { address } => address as int,
        BusCycle::Write { word } => word as int / 256,
    }
}

/// The memory card's handling of one bus cycle while its panel line is low: a read
/// answers with the byte at the address, a write stores the word's data byte at the
/// word's address and answers nothing.
pub fn serve_cycle(memory: &mut [u8; MEMORY_SIZE], cycle: BusCycle) -> (r: Option<u8>)
    requires
        cycle_address(cycle) < 65536,
    ensures
        match cycle {
            BusCycle::Read { address } => {
                &&& r == Some(old(memory)@[address as int])
                &&& final(memory)@ == old(memory)@
            },
            BusCycle::Write { word } => {
                &&& r is None
                &&& final(memory)@ == old(memory)@.update(word as int / 256, (word % 256) as u8)
            },
        },
{
    match cycle {
        BusCycle::Read { address } => {
            // Look up the data at this address
            Some(memory[address as usize])
        },
        BusCycle::Write { word } => {
            // split the address and data
            let (address, data) = split_write_word(word);
            memory[address] = data;
            None
        },
    }
}

/// On the memory card, a read cycle gives back the data byte of the last write cycle to
/// its address, whose word the processor side builds from the address and the byte.
pub proof fn law_card_read_after_write(memory: Seq<u8>, address: u16, data: u8)
    requires
        memory.len() == 65536,
    ensures
        ({
            let word = address as int * 256 + data as int;
            memory.update(word / 256, (word % 256) as u8)[address as int] == data
        }),
{
}

/// The demonstration memory image: each byte holds the low byte of its address, except
/// 0x0000 = 0xAA, 0x2008 = 0x5A, 0x3000 = 0x33, 0x4000 = 0x44 and 0xFFFF = 0xFF.
pub open spec fn test_memory_image() -> Seq<u8> {
    Seq::new(65536, |i: int| (i % 256) as u8).update(0x0000, 0xAA).update(0x2008, 0x5A).update(
        0x3000,
        0x33,
    ).update(0x4000, 0x44).update(0xFFFF, 0xFF)
}

/// The demonstration image holds 0xAA at 0x0000, 0x5A at 0x2008, 0x33 at 0x3000, 0x44
/// at 0x4000 and 0xFF at 0xFFFF, and at every other address the low byte of the address.
pub proof fn law_test_memory_image(i: int)
    requires
        0 <= i < 65536,
    ensures
        test_memory_image().len() == 65536,
        test_memory_image()[0x0000] == 0xAA,
        test_memory_image()[0x2008] == 0x5A,
        test_memory_image()[0x3000] == 0x33,
        test_memory_image()[0x4000] == 0x44,
        test_memory_image()[0xFFFF] == 0xFF,
        i != 0x0000 && i != 0x2008 && i != 0x3000 && i != 0x4000 && i != 0xFFFF
            ==> test_memory_image()[i] == i % 256,
{
}

/// Creates the demonstration memory image.
pub fn create_test_memory() -> (r: [u8; MEMORY_SIZE])
    ensures
        r@ == test_memory_image(),
{
    let mut memory = [0u8;MEMORY_SIZE];
    // Pattern for easy visual identification of address
    for i in 0..MEMORY_SIZE
        invariant
            memory@.len() == 65536,
            forall|j: int| 0 <= j < i ==> #[trigger] memory@[j] == (j % 256) as u8,
    {
        memory[i] = (i % 256) as u8;
    }
    // Special values for our test addresses
    memory[0x0000] = 0xAA;  // Address 0x0000 -> 0xAA
    memory[0x2008] = 0x5A;  // Address 0x2008 -> 0x5A
    memory[0x3000] = 0x33;  // Address 0x3000 -> 0x33
    memory[0x4000] = 0x44;  // Address 0x4000 -> 0x44
    memory[0xFFFF] = 0xFF;  // Highest address -> 0xFF
    assert(memory@ =~= test_memory_image());
    memory
}

} // verus!
