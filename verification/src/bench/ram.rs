//! A 64 KiB memory array.
use vstd::prelude::*;
use crate::memory::{Access, Memory};

verus! {

const MEM_SIZE: usize = 65536;

/// 64 KiB of memory, one byte per 16-bit address.
#[derive(Clone, Copy)]
pub struct RAM {
    bytes: [u8; MEM_SIZE],
    log: Ghost<Seq<Access>>,  // the accesses made through the memory interface
}

/// The bytes of a freshly cleared memory.
pub open spec fn cleared() -> Seq<u8> {
    Seq::new(65536, |i: int| 0u8)
}

/// The bytes after the test program is loaded: INR A; STA 0BEEFh; INR A; LDA 0BEEFh;
/// HLT.
pub open spec fn with_test_program(m: Seq<u8>) -> Seq<u8> {
    m.update(0, 0x3C).update(1, 0x32).update(2, 0xEF).update(3, 0xBE).update(4, 0x3C).update(
        5,
        0x3A,
    ).update(6, 0xEF).update(7, 0xBE).update(8, 0x76)
}

impl RAM {
    /// The bytes of the memory, indexed by address.
    pub closed spec fn contents(&self) -> Seq<u8> {
        self.bytes@
    }

    /// The memory always holds 65536 bytes.
    pub proof fn lemma_size(&self)
        ensures
            self.contents().len() == 65536,
    {
    }

    /// A cleared memory.
    pub fn new() -> (r: Self)
        ensures
            r.contents() == cleared(),
    {
        Self { bytes: [0;MEM_SIZE], log: Ghost(Seq::empty()) }
    }

    /// Loads the test program at addresses 0 to 8; run to the HLT, it leaves 1 in A.
    pub fn init(&mut self)
        ensures
            final(self).contents() == with_test_program(old(self).contents()),
    {
        self.bytes[0] = 0x3C;  // INR A, A = 0x01
        self.bytes[1] = 0x32;  // STA a16
        self.bytes[2] = 0xEF;
        self.bytes[3] = 0xBE;  // addr = 0xBEEF
        self.bytes[4] = 0x3C;  // INR A, A = 0x02
        self.bytes[5] = 0x3A;  // LDA a16
        self.bytes[6] = 0xEF;
        self.bytes[7] = 0xBE;  // addr = 0xBEEF
        self.bytes[8] = 0x76;  // HLT
        // expect A = 0x01, not 0x02
    }

    /// The byte at `addr`.
    pub fn read(&self, addr: usize) -> (r: u8)
        requires
            addr < 65536,
        ensures
            r == self.contents()[addr as int],
    {
        self.bytes[addr]
    }

    /// Stores `data` at `addr`.
    pub fn write(&mut self, addr: usize, data: u8)
        requires
            addr < 65536,
        ensures
            final(self).contents() == old(self).contents().update(addr as int, data),
    {
        self.bytes[addr] = data;
    }
}

impl Memory for RAM {
    open spec fn bytes(&self) -> Seq<u8> {
        self.contents()
    }

    closed spec fn accesses(&self) -> Seq<Access> {
        self.log@
    }

    fn read(&mut self, addr: u32) -> (r: u8) {
        let data = RAM::read(self, addr as usize);
        self.log = Ghost(self.log@.push(Access::Read(addr)));
        data
    }

    fn write(&mut self, addr: u32, data: u8) {
        let ghost before = self.log@;
        RAM::write(self, addr as usize, data);
        self.log = Ghost(before.push(Access::Write(addr, data)));
    }
}

} // verus!
