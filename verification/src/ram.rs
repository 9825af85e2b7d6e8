//! The processor's view of memory: every access goes through the memory it was
//! built with.
use vstd::prelude::*;
use crate::memory::{Access, Memory};

verus! {

/// The address a port access reaches: the low 32 bits of `addr`.
pub open spec fn port_address(addr: usize) -> int {
    addr as int % 0x1_0000_0000
}

proof fn lemma_port_address(addr: usize)
    ensures
        (addr as u32) as int == port_address(addr),
        addr <= u32::MAX ==> port_address(addr) == addr,
{
    assert((addr as u32) as int == addr as int % 0x1_0000_0000) by (bit_vector);
}

/// The memory port of the processor, forwarding each read and write to the
/// memory it holds.
pub struct RAM<B: Memory> {
    bus: B,
}

impl<B: Memory> RAM<B> {
    /// The bytes of the memory behind the port.
    pub closed spec fn bytes(&self) -> Seq<u8> {
        self.bus.bytes()
    }

    /// Every read and write the port has made, in order.
    pub closed spec fn accesses(&self) -> Seq<Access> {
        self.bus.accesses()
    }

    /// Connects the port to a memory.
    pub fn new(bus: B) -> (r: Self)
        ensures
            r.bytes() == bus.bytes(),
            r.accesses() == bus.accesses(),
    {
        Self { bus }
    }

    /// The memory behind the port.
    pub fn bus(&self) -> (r: &B)
        ensures
            r.bytes() == self.bytes(),
            r.accesses() == self.accesses(),
    {
        &self.bus
    }

    /// Places the start-up program `MVI A,05h; ADI 07h; HLT` at addresses 0 to 4.
    pub fn init(&mut self)
        requires
            old(self).bytes().len() >= 5,
        ensures
            final(self).bytes() == old(self).bytes().update(0, 0x3E).update(1, 0x05).update(
                2,
                0xC6,
            ).update(3, 0x07).update(4, 0x76),
            final(self).accesses() == old(self).accesses() + seq![
                Access::Write(0, 0x3E),
                Access::Write(1, 0x05),
                Access::Write(2, 0xC6),
                Access::Write(3, 0x07),
                Access::Write(4, 0x76),
            ],
    {
        let ghost start = self.accesses();
        self.write(0x0, 0x3E);
        self.write(0x1, 0x05);
        self.write(0x2, 0xC6);
        self.write(0x3, 0x07);
        self.write(0x4, 0x76);
        assert(self.accesses() =~= start + seq![
            Access::Write(0, 0x3E),
            Access::Write(1, 0x05),
            Access::Write(2, 0xC6),
            Access::Write(3, 0x07),
            Access::Write(4, 0x76),
        ]);
    }

    /// Reads the byte at `addr`, taken as a 32-bit address (its low 32 bits).
    pub fn read(&mut self, addr: usize) -> (r: u8)
        requires
            port_address(addr) < old(self).bytes().len(),
        ensures
            r == old(self).bytes()[port_address(addr)],
            final(self).bytes() == old(self).bytes(),
            final(self).accesses() == old(self).accesses().push(
                Access::Read(port_address(addr) as u32),
            ),
    {
        proof {
            lemma_port_address(addr);
        }
        self.bus.read(addr as u32)
    }

    /// Writes `data` at `address`, taken as a 32-bit address (its low 32 bits).
    pub fn write(&mut self, address: usize, data: u8)
        requires
            port_address(address) < old(self).bytes().len(),
        ensures
            final(self).bytes() == old(self).bytes().update(port_address(address), data),
            final(self).accesses() == old(self).accesses().push(
                Access::Write(port_address(address) as u32, data),
            ),
    {
        proof {
            lemma_port_address(address);
        }
        self.bus.write(address as u32, data);
    }
}

} // verus!
