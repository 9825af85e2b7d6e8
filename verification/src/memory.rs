//! The memory a processor reads and writes: a sequence of bytes addressed from zero.
use vstd::prelude::*;

verus! {

/// One access to a memory: a read of an address, or a write of a byte to an address.
#[derive(Clone, Copy, Debug, PartialEq, Eq, Structural)]
pub enum Access {
    Read(u32),
    Write(u32, u8),
}

/// A byte-addressed memory that a processor is connected to.
///
/// The processor is generic over its memory, as it is over the read and write
/// functions its user hands it: a local array, a memory board behind a bus, or any
/// other store of bytes. An implementation keeps the promise that a read gives back
/// the byte that the last write to that address stored, and it records every call made
/// to it, so that a contract can say which reads and writes an operation makes.
pub trait Memory {
    /// The bytes the memory holds, indexed by address.
    spec fn bytes(&self) -> Seq<u8>;

    /// Every read and write made through this interface, in order.
    spec fn accesses(&self) -> Seq<Access>;

    /// Reads the byte at `addr`; the memory is left as it was.
    fn read(&mut self, addr: u32) -> (r: u8)
        requires
            (addr as int) < old(self).bytes().len(),
        ensures
            r == old(self).bytes()[addr as int],
            final(self).bytes() == old(self).bytes(),
            final(self).accesses() == old(self).accesses().push(Access::Read(addr)),
    ;

    /// Stores `data` at `addr`; every other address keeps its byte.
    fn write(&mut self, addr: u32, data: u8)
        requires
            (addr as int) < old(self).bytes().len(),
        ensures
            final(self).bytes() == old(self).bytes().update(addr as int, data),
            final(self).accesses() == old(self).accesses().push(Access::Write(addr, data)),
    ;
}

/// A write followed by a read of the same address gives back the written byte, and
/// leaves every other address as it was.
pub proof fn law_read_after_write(before: Seq<u8>, addr: int, data: u8)
    requires
        0 <= addr < before.len(),
    ensures
        before.update(addr, data)[addr] == data,
        before.update(addr, data).len() == before.len(),
        forall|other: int|
            0 <= other < before.len() && other != addr ==> #[trigger] before.update(addr, data)[other]
                == before[other],
{
}

} // verus!
