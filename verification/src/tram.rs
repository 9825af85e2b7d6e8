//! The bus controller: the channel ends to the card it serves, and the bus-cycle entry
//! points the cards call.
use vstd::prelude::*;
use crate::recall::BusState;

verus! {

/// A bus controller: the two ends of the channel pair to the card it serves.
pub struct Tram<T, R> {
    pub recv_channel: R,
    pub send_channel: T,
}

impl<T, R> Tram<T, R> {
    pub fn new(tx: T, rx: R) -> (r: Self)
        ensures
            r.recv_channel == rx,
            r.send_channel == tx,
    {
        Self { recv_channel: rx, send_channel: tx }
    }

    /* functions for driving bus (GPIO, PIO, etc.) */
    /// The bus state as detected: no pins are sampled yet, so it reports address 0,
    /// data 0 and no request.
    pub fn detect_memory_request(&self) -> (r: BusState)
        ensures
            r.addr == 0,
            r.data == 0,
            !r.read_request,
            !r.write_request,
            !r.read_response,
    {
        let addr: usize = 0;
        let data: u8 = 0;
        let read_request: bool = false;
        let write_request: bool = false;
        let read_response: bool = false;
        // return corresponding bus state
        BusState { addr, data, read_request, write_request, read_response }
    }
}

/// A processor read request over the bus; the transfer is not wired up yet and gives 0.
pub fn cpu_mem_read_req(addr: u16) -> (r: u8)
    ensures
        r == 0,
{
    0
}

/// A processor write request over the bus; the transfer is not wired up yet.
pub fn cpu_mem_write_req() {
}

/// The processor side of a memory read cycle; not wired up yet, it gives 0.
pub fn cpu_mem_read(addr: u16) -> (r: u8)
    ensures
        r == 0,
{
    0
}

/// The processor side of a memory write cycle; not wired up yet.
pub fn cpu_mem_write(addr: u16, data: u8) {
}

/// The memory side of a read cycle; not wired up yet.
pub fn mem_cpu_read() {
}

/// The memory side of a write cycle; not wired up yet.
pub fn mem_cpu_write() {
}

} // verus!
