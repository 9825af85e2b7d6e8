//! The words exchanged with the bus state machines, and the requests between the
//! processor and its memory task.
use vstd::prelude::*;
use crate::bus_cpu::{spans_address_space, bus_idle};
use crate::memory::{Access, Memory};
use crate::sms::{BusOp, BusStateMachines, read_cycle, write_cycle, pulled};

verus! {

/// A request from the processor to its memory task.
#[derive(Clone, Copy, Debug)]
pub enum RamRequest {
    Read(usize),
    Write(usize, u8),
}

/// The memory task's answer to a request.
#[derive(Clone, Copy, Debug)]
pub enum RamResponse {
    ReadResult(u8),
    WriteComplete,
}

/// The memory task's answer to `request` on a bus holding `bus`, and what the bus holds
/// after it. The bus decodes the low 16 bits of an address: a read cycle answers with
/// the byte there, a write cycle stores the byte there and answers that it is done.
pub open spec fn served(bus: Seq<u8>, request: RamRequest) -> (RamResponse, Seq<u8>) {
    match request {
        RamRequest::Read(address) => (RamResponse::ReadResult(bus[address as int % 65536]), bus),
        RamRequest::Write(address, data) => (
            RamResponse::WriteComplete,
            bus.update(address as int % 65536, data),
        ),
    }
}

/// The word the memory task pushes for a write: the address, as the 24 pins of the
/// write state machine carry it, above the data byte.
pub open spec fn task_write_word(address: usize, data: u8) -> int {
    (address as int % 0x1000000) * 256 + data as int
}

/// The operations the memory task performs on the bus state machines for `request`,
/// where `data` is the word a read pulls: a read cycle that closes with the strobe
/// pushed high (1), or a write cycle.
pub open spec fn task_cycle(request: RamRequest, data: u32) -> Seq<BusOp> {
    match request {
        RamRequest::Read(address) => read_cycle((address as int % 0x1_0000_0000) as u32, data, 1),
        RamRequest::Write(address, byte) => write_cycle(task_write_word(address, byte) as u32),
    }
}

/// The memory task's handling of one request: the bus cycle it runs on the state
/// machines and the answer it sends back. A read answers with the low byte of the data
/// word it pulls.
pub fn serve_request<S: BusStateMachines>(bus_sms: &mut S, request: RamRequest) -> (r: RamResponse)
    requires
        bus_idle(&*old(bus_sms)),
    ensures
        final(bus_sms).ops() == old(bus_sms).ops() + task_cycle(
            request,
            pulled(final(bus_sms).ops()[old(bus_sms).ops().len() + 2int]),
        ),
        request is Read ==> r == RamResponse::ReadResult(
            (pulled(final(bus_sms).ops()[old(bus_sms).ops().len() + 2int]) % 256) as u8,
        ),
        (r, final(bus_sms).bytes()) == served(old(bus_sms).bytes(), request),
        bus_idle(&*final(bus_sms)),
{
    let ghost start = old(bus_sms).ops();
    match request {
        RamRequest::Read(address) => {
            // Perform read cycle using direct references to state machines
            bus_sms.push_read_address(address as u32);
            bus_sms.push_smemr(0);  // Pull SMEMR low
            let data = bus_sms.pull_read_data();
            bus_sms.push_smemr(1);  // Pull SMEMR high
            proof {
                assert((address as u32) as int == address as int % 0x1_0000_0000) by (bit_vector);
                assert(((address as u32) as int) % 65536 == address as int % 65536);
                assert(final(bus_sms).ops() =~= start + task_cycle(request, data));
            }
            RamResponse::ReadResult((data % 256) as u8)
        },
        RamRequest::Write(address, data) => {
            // Perform write cycle
            bus_sms.push_write(0xFFFFFF);  // Set pins to output
            let value = ((address % 0x1000000) as u32) * 256 + (data as u32);
            bus_sms.push_write(value);
            // Wait for write to complete (signaled by IRQ)
            bus_sms.wait_write_done();
            // Clean up pin directions
            bus_sms.push_write(0xFFFF00);
            proof {
                assert(final(bus_sms).ops() =~= start + task_cycle(request, 0));
            }
            RamResponse::WriteComplete
        },
    }
}

/// The processor's handle on its memory task: each read and write is a request the task
/// serves on the bus state machines.
pub struct RamClient<S: BusStateMachines> {
    task: S,  // the state machines the memory task runs its cycles on
    log: Ghost<Seq<Access>>,  // the accesses made through the memory interface
}

impl<S: BusStateMachines> RamClient<S> {
    /// The bytes on the bus that the task serves.
    pub closed spec fn bus_bytes(&self) -> Seq<u8> {
        self.task.bytes()
    }

    /// The task can serve a request: its bus spans the address space and is idle.
    pub closed spec fn task_ready(&self) -> bool {
        bus_idle(&self.task)
    }

    /// Every operation the task has performed on the state machines.
    pub closed spec fn task_ops(&self) -> Seq<BusOp> {
        self.task.ops()
    }

    /// A client of the memory task running on the state machines `task`.
    pub fn new(task: S) -> (r: Self)
        requires
            bus_idle(&task),
        ensures
            r.bus_bytes() == task.bytes(),
            r.task_ops() == task.ops(),
            r.task_ready(),
    {
        Self { task, log: Ghost(Seq::empty()) }
    }

    /// Asks the task for the byte at `address`.
    pub fn read(&mut self, address: usize) -> (r: u8)
        requires
            old(self).task_ready(),
        ensures
            r == old(self).bus_bytes()[address as int % 65536],
            final(self).bus_bytes() == old(self).bus_bytes(),
            final(self).task_ops() == old(self).task_ops() + task_cycle(
                RamRequest::Read(address),
                pulled(final(self).task_ops()[old(self).task_ops().len() + 2int]),
            ),
            final(self).task_ready(),
    {
        // Send read request and await response
        match serve_request(&mut self.task, RamRequest::Read(address)) {
            RamResponse::ReadResult(data) => data,
            RamResponse::WriteComplete => {
                // The task answers a read with its result, never with a write completion.
                assert(false);
                0
            },
        }
    }

    /// Asks the task to store `data` at `address`, and waits until it is done.
    pub fn write(&mut self, address: usize, data: u8)
        requires
            old(self).task_ready(),
        ensures
            final(self).bus_bytes() == old(self).bus_bytes().update(address as int % 65536, data),
            final(self).task_ops() == old(self).task_ops() + task_cycle(
                RamRequest::Write(address, data),
                0,
            ),
            final(self).task_ready(),
    {
        // Send write request and await completion
        match serve_request(&mut self.task, RamRequest::Write(address, data)) {
            RamResponse::WriteComplete => {},
            RamResponse::ReadResult(_) => {
                // The task answers a write with its completion, never with a read result.
                assert(false);
            },
        }
    }
}

impl<S: BusStateMachines> Memory for RamClient<S> {
    /// The 64 KiB the bus decodes; nothing while the task cannot serve a request.
    closed spec fn bytes(&self) -> Seq<u8> {
        if bus_idle(&self.task) {
            self.task.bytes().subrange(0, 65536)
        } else {
            Seq::empty()
        }
    }

    closed spec fn accesses(&self) -> Seq<Access> {
        self.log@
    }

    fn read(&mut self, addr: u32) -> (r: u8) {
        let ghost before = self.log@;
        let data = RamClient::read(self, addr as usize);
        self.log = Ghost(before.push(Access::Read(addr)));
        data
    }

    fn write(&mut self, addr: u32, data: u8) {
        let ghost before = self.log@;
        RamClient::write(self, addr as usize, data);
        self.log = Ghost(before.push(Access::Write(addr, data)));
        assert(self.task.bytes().subrange(0, 65536) =~= old(self).task.bytes().subrange(
            0,
            65536,
        ).update(addr as int, data));
    }
}

/// The word a write cycle pushes to the bus: the address above the data byte.
pub fn write_word(address: u16, data: u8) -> (r: u32)
    ensures
        r == address as int * 256 + data as int,
{
    (address as u32) * 256 + (data as u32)
}

/// Splits a write-cycle word into its address (the bits above the low byte) and its
/// data byte.
pub fn split_write_word(write: u32) -> (r: (usize, u8))
    ensures
        r.0 == write / 256,
        r.1 == write % 256,
{
    let address = (write / 256) as usize;  // Address is above the low 8 bits
    let data = (write % 256) as u8;  // Data is in the lower 8 bits
    (address, data)
}

/// Through the memory task, a read gives back the byte that the last write to the same
/// bus address stored, and a write leaves the bytes at every other bus address as they
/// were.
pub proof fn law_task_read_after_write(bus: Seq<u8>, address: usize, data: u8, other: usize)
    requires
        spans_address_space(bus),
    ensures
        served(served(bus, RamRequest::Write(address, data)).1, RamRequest::Read(address)).0
            == RamResponse::ReadResult(data),
        other as int % 65536 != address as int % 65536 ==> served(
            served(bus, RamRequest::Write(address, data)).1,
            RamRequest::Read(other),
        ).0 == served(bus, RamRequest::Read(other)).0,
{
}

/// Splitting the word of a write cycle gives back its address and data.
pub proof fn law_write_word_roundtrip(address: u16, data: u8)
    ensures
        (address as int * 256 + data as int) / 256 == address,
        (address as int * 256 + data as int) % 256 == data,
{
}

} // verus!
