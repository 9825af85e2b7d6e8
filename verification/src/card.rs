//! The processor card's control loop: on each turn it reads its reset and ready inputs,
//! steps the processor, and reports what it drives on its panel and halt-acknowledge
//! lines. The card's firmware performs the pin I/O around each turn.
use vstd::prelude::*;
use crate::cpu::{CPU, reset_state};
use crate::memory::Memory;
use crate::model::{CpuState, ready, step};

verus! {

/// What the card drives after one turn of its loop.
pub struct CardTurn {
    /// The processor was halted when the turn began: the card drives its panel line low
    /// and raises HLTA.
    pub halt_acknowledged: bool,
    /// The card ran one instruction, holding its panel line high while it did and
    /// driving it low again afterwards.
    pub ran_instruction: bool,
}

/// The processor state in which a turn with ready high runs its instruction.
pub open spec fn running(s: CpuState) -> CpuState {
    CpuState { halt: false, ..s }
}

/// One turn of the card's loop. A low reset input resets the processor; otherwise a
/// high ready input runs one instruction (the processor is released from halt for it
/// and halted again after it); with neither, the processor is left as it was.
pub fn card_step<B: Memory>(cpu: &mut CPU<B>, reset_low: bool, ready_high: bool) -> (r: CardTurn)
    requires
        !reset_low && ready_high ==> {
            &&& old(cpu)@.addressable(old(cpu)@.pc as int)
            &&& ready(running(old(cpu)@), old(cpu)@.mem[old(cpu)@.pc as int])
        },
    ensures
        r.halt_acknowledged == old(cpu)@.halt,
        r.ran_instruction == (!reset_low && ready_high),
        reset_low ==> final(cpu)@ == reset_state(old(cpu)@.mem),
        !reset_low && ready_high ==> final(cpu)@ == (CpuState {
            halt: true,
            ..step(running(old(cpu)@), old(cpu)@.mem[old(cpu)@.pc as int])
        }),
        !reset_low && !ready_high ==> final(cpu)@ == old(cpu)@,
{
    let halt_acknowledged = cpu.halted();
    if reset_low {
        cpu.reset();
        CardTurn { halt_acknowledged, ran_instruction: false }
    } else if ready_high {
        cpu.unhalt();
        let instr = cpu.fetch_instruction();
        cpu.execute_instruction(instr);
        cpu.halt();
        CardTurn { halt_acknowledged, ran_instruction: true }
    } else {
        CardTurn { halt_acknowledged, ran_instruction: false }
    }
}

} // verus!
