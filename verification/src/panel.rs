//! The front panel: decoding its switches and buttons (read through two MCP23017
//! port expanders) and deciding what each press does.
use vstd::prelude::*;
use crate::bits::word;

verus! {

pub const BUTTONS_ADDR: u8 = 0x20;  // default addr

pub const ASWITCHES_ADDR: u8 = 0x21;

// MCP23017 registers, for IOCON.BANK = 0
pub const IODIRA: u8 = 0x00;

pub const IPOLA: u8 = 0x02;

pub const GPINTENA: u8 = 0x04;

pub const DEFVALA: u8 = 0x06;

pub const INTCONA: u8 = 0x08;

pub const IOCONA: u8 = 0x0A;

pub const GPPUA: u8 = 0x0C;

pub const INTFA: u8 = 0x0E;

pub const INTCAPA: u8 = 0x10;

pub const GPIOA: u8 = 0x12;

pub const OLATA: u8 = 0x14;

pub const IODIRB: u8 = 0x01;

pub const IPOLB: u8 = 0x03;

pub const GPINTENB: u8 = 0x05;

pub const DEFVALB: u8 = 0x07;

pub const INTCONB: u8 = 0x09;

pub const IOCONB: u8 = 0x0B;

pub const GPPUB: u8 = 0x0D;

pub const INTFB: u8 = 0x0F;

pub const INTCAPB: u8 = 0x11;

pub const GPIOB: u8 = 0x13;

pub const OLATB: u8 = 0x15;

/// The name of MCP23017 register `reg` (0x00 to 0x15).
pub open spec fn regname_spec(reg: u8) -> Seq<char> {
    match reg {
        0x00 => "IODIRA"@,
        0x01 => "IODIRB"@,
        0x02 => "IPOLA"@,
        0x03 => "IPOLB"@,
        0x04 => "GPINTENA"@,
        0x05 => "GPINTENB"@,
        0x06 => "DEFVALA"@,
        0x07 => "DEFVALB"@,
        0x08 => "INTCONA"@,
        0x09 => "INTCONB"@,
        0x0A => "IOCONA"@,
        0x0B => "IOCONB"@,
        0x0C => "GPPUA"@,
        0x0D => "GPPUB"@,
        0x0E => "INTFA"@,
        0x0F => "INTFB"@,
        0x10 => "INTCAPA"@,
        0x11 => "INTCAPB"@,
        0x12 => "GPIOA"@,
        0x13 => "GPIOB"@,
        0x14 => "OLATA"@,
        0x15 => "OLATB"@,
        _ => Seq::empty(),
    }
}

/// The name of MCP23017 register `reg`; every register from 0x00 to 0x15 has one.
pub fn regname(reg: u8) -> (r: &'static str)
    requires
        reg <= 0x15,
    ensures
        r@ == regname_spec(reg),
{
    match reg {
        IODIRA => "IODIRA",
        IPOLA => "IPOLA",
        GPINTENA => "GPINTENA",
        DEFVALA => "DEFVALA",
        INTCONA => "INTCONA",
        IOCONA => "IOCONA",
        GPPUA => "GPPUA",
        INTFA => "INTFA",
        INTCAPA => "INTCAPA",
        GPIOA => "GPIOA",
        OLATA => "OLATA",
        IODIRB => "IODIRB",
        IPOLB => "IPOLB",
        GPINTENB => "GPINTENB",
        DEFVALB => "DEFVALB",
        INTCONB => "INTCONB",
        IOCONB => "IOCONB",
        GPPUB => "GPPUB",
        INTFB => "INTFB",
        INTCAPB => "INTCAPB",
        GPIOB => "GPIOB",
        OLATB => "OLATB",
        _ => "OLATB",
    }
}

/// Bits that were 1 in the last sample and are 0 now: the buttons, active low, just
/// pressed.
pub fn negative_edges(last_state: u8, curr_state: u8) -> (r: u8)
    ensures
        r == last_state & !curr_state,
{
    last_state & !curr_state
}

/// Bit `i` of `edges` is set.
pub open spec fn bit_set(edges: u8, i: u8) -> bool {
    (edges >> i) & 0x01 != 0
}

// BUTTONS A
pub fn get_examnext(edges: u8) -> (r: bool)
    ensures
        r == bit_set(edges, 0),
{
    proof {
        lemma_shift_zero(edges);
    }
    (edges & 0x01) != 0
}

proof fn lemma_shift_zero(x: u8)
    by (bit_vector)
    ensures
        (x >> 0u8) & 0x01 == x & 0x01,
{
}

pub fn get_run(edges: u8) -> (r: bool)
    ensures
        r == bit_set(edges, 1),
{
    ((edges >> 1) & 0x01) != 0
}

pub fn get_stop(edges: u8) -> (r: bool)
    ensures
        r == bit_set(edges, 2),
{
    ((edges >> 2) & 0x01) != 0
}

pub fn get_singstep(edges: u8) -> (r: bool)
    ensures
        r == bit_set(edges, 3),
{
    ((edges >> 3) & 0x01) != 0
}

pub fn get_deponext(edges: u8) -> (r: bool)
    ensures
        r == bit_set(edges, 4),
{
    ((edges >> 4) & 0x01) != 0
}

pub fn get_clr(edges: u8) -> (r: bool)
    ensures
        r == bit_set(edges, 5),
{
    ((edges >> 5) & 0x01) != 0
}

// BUTTONS B
pub fn get_reset(edges: u8) -> (r: bool)
    ensures
        r == bit_set(edges, 1),
{
    // reset signal stored in bit 1
    ((edges >> 1) & 0x01) != 0
}

pub fn get_deposit(edges: u8) -> (r: bool)
    ensures
        r == bit_set(edges, 2),
{
    ((edges >> 2) & 0x01) != 0
}

pub fn get_examine(edges: u8) -> (r: bool)
    ensures
        r == bit_set(edges, 3),
{
    ((edges >> 3) & 0x01) != 0
}

/// `x` with its bit order reversed: bit i moves to bit 7 - i.
pub open spec fn reversed(x: u8) -> u8 {
    ((x & 0x01) << 7u8) | ((x & 0x02) << 5u8) | ((x & 0x04) << 3u8) | ((x & 0x08) << 1u8) | ((x
        & 0x10) >> 1u8) | ((x & 0x20) >> 3u8) | ((x & 0x40) >> 5u8) | ((x & 0x80) >> 7u8)
}

/// Reverses the bit order of a byte (the port expanders deliver the address switches
/// in reverse order).
pub fn reverse_bits(x: u8) -> (r: u8)
    ensures
        r == reversed(x),
{
    let ghost x0 = x;
    let mut x = x;
    x = (x >> 1 & 0x55) | (x << 1 & 0xaa);
    x = (x >> 2 & 0x33) | (x << 2 & 0xcc);
    x = (x >> 4 & 0x0f) | (x << 4 & 0xf0);
    proof {
        lemma_swap_network(x0);
    }
    x
}

proof fn lemma_swap_network(x: u8)
    by (bit_vector)
    ensures
        ({
            let y = (x >> 1 & 0x55) | (x << 1 & 0xaa);
            let z = (y >> 2 & 0x33) | (y << 2 & 0xcc);
            (z >> 4 & 0x0f) | (z << 4 & 0xf0)
        }) == ((x & 0x01) << 7u8) | ((x & 0x02) << 5u8) | ((x & 0x04) << 3u8) | ((x & 0x08)
            << 1u8) | ((x & 0x10) >> 1u8) | ((x & 0x20) >> 3u8) | ((x & 0x40) >> 5u8) | ((x
            & 0x80) >> 7u8),
{
}

/// Reversing the bit order twice gives back the byte.
pub proof fn law_reverse_involution(x: u8)
    ensures
        reversed(reversed(x)) == x,
{
    assert(reversed(reversed(x)) == x) by (bit_vector);
}

/// The address set on the switches: the A port gives A8-A15 and the B port A0-A7,
/// each in reverse bit order.
pub fn switch_address(switches_a: u8, switches_b: u8) -> (r: u16)
    ensures
        r == word(reversed(switches_a), reversed(switches_b)),
{
    let hi = reverse_bits(switches_a);
    let lo = reverse_bits(switches_b);
    (hi as u16) * 256 + (lo as u16)
}

/// What the panel does for one sample of its buttons.
pub enum PanelAction {
    /// Assert RESET on the bus and take the bus from the processor.
    Reset,
    /// Leave run mode.
    Stop,
    /// Enter run mode.
    Run,
    /// Pulse the clock once.
    SingleStep,
    /// Write `data` (the low byte of the switch address) to memory at the address on
    /// the bus.
    Deposit { data: u16 },
    /// Read memory at `address` and show it.
    Examine { address: u16 },
    /// Nothing was pressed that applies.
    Idle,
}

/// The outcome of one sample: the new run mode, whether the clock line is high for
/// this sample, and the action to carry out.
pub struct PanelDecision {
    pub run_mode: bool,
    pub clock_high: bool,
    pub action: PanelAction,
}

/// The action for one sample: reset first, then stop, run, and (only while stopped)
/// single step, deposit and examine.
pub open spec fn panel_action(run_mode: bool, a_edges: u8, b_edges: u8, address: u16) -> PanelAction {
    if bit_set(b_edges, 1) {
        PanelAction::Reset
    } else if bit_set(a_edges, 2) {
        PanelAction::Stop
    } else if bit_set(a_edges, 1) {
        PanelAction::Run
    } else if bit_set(a_edges, 3) && !run_mode {
        PanelAction::SingleStep
    } else if bit_set(b_edges, 2) && !run_mode {
        PanelAction::Deposit { data: (address % 256) as u16 }
    } else if bit_set(b_edges, 3) && !run_mode {
        PanelAction::Examine { address }
    } else {
        PanelAction::Idle
    }
}

/// Decides one sample of the front panel from the current run mode, the newly pressed
/// buttons of ports A and B, and the switch address.
pub fn panel_step(run_mode: bool, button_a_edges: u8, button_b_edges: u8, address: u16) -> (r:
    PanelDecision)
    ensures
        r.action == panel_action(run_mode, button_a_edges, button_b_edges, address),
        r.run_mode == (match r.action {
            PanelAction::Reset | PanelAction::Stop => false,
            PanelAction::Run => true,
            _ => run_mode,
        }),
        r.clock_high == (run_mode || r.action is SingleStep),
{
    proof {
        lemma_low_byte(address);
    }
    // default values for control signals
    let mut clock_high = false;
    let mut run_mode = run_mode;
    if run_mode {
        clock_high = true;
    }
    let action = if get_reset(button_b_edges) {
        run_mode = false;
        PanelAction::Reset
    } else if get_stop(button_a_edges) {
        run_mode = false;
        PanelAction::Stop
    } else if get_run(button_a_edges) {
        run_mode = true;
        PanelAction::Run
    } else if get_singstep(button_a_edges) && run_mode == false {
        clock_high = true;
        PanelAction::SingleStep
    } else if get_deposit(button_b_edges) && run_mode == false {
        // data from the switches (low byte of the address)
        PanelAction::Deposit { data: address & 0x00FF }
    } else if get_examine(button_b_edges) && run_mode == false {
        PanelAction::Examine { address }
    } else {
        PanelAction::Idle
    };
    PanelDecision { run_mode, clock_high, action }
}

/// While the processor runs, a sample of the buttons leads only to reset, stop, run or
/// nothing: single step, deposit and examine are taken only while it is stopped. The
/// RESET button (bit 1 of port B) wins over every other button in either mode.
pub proof fn law_panel_run_mode(run_mode: bool, a_edges: u8, b_edges: u8, address: u16)
    ensures
        ({
            let act = panel_action(true, a_edges, b_edges, address);
            act is Reset || act is Stop || act is Run || act is Idle
        }),
        b_edges & 0x02 != 0 ==> panel_action(run_mode, a_edges, b_edges, address) is Reset,
        b_edges & 0x02 == 0 && a_edges & 0x04 != 0 ==> panel_action(
            run_mode,
            a_edges,
            b_edges,
            address,
        ) is Stop,
{
    assert((b_edges & 0x02 != 0) == ((b_edges >> 1u8) & 0x01 != 0)) by (bit_vector);
    assert((a_edges & 0x04 != 0) == ((a_edges >> 2u8) & 0x01 != 0)) by (bit_vector);
}

/// While the processor is stopped and only DEPOSIT (bit 2 of port B) is pressed, the
/// panel deposits the low byte of the switch address; with only EXAMINE (bit 3), it
/// examines the switch address.
pub proof fn law_panel_stopped(address: u16)
    ensures
        panel_action(false, 0, 0x04, address) == (PanelAction::Deposit {
            data: (address % 256) as u16,
        }),
        panel_action(false, 0, 0x08, address) == (PanelAction::Examine { address }),
        panel_action(true, 0, 0x04, address) is Idle,
        panel_action(true, 0, 0x08, address) is Idle,
{
    assert(((0x04u8 >> 1u8) & 0x01 == 0) && ((0x04u8 >> 2u8) & 0x01 != 0) && ((0x08u8 >> 1u8)
        & 0x01 == 0) && ((0x08u8 >> 2u8) & 0x01 == 0) && ((0x08u8 >> 3u8) & 0x01 != 0) && ((0u8
        >> 1u8) & 0x01 == 0) && ((0u8 >> 2u8) & 0x01 == 0) && ((0u8 >> 3u8) & 0x01 == 0))
        by (bit_vector);
}

proof fn lemma_low_byte(x: u16)
    by (bit_vector)
    ensures
        x & 0x00FF == x % 256,
{
}

} // verus!
