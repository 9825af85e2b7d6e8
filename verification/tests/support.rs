use cpu_emulator::bus::{serve_request, split_write_word, write_word, RamClient, RamRequest, RamResponse};
use cpu_emulator::cpu::{Reg as EmuReg, CPU as EmuCpu};
use cpu_emulator::bus_cpu::{bus_read, bus_write, initialize_program, BusCPU};
use cpu_emulator::sms::{BoardBus, BusOp};
use cpu_emulator::instructions::instruction_info;
use cpu_emulator::memory::Memory;
use cpu_emulator::panel::{
    get_clr, get_deponext, get_deposit, get_examine, get_examnext, get_reset, get_run,
    get_singstep, get_stop, negative_edges, panel_step, regname, reverse_bits, switch_address,
    PanelAction, GPIOA, OLATB,
};
use cpu_emulator::recall::{create_test_memory, serve_cycle, BusCycle, BusState, Message, Recall, RAM as RecallRam};
use cpu_emulator::runner::{Flags, Runner, CPU as RunnerCpu};
use cpu_emulator::tram::{cpu_mem_read_req, Tram};
use cpu_emulator::bench::ram::RAM as Memory64K;
use cpu_emulator::ram::RAM;
use cpu_emulator::bits::count_ones;

#[test]
fn instruction_table_entries() {
    let nop = instruction_info(0x00);
    assert_eq!(nop.mnemonic, "NOP");
    assert_eq!((nop.bytes, nop.cycles, nop.affected_flags), (1, 4, 0));
    let lxi = instruction_info(0x01);
    assert_eq!(lxi.mnemonic, "LXI B,d16");
    assert_eq!(lxi.bytes, 3);
    let add = instruction_info(0x80);
    assert_eq!(add.affected_flags, 0b1101_0101);
    let out = instruction_info(0xD3);
    assert_eq!(out.bytes, 2);
    let ori = instruction_info(0xF6);
    assert_eq!(ori.mnemonic, "ORId8");
    assert_eq!(instruction_info(0x76).cycles, 7);
}

#[test]
fn panel_buttons_decode() {
    assert_eq!(negative_edges(0xFF, 0xFD), 0x02);
    assert_eq!(negative_edges(0x00, 0x00), 0x00);
    assert!(get_examnext(0x01));
    assert!(get_run(0x02) && !get_run(0x01));
    assert!(get_stop(0x04));
    assert!(get_singstep(0x08));
    assert!(get_deponext(0x10));
    assert!(get_clr(0x20));
    assert!(get_reset(0x02));
    assert!(get_deposit(0x04));
    assert!(get_examine(0x08));
}

#[test]
fn reverse_bits_values() {
    assert_eq!(reverse_bits(0x01), 0x80);
    assert_eq!(reverse_bits(0b1100_1010), 0b0101_0011);
    assert_eq!(reverse_bits(reverse_bits(0x5C)), 0x5C);
    assert_eq!(switch_address(0x80, 0x01), 0x0180);
}

#[test]
fn mcp_register_names() {
    assert_eq!(regname(GPIOA), "GPIOA");
    assert_eq!(regname(OLATB), "OLATB");
    assert_eq!(regname(0x00), "IODIRA");
    assert_eq!(regname(0x0D), "GPPUB");
}

#[test]
fn panel_decisions() {
    let d = panel_step(true, 0x00, 0x02, 0x1234);
    assert!(matches!(d.action, PanelAction::Reset));
    assert!(!d.run_mode && d.clock_high);
    let d = panel_step(false, 0x02, 0x00, 0);
    assert!(matches!(d.action, PanelAction::Run));
    assert!(d.run_mode && !d.clock_high);
    let d = panel_step(true, 0x04, 0x00, 0);
    assert!(matches!(d.action, PanelAction::Stop));
    assert!(!d.run_mode);
    let d = panel_step(false, 0x08, 0x00, 0);
    assert!(matches!(d.action, PanelAction::SingleStep));
    assert!(d.clock_high);
    let d = panel_step(true, 0x08, 0x00, 0);
    assert!(matches!(d.action, PanelAction::Idle));
    let d = panel_step(false, 0x00, 0x04, 0x12AB);
    assert!(matches!(d.action, PanelAction::Deposit { data: 0xAB }));
    let d = panel_step(false, 0x00, 0x08, 0x12AB);
    assert!(matches!(d.action, PanelAction::Examine { address: 0x12AB }));
}

#[test]
fn bus_words_round_trip() {
    let w = write_word(0xBEEF, 0x5A);
    assert_eq!(w, 0xBEEF5A);
    assert_eq!(split_write_word(w), (0xBEEF, 0x5A));
    let _ = RamRequest::Write(1, 2);
    let _ = RamRequest::Read(1);
    let _ = RamResponse::ReadResult(3);
    let _ = RamResponse::WriteComplete;
}

#[test]
fn runner_flags_pack_unpack() {
    let mut f = Flags::default();
    assert!(!f.sign() && !f.zero() && !f.parity() && !f.carry() && !f.aux());
    assert_eq!(f.pack_flags(), 0x0002);
    f.unpack_flags(0x12FF);
    assert!(f.sign() && f.zero() && f.parity() && f.carry() && f.aux());
    assert_eq!(f.pack_flags(), 0x00D7);
    f.unpack_flags(0x0010);
    assert!(f.aux() && !f.carry());
    assert_eq!(f.pack_flags(), 0x0012);
}

#[test]
fn runner_cpu_halts_on_hlt() {
    let mut cpu = RunnerCpu::new();
    cpu.b = 0x10;
    cpu.execute_instruction(0x00, 0);
    assert_eq!(cpu.b, 0x10);
    cpu.execute_instruction(0x76, 0);
    assert!(cpu.halt);
    cpu.jump(0x1234);
    assert_eq!(cpu.read_pc(), 0x1234);
    cpu.set_interrupt_enable(true);
    assert!(cpu.interrupt_enable);
    cpu.reset();
    assert!(!cpu.halt && !cpu.interrupt_enable);
    assert_eq!(cpu.read_sp(), 0);
    let runner = Runner::new(1u8, 2u16);
    assert_eq!(runner.send_channel, 1);
    assert_eq!(runner.recv_channel, 2);
    assert_eq!(runner.cpu.a, 0);
}

#[test]
fn recall_memory_and_messages() {
    let mut recall = Recall::new((), ());
    assert_eq!(recall.ram.read(0x8000), 0);
    recall.ram.write(0x8000, 0x42);
    assert_eq!(recall.ram.read(0x8000), 0x42);
    let mut ram = RecallRam::new();
    Memory::write(&mut ram, 0xFFFF, 7);
    assert_eq!(Memory::read(&mut ram, 0xFFFF), 7);
    let m = Message::MemoryWriteRequest { addr: 1, data: 2 };
    assert!(matches!(m, Message::MemoryWriteRequest { addr: 1, data: 2 }));
    let _ = Message::MemoryReadRequest { addr: 3 };
    let _ = Message::MemoryReadResponse { data: 4 };
}

#[test]
fn test_memory_image() {
    let m = create_test_memory();
    assert_eq!(m[0x0000], 0xAA);
    assert_eq!(m[0x0001], 0x01);
    assert_eq!(m[0x2008], 0x5A);
    assert_eq!(m[0x2009], 0x09);
    assert_eq!(m[0x3000], 0x33);
    assert_eq!(m[0x4000], 0x44);
    assert_eq!(m[0xFFFF], 0xFF);
    assert_eq!(m[0x12FE], 0xFE);
}

#[test]
fn tram_reports_idle_bus() {
    let tram = Tram::new(0u8, 0u8);
    let s: BusState = tram.detect_memory_request();
    assert_eq!((s.addr, s.data), (0, 0));
    assert!(!s.read_request && !s.write_request && !s.read_response);
    assert_eq!(cpu_mem_read_req(0x1234), 0);
}

#[test]
fn bus_processor_moves_data_over_the_bus() {
    let mut bus = Memory64K::new();
    // LDA 2008h; STA 3000h; HLT
    for (i, b) in [0x3A, 0x08, 0x20, 0x32, 0x00, 0x30, 0x76].iter().enumerate() {
        bus.write(i, *b);
    }
    bus.write(0x2008, 0x5A);
    let mut cpu = BusCPU::new(RAM::new(Memory64K::new()), BoardBus::new(bus));
    cpu.reset();
    while !cpu.halted() {
        let instr = cpu.fetch_instruction();
        cpu.execute_instruction(instr);
    }
    assert_eq!(cpu.read_mem(0x3000), 0x5A);
    assert_eq!(cpu.fetch_word(0), 0x2008);
    assert_eq!(cpu.fetch_byte(2), 0x32);
    cpu.write_mem(0x10000 + 5, 0x11);
    assert_eq!(cpu.read_mem(5), 0x11);
}

#[test]
fn bus_transactions() {
    let mut bus = BoardBus::new(Memory64K::new());
    bus_write(&mut bus, 0x1234, 9);
    assert_eq!(
        bus.history().as_slice(),
        &[
            BusOp::PushWrite(0xFFFFFF),
            BusOp::PushWrite(0x123409),
            BusOp::WaitWriteDone,
            BusOp::PushWrite(0xFFFF00),
        ]
    );
    assert_eq!(bus_read(&mut bus, 0x1234), 9);
    assert_eq!(
        &bus.history()[4..],
        &[
            BusOp::PushReadAddress(0x1234),
            BusOp::PushSmemr(0),
            BusOp::PullReadData(9),
            BusOp::PushSmemr(1),
        ]
    );
    assert_eq!(bus.memory().read(0x1234), 9);
}

#[test]
fn counting_ones() {
    assert_eq!(count_ones(0), 0);
    assert_eq!(count_ones(0xFF), 8);
    assert_eq!(count_ones(0b1010_0001), 3);
}

#[test]
fn memory_task_serves_requests() {
    let mut bus = BoardBus::new(Memory64K::new());
    let r = serve_request(&mut bus, RamRequest::Write(0x1234, 0xA5));
    assert!(matches!(r, RamResponse::WriteComplete));
    let r = serve_request(&mut bus, RamRequest::Read(0x1234));
    assert!(matches!(r, RamResponse::ReadResult(0xA5)));
    // the write pushes directions, address << 8 | data, waits, releases the data pins;
    // the read pushes the address, strobes SMEMR low, pulls the data, strobes it high
    assert_eq!(
        bus.history().as_slice(),
        &[
            BusOp::PushWrite(0xFFFFFF),
            BusOp::PushWrite(0x1234A5),
            BusOp::WaitWriteDone,
            BusOp::PushWrite(0xFFFF00),
            BusOp::PushReadAddress(0x1234),
            BusOp::PushSmemr(0),
            BusOp::PullReadData(0xA5),
            BusOp::PushSmemr(1),
        ]
    );
    // the bus decodes the low 16 bits of an address
    let r = serve_request(&mut bus, RamRequest::Read(0x1_1234));
    assert!(matches!(r, RamResponse::ReadResult(0xA5)));
    let r = serve_request(&mut bus, RamRequest::Read(0x1235));
    assert!(matches!(r, RamResponse::ReadResult(0x00)));
}

#[test]
fn memory_task_read_after_write() {
    let mut client = RamClient::new(BoardBus::new(Memory64K::new()));
    client.write(0x0040, 0x11);
    client.write(0x0041, 0x22);
    assert_eq!(client.read(0x0040), 0x11);
    assert_eq!(client.read(0x0041), 0x22);
    client.write(0x1_0040, 0x33);
    assert_eq!(client.read(0x0040), 0x33);
    assert_eq!(Memory::read(&mut client, 0x0041), 0x22);
}

#[test]
fn processor_runs_through_memory_task() {
    let mut ram = RAM::new(RamClient::new(BoardBus::new(Memory64K::new())));
    ram.init();
    let mut cpu = EmuCpu::new(ram);
    cpu.reset();
    for _ in 0..10 {
        if cpu.halted() {
            break;
        }
        let op = cpu.fetch_instruction();
        cpu.execute_instruction(op);
    }
    assert!(cpu.halted());
    assert_eq!(cpu.read_reg(EmuReg::A), 0x0C);
}

#[test]
fn memory_card_serves_cycles() {
    let mut memory = create_test_memory();
    assert_eq!(serve_cycle(&mut memory, BusCycle::Read { address: 0x2008 }), Some(0x5A));
    assert_eq!(serve_cycle(&mut memory, BusCycle::Read { address: 0x1234 }), Some(0x34));
    let word = write_word(0x2008, 0x77);
    assert_eq!(serve_cycle(&mut memory, BusCycle::Write { word }), None);
    assert_eq!(serve_cycle(&mut memory, BusCycle::Read { address: 0x2008 }), Some(0x77));
    // the neighbouring byte keeps its value
    assert_eq!(serve_cycle(&mut memory, BusCycle::Read { address: 0x2009 }), Some(0x09));
}

#[test]
fn test_mvi_a() {
    let mut cpu = RunnerCpu::new();
    // MVI A, 0x42: the operand byte has come back over the bus
    cpu.execute_with_operand(0x3E, 0x42);
    assert_eq!(cpu.a, 0x42);
}

#[test]
fn test_inr_b() {
    let mut cpu = RunnerCpu::new();
    cpu.b = 0x10;
    cpu.execute_instruction(0x04, 0); // INR B
    assert_eq!(cpu.b, 0x11);
}

#[test]
fn runner_inr_b_flags() {
    let mut cpu = RunnerCpu::new();
    cpu.b = 0xFF;
    cpu.execute_instruction(0x04, 0);
    assert_eq!(cpu.b, 0x00);
    // Z and P set (0 has even parity), AC from 0xF + 1
    assert!(cpu.flags.zero() && cpu.flags.parity() && !cpu.flags.sign() && cpu.flags.aux());
    cpu.b = 0x7F;
    cpu.execute_instruction(0x04, 0);
    assert_eq!(cpu.b, 0x80);
    assert!(cpu.flags.sign() && !cpu.flags.zero() && !cpu.flags.parity() && cpu.flags.aux());
    assert!(!cpu.flags.carry());
    // halted: nothing happens
    cpu.execute_instruction(0x76, 0);
    cpu.execute_instruction(0x04, 0);
    cpu.execute_with_operand(0x3E, 0x99);
    assert_eq!(cpu.b, 0x80);
    assert_eq!(cpu.a, 0x00);
}

#[test]
fn bus_test_program_copies_a_byte() {
    let mut board = Memory64K::new();
    board.write(0x2008, 0x5A);
    let mut cpu = BusCPU::new(RAM::new(Memory64K::new()), BoardBus::new(board));
    initialize_program(&mut cpu);
    let expected = [0x3A, 0x08, 0x20, 0x32, 0x00, 0x30, 0x76];
    for (i, b) in expected.iter().enumerate() {
        assert_eq!(cpu.read_mem(i), *b);
    }
    cpu.reset();
    while !cpu.halted() {
        let instr = cpu.fetch_instruction();
        cpu.execute_instruction(instr);
    }
    assert_eq!(cpu.read_mem(0x3000), 0x5A);
}

#[test]
fn memory_task_write_word_keeps_24_address_bits() {
    let mut bus = BoardBus::new(Memory64K::new());
    serve_request(&mut bus, RamRequest::Write(0x0123_4567, 0x77));
    // (address as u32) << 8 keeps the low 24 bits of the address
    assert_eq!(bus.history()[1], BusOp::PushWrite(0x2345_6777));
    // the board decodes the low 16 bits
    assert_eq!(bus.memory().read(0x4567), 0x77);
}

fn read_ops(address: u32, data: u32) -> [BusOp; 4] {
    [
        BusOp::PushReadAddress(address),
        BusOp::PushSmemr(0),
        BusOp::PullReadData(data),
        BusOp::PushSmemr(1),
    ]
}

fn write_ops(word: u32) -> [BusOp; 4] {
    [
        BusOp::PushWrite(0xFFFFFF),
        BusOp::PushWrite(word),
        BusOp::WaitWriteDone,
        BusOp::PushWrite(0xFFFF00),
    ]
}

#[test]
fn bus_processor_cycles_per_instruction() {
    let mut board = Memory64K::new();
    board.write(0x2008, 0x5A);
    let mut cpu = BusCPU::new(RAM::new(Memory64K::new()), BoardBus::new(board));
    initialize_program(&mut cpu);
    // seven write cycles, one per program byte, and no read
    let mut expected: Vec<BusOp> = Vec::new();
    for (i, b) in [0x3A, 0x08, 0x20, 0x32, 0x00, 0x30, 0x76].iter().enumerate() {
        expected.extend_from_slice(&write_ops(((i as u32) << 8) | *b as u32));
    }
    assert_eq!(cpu.bus().history().as_slice(), expected.as_slice());
    cpu.reset();
    // LDA 2008h: two operand reads, then the read of 0x2008
    let n = cpu.bus().history().len();
    cpu.execute_instruction(0x3A);
    let mut lda: Vec<BusOp> = Vec::new();
    lda.extend_from_slice(&read_ops(1, 0x08));
    lda.extend_from_slice(&read_ops(2, 0x20));
    lda.extend_from_slice(&read_ops(0x2008, 0x5A));
    assert_eq!(&cpu.bus().history()[n..], lda.as_slice());
    // STA 3000h: two operand reads, then one write cycle of A
    let n = cpu.bus().history().len();
    cpu.execute_instruction(0x32);
    let mut sta: Vec<BusOp> = Vec::new();
    sta.extend_from_slice(&read_ops(4, 0x00));
    sta.extend_from_slice(&read_ops(5, 0x30));
    sta.extend_from_slice(&write_ops(0x30005A));
    assert_eq!(&cpu.bus().history()[n..], sta.as_slice());
    // HLT and other opcodes make no bus cycle
    let n = cpu.bus().history().len();
    cpu.execute_instruction(0x76);
    cpu.execute_instruction(0x00);
    assert_eq!(cpu.bus().history().len(), n);
    assert!(cpu.halted());
}
