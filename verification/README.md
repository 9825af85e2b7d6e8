# cpu_emulator

An Intel 8080 processor emulator for an S-100 bus machine, with the memory, bus and
front-panel logic of the cards around it, specified and proved with Verus.

Layout of `src/`:

- `model.rs`, `bits.rs`: the mathematical state of the processor (`CpuState`) and the
  meaning of every opcode (`step`), with lemmas per opcode group.
- `cpu.rs`, `ram.rs`, `memory.rs`: the emulator processor, its memory port, and the
  `Memory` trait every store of bytes implements.
- `bench/`: the 64 KiB host processor and memory used by the terminal runner.
- `instructions.rs`: the instruction table (mnemonic, length, cycles, flags).
- `runner.rs`, `tram.rs`, `recall.rs`: the runner card's processor and flags, the bus
  controller, and the memory card with its bus-cycle handling.
- `sms.rs`: the bus state machines as the processor side drives them (every word
  pushed, pulled and waited on), and a simulated memory board that answers them.
- `bus.rs`, `bus_cpu.rs`: the memory task and its client, the bus words, the read and
  write transactions, and a processor whose memory traffic goes over the bus.
- `card.rs`, `panel.rs`: the decisions of the processor card's loop and of the front
  panel's loop.
- `laws.rs`: properties that relate several operations.

`app/` holds the terminal runner for the host processor; `tests/` the tests.
