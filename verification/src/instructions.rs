//! The instruction table of the 8080: the mnemonic, length, cycle count and
//! affected flags of every opcode.
use vstd::prelude::*;
use crate::model::{is_lxi, is_direct, is_jcc, is_jmp, is_call, is_ccc, is_mvi, is_alu_imm};

verus! {

/// What the table records of one opcode.
#[derive(Debug, Clone, Copy)]
pub struct InstructionInfo {
    pub mnemonic: &'static str,
    pub bytes: u8,
    pub cycles: u8,
    /// One bit per flag in the flag-byte layout `S Z 0 AC 0 P 1 C`: 1 when the
    /// instruction can change that flag.
    pub affected_flags: u8,
}

/// The length in bytes of the instruction with opcode `op`: three for those with a
/// 16-bit operand, two for those with an 8-bit operand, one for the rest.
pub open spec fn instruction_length(op: u8) -> u8 {
    if is_lxi(op) || is_direct(op) || is_jcc(op) || is_jmp(op) || is_call(op) || is_ccc(op) {
        3
    } else if is_mvi(op) || is_alu_imm(op) || op == 0xD3 || op == 0xDB {
        2
    } else {
        1
    }
}

/// The mnemonic, cycle count and affected-flags mask the table gives opcode `op`.
pub open spec fn table_row(op: u8) -> (Seq<char>, u8, u8) {
    match op {
        0x00 => ("NOP"@, 4, 0b0000_0000),
        0x01 => ("LXI B,d16"@, 10, 0b0000_0000),
        0x02 => ("STAX B"@, 7, 0b0000_0000),
        0x03 => ("INX B"@, 5, 0b0000_0000),
        0x04 => ("INR B"@, 5, 0b1101_0100),
        0x05 => ("DCR B"@, 5, 0b1101_0100),
        0x06 => ("MVI B,d8"@, 7, 0b0000_0000),
        0x07 => ("RLC"@, 4, 0b0000_0001),
        0x08 => ("NOP"@, 4, 0b0000_0000),
        0x09 => ("DAD B"@, 10, 0b0000_0001),
        0x0A => ("LDAX B"@, 7, 0b0000_0000),
        0x0B => ("DCX B"@, 5, 0b0000_0000),
        0x0C => ("INR C"@, 5, 0b1101_0100),
        0x0D => ("DCR C"@, 5, 0b1101_0100),
        0x0E => ("MVI C,d8"@, 7, 0b0000_0000),
        0x0F => ("RRC"@, 4, 0b0000_0001),
        0x10 => ("NOP"@, 4, 0b0000_0000),
        0x11 => ("LXI D,d16"@, 10, 0b0000_0000),
        0x12 => ("STAX D"@, 7, 0b0000_0000),
        0x13 => ("INX D"@, 5, 0b0000_0000),
        0x14 => ("INR D"@, 5, 0b1101_0100),
        0x15 => ("DCR D"@, 5, 0b1101_0100),
        0x16 => ("MVI D,d8"@, 7, 0b0000_0000),
        0x17 => ("RAL"@, 4, 0b0000_0001),
        0x18 => ("NOP"@, 4, 0b0000_0000),
        0x19 => ("DAD D"@, 10, 0b0000_0001),
        0x1A => ("LDAX D"@, 7, 0b0000_0000),
        0x1B => ("DCX D"@, 5, 0b0000_0000),
        0x1C => ("INR E"@, 5, 0b1101_0100),
        0x1D => ("DCR E"@, 5, 0b1101_0100),
        0x1E => ("MVI E,d8"@, 7, 0b0000_0000),
        0x1F => ("RAR"@, 4, 0b0000_0001),
        0x20 => ("NOP"@, 4, 0b0000_0000),
        0x21 => ("LXI H,d16"@, 10, 0b0000_0000),
        0x22 => ("SHLD a16"@, 16, 0b0000_0000),
        0x23 => ("INX H"@, 5, 0b0000_0000),
        0x24 => ("INR H"@, 5, 0b1101_0100),
        0x25 => ("DCR H"@, 5, 0b1101_0100),
        0x26 => ("MVI H,d8"@, 7, 0b0000_0000),
        0x27 => ("DAA"@, 4, 0b1101_0101),
        0x28 => ("NOP"@, 4, 0b0000_0000),
        0x29 => ("DAD H"@, 10, 0b0000_0001),
        0x2A => ("LHLD a16"@, 16, 0b0000_0000),
        0x2B => ("DCX H"@, 5, 0b0000_0000),
        0x2C => ("INR L"@, 5, 0b1101_0100),
        0x2D => ("DCR L"@, 5, 0b1101_0100),
        0x2E => ("MVI L,d8"@, 7, 0b0000_0000),
        0x2F => ("CMA"@, 4, 0b0000_0000),
        0x30 => ("NOP"@, 4, 0b0000_0000),
        0x31 => ("LXI SP,d16"@, 10, 0b0000_0000),
        0x32 => ("STA a16"@, 13, 0b0000_0000),
        0x33 => ("INX SP"@, 5, 0b0000_0000),
        0x34 => ("INR M"@, 10, 0b1101_0100),
        0x35 => ("DCR M"@, 10, 0b1101_0100),
        0x36 => ("MVI M,d8"@, 10, 0b0000_0000),
        0x37 => ("STC"@, 4, 0b0000_0001),
        0x38 => ("NOP"@, 4, 0b0000_0000),
        0x39 => ("DAD SP"@, 10, 0b0000_0001),
        0x3A => ("LDA a16"@, 13, 0b0000_0000),
        0x3B => ("DCX SP"@, 5, 0b0000_0000),
        0x3C => ("INR A"@, 5, 0b1101_0100),
        0x3D => ("DCR A"@, 5, 0b1101_0100),
        0x3E => ("MVI A,d8"@, 7, 0b0000_0000),
        0x3F => ("CMC"@, 4, 0b0000_0001),
        0x40 => ("MOV B,B"@, 5, 0b0000_0000),
        0x41 => ("MOV B,C"@, 5, 0b0000_0000),
        0x42 => ("MOV B,D"@, 5, 0b0000_0000),
        0x43 => ("MOV B,E"@, 5, 0b0000_0000),
        0x44 => ("MOV B,H"@, 5, 0b0000_0000),
        0x45 => ("MOV B,L"@, 5, 0b0000_0000),
        0x46 => ("MOV B,M"@, 7, 0b0000_0000),
        0x47 => ("MOV B,A"@, 5, 0b0000_0000),
        0x48 => ("MOV C,B"@, 5, 0b0000_0000),
        0x49 => ("MOV C,C"@, 5, 0b0000_0000),
        0x4A => ("MOV C,D"@, 5, 0b0000_0000),
        0x4B => ("MOV C,E"@, 5, 0b0000_0000),
        0x4C => ("MOV C,H"@, 5, 0b0000_0000),
        0x4D => ("MOV C,L"@, 5, 0b0000_0000),
        0x4E => ("MOV C,M"@, 7, 0b0000_0000),
        0x4F => ("MOV C,A"@, 5, 0b0000_0000),
        0x50 => ("MOV D,B"@, 5, 0b0000_0000),
        0x51 => ("MOV D,C"@, 5, 0b0000_0000),
        0x52 => ("MOV D,D"@, 5, 0b0000_0000),
        0x53 => ("MOV D,E"@, 5, 0b0000_0000),
        0x54 => ("MOV D,H"@, 5, 0b0000_0000),
        0x55 => ("MOV D,L"@, 5, 0b0000_0000),
        0x56 => ("MOV D,M"@, 7, 0b0000_0000),
        0x57 => ("MOV D,A"@, 5, 0b0000_0000),
        0x58 => ("MOV E,B"@, 5, 0b0000_0000),
        0x59 => ("MOV E,C"@, 5, 0b0000_0000),
        0x5A => ("MOV E,D"@, 5, 0b0000_0000),
        0x5B => ("MOV E,E"@, 5, 0b0000_0000),
        0x5C => ("MOV E,H"@, 5, 0b0000_0000),
        0x5D => ("MOV E,L"@, 5, 0b0000_0000),
        0x5E => ("MOV E,M"@, 7, 0b0000_0000),
        0x5F => ("MOV E,A"@, 5, 0b0000_0000),
        0x60 => ("MOV H,B"@, 5, 0b0000_0000),
        0x61 => ("MOV H,C"@, 5, 0b0000_0000),
        0x62 => ("MOV H,D"@, 5, 0b0000_0000),
        0x63 => ("MOV H,E"@, 5, 0b0000_0000),
        0x64 => ("MOV H,H"@, 5, 0b0000_0000),
        0x65 => ("MOV H,L"@, 5, 0b0000_0000),
        0x66 => ("MOV H,M"@, 7, 0b0000_0000),
        0x67 => ("MOV H,A"@, 5, 0b0000_0000),
        0x68 => ("MOV L,B"@, 5, 0b0000_0000),
        0x69 => ("MOV L,C"@, 5, 0b0000_0000),
        0x6A => ("MOV L,D"@, 5, 0b0000_0000),
        0x6B => ("MOV L,E"@, 5, 0b0000_0000),
        0x6C => ("MOV L,H"@, 5, 0b0000_0000),
        0x6D => ("MOV L,L"@, 5, 0b0000_0000),
        0x6E => ("MOV L,M"@, 7, 0b0000_0000),
        0x6F => ("MOV L,A"@, 5, 0b0000_0000),
        0x70 => ("MOV M,B"@, 7, 0b0000_0000),
        0x71 => ("MOV M,C"@, 7, 0b0000_0000),
        0x72 => ("MOV M,D"@, 7, 0b0000_0000),
        0x73 => ("MOV M,E"@, 7, 0b0000_0000),
        0x74 => ("MOV M,H"@, 7, 0b0000_0000),
        0x75 => ("MOV M,L"@, 7, 0b0000_0000),
        0x76 => ("HLT"@, 7, 0b0000_0000),
        0x77 => ("MOV M,A"@, 7, 0b0000_0000),
        0x78 => ("MOV A,B"@, 5, 0b0000_0000),
        0x79 => ("MOV A,C"@, 5, 0b0000_0000),
        0x7A => ("MOV A,D"@, 5, 0b0000_0000),
        0x7B => ("MOV A,E"@, 5, 0b0000_0000),
        0x7C => ("MOV A,H"@, 5, 0b0000_0000),
        0x7D => ("MOV A,L"@, 5, 0b0000_0000),
        0x7E => ("MOV A,M"@, 7, 0b0000_0000),
        0x7F => ("MOV A,A"@, 5, 0b0000_0000),
        0x80 => ("ADD B"@, 4, 0b1101_0101),
        0x81 => ("ADD C"@, 4, 0b1101_0101),
        0x82 => ("ADD D"@, 4, 0b1101_0101),
        0x83 => ("ADD E"@, 4, 0b1101_0101),
        0x84 => ("ADD H"@, 4, 0b1101_0101),
        0x85 => ("ADD L"@, 4, 0b1101_0101),
        0x86 => ("ADD M"@, 7, 0b1101_0101),
        0x87 => ("ADD A"@, 4, 0b1101_0101),
        0x88 => ("ADC B"@, 4, 0b1101_0101),
        0x89 => ("ADC C"@, 4, 0b1101_0101),
        0x8A => ("ADC D"@, 4, 0b1101_0101),
        0x8B => ("ADC E"@, 4, 0b1101_0101),
        0x8C => ("ADC H"@, 4, 0b1101_0101),
        0x8D => ("ADC L"@, 4, 0b1101_0101),
        0x8E => ("ADC M"@, 7, 0b1101_0101),
        0x8F => ("ADC A"@, 4, 0b1101_0101),
        0x90 => ("SUB B"@, 4, 0b1101_0101),
        0x91 => ("SUB C"@, 4, 0b1101_0101),
        0x92 => ("SUB D"@, 4, 0b1101_0101),
        0x93 => ("SUB E"@, 4, 0b1101_0101),
        0x94 => ("SUB H"@, 4, 0b1101_0101),
        0x95 => ("SUB L"@, 4, 0b1101_0101),
        0x96 => ("SUB M"@, 7, 0b1101_0101),
        0x97 => ("SUB A"@, 4, 0b1101_0101),
        0x98 => ("SBB B"@, 4, 0b1101_0101),
        0x99 => ("SBB C"@, 4, 0b1101_0101),
        0x9A => ("SBB D"@, 4, 0b1101_0101),
        0x9B => ("SBB E"@, 4, 0b1101_0101),
        0x9C => ("SBB H"@, 4, 0b1101_0101),
        0x9D => ("SBB L"@, 4, 0b1101_0101),
        0x9E => ("SBB M"@, 7, 0b1101_0101),
        0x9F => ("SBB A"@, 4, 0b1101_0101),
        0xA0 => ("ANA B"@, 4, 0b1101_0101),
        0xA1 => ("ANA C"@, 4, 0b1101_0101),
        0xA2 => ("ANA D"@, 4, 0b1101_0101),
        0xA3 => ("ANA E"@, 4, 0b1101_0101),
        0xA4 => ("ANA H"@, 4, 0b1101_0101),
        0xA5 => ("ANA L"@, 4, 0b1101_0101),
        0xA6 => ("ANA M"@, 7, 0b1101_0101),
        0xA7 => ("ANA A"@, 4, 0b1101_0101),
        0xA8 => ("XRA B"@, 4, 0b1101_0101),
        0xA9 => ("XRA C"@, 4, 0b1101_0101),
        0xAA => ("XRA D"@, 4, 0b1101_0101),
        0xAB => ("XRA E"@, 4, 0b1101_0101),
        0xAC => ("XRA H"@, 4, 0b1101_0101),
        0xAD => ("XRA L"@, 4, 0b1101_0101),
        0xAE => ("XRA M"@, 7, 0b1101_0101),
        0xAF => ("XRA A"@, 4, 0b1101_0101),
        0xB0 => ("ORA B"@, 4, 0b1101_0101),
        0xB1 => ("ORA C"@, 4, 0b1101_0101),
        0xB2 => ("ORA D"@, 4, 0b1101_0101),
        0xB3 => ("ORA E"@, 4, 0b1101_0101),
        0xB4 => ("ORA H"@, 4, 0b1101_0101),
        0xB5 => ("ORA L"@, 4, 0b1101_0101),
        0xB6 => ("ORA M"@, 7, 0b1101_0101),
        0xB7 => ("ORA A"@, 4, 0b1101_0101),
        0xB8 => ("CMP B"@, 4, 0b1101_0101),
        0xB9 => ("CMP C"@, 4, 0b1101_0101),
        0xBA => ("CMP D"@, 4, 0b1101_0101),
        0xBB => ("CMP E"@, 4, 0b1101_0101),
        0xBC => ("CMP H"@, 4, 0b1101_0101),
        0xBD => ("CMP L"@, 4, 0b1101_0101),
        0xBE => ("CMP M"@, 7, 0b1101_0101),
        0xBF => ("CMP A"@, 4, 0b1101_0101),
        0xC0 => ("RNZ"@, 11, 0b0000_0000),
        0xC1 => ("POP B"@, 10, 0b0000_0000),
        0xC2 => ("JNZ a16"@, 10, 0b0000_0000),
        0xC3 => ("JMP a16"@, 10, 0b0000_0000),
        0xC4 => ("CNZ a16"@, 17, 0b0000_0000),
        0xC5 => ("PUSH B"@, 11, 0b0000_0000),
        0xC6 => ("ADI d8"@, 7, 0b1101_0101),
        0xC7 => ("RST 0"@, 11, 0b0000_0000),
        0xC8 => ("RZ"@, 11, 0b0000_0000),
        0xC9 => ("RET"@, 10, 0b0000_0000),
        0xCA => ("JZ a16"@, 10, 0b0000_0000),
        0xCB => ("JMP a16"@, 10, 0b0000_0000),
        0xCC => ("CZ a16"@, 17, 0b0000_0000),
        0xCD => ("CALL a16"@, 17, 0b0000_0000),
        0xCE => ("ACI d8"@, 7, 0b1101_0101),
        0xCF => ("RST 1"@, 11, 0b0000_0000),
        0xD0 => ("RNC"@, 11, 0b0000_0000),
        0xD1 => ("POP D"@, 10, 0b0000_0000),
        0xD2 => ("JNC a16"@, 10, 0b0000_0000),
        0xD3 => ("OUT d8"@, 10, 0b0000_0000),
        0xD4 => ("CNC a16"@, 17, 0b0000_0000),
        0xD5 => ("PUSH D"@, 11, 0b0000_0000),
        0xD6 => ("SUI d8"@, 7, 0b1101_0101),
        0xD7 => ("RST 2"@, 11, 0b0000_0000),
        0xD8 => ("RC"@, 11, 0b0000_0000),
        0xD9 => ("RET"@, 10, 0b0000_0000),
        0xDA => ("JC a16"@, 10, 0b0000_0000),
        0xDB => ("IN d8"@, 10, 0b0000_0000),
        0xDC => ("CC a16"@, 17, 0b0000_0000),
        0xDD => ("CALL a16"@, 17, 0b0000_0000),
        0xDE => ("SBI d8"@, 7, 0b1101_0101),
        0xDF => ("RST 3"@, 11, 0b0000_0000),
        0xE0 => ("RPO"@, 11, 0b0000_0000),
        0xE1 => ("POP H"@, 10, 0b0000_0000),
        0xE2 => ("JPO a16"@, 10, 0b0000_0000),
        0xE3 => ("XTHL"@, 18, 0b0000_0000),
        0xE4 => ("CPO a16"@, 17, 0b0000_0000),
        0xE5 => ("PUSH H"@, 11, 0b0000_0000),
        0xE6 => ("ANI d8"@, 7, 0b1101_0101),
        0xE7 => ("RST 4"@, 11, 0b0000_0000),
        0xE8 => ("RPE"@, 11, 0b0000_0000),
        0xE9 => ("PCHL"@, 5, 0b0000_0000),
        0xEA => ("JPE a16"@, 10, 0b0000_0000),
        0xEB => ("XCHG"@, 5, 0b0000_0000),
        0xEC => ("CPE a16"@, 17, 0b0000_0000),
        0xED => ("CALL a16"@, 17, 0b0000_0000),
        0xEE => ("XRI d8"@, 7, 0b1101_0101),
        0xEF => ("RST 5"@, 11, 0b0000_0000),
        0xF0 => ("RP"@, 11, 0b0000_0000),
        0xF1 => ("POP PSW"@, 10, 0b1101_0101),
        0xF2 => ("JP a16"@, 10, 0b0000_0000),
        0xF3 => ("DI"@, 4, 0b0000_0000),
        0xF4 => ("CP a16"@, 17, 0b0000_0000),
        0xF5 => ("PUSH PSW"@, 11, 0b0000_0000),
        0xF6 => ("ORId8"@, 7, 0b1101_0101),
        0xF7 => ("RST 6"@, 11, 0b0000_0000),
        0xF8 => ("RM"@, 11, 0b0000_0000),
        0xF9 => ("SPHL"@, 5, 0b0000_0000),
        0xFA => ("JM a16"@, 10, 0b0000_0000),
        0xFB => ("EI"@, 4, 0b0000_0000),
        0xFC => ("CM a16"@, 17, 0b0000_0000),
        0xFD => ("CALL a16"@, 17, 0b0000_0000),
        0xFE => ("CPI d8"@, 7, 0b1101_0101),
        0xFF => ("RST 7"@, 11, 0b0000_0000),
    }
}

/// The table entry of opcode `op`.
pub fn instruction_info(op: u8) -> (r: InstructionInfo)
    ensures
        r.bytes == instruction_length(op),
        (r.mnemonic@, r.cycles, r.affected_flags) == table_row(op),
{
    match op {
        0x00 => InstructionInfo { mnemonic: "NOP", bytes: 1, cycles: 4, affected_flags: 0b0000_0000 },
        0x01 => InstructionInfo { mnemonic: "LXI B,d16", bytes: 3, cycles: 10, affected_flags: 0b0000_0000 },
        0x02 => InstructionInfo { mnemonic: "STAX B", bytes: 1, cycles: 7, affected_flags: 0b0000_0000 },
        0x03 => InstructionInfo { mnemonic: "INX B", bytes: 1, cycles: 5, affected_flags: 0b0000_0000 },
        0x04 => InstructionInfo { mnemonic: "INR B", bytes: 1, cycles: 5, affected_flags: 0b1101_0100 },
        0x05 => InstructionInfo { mnemonic: "DCR B", bytes: 1, cycles: 5, affected_flags: 0b1101_0100 },
        0x06 => InstructionInfo { mnemonic: "MVI B,d8", bytes: 2, cycles: 7, affected_flags: 0b0000_0000 },
        0x07 => InstructionInfo { mnemonic: "RLC", bytes: 1, cycles: 4, affected_flags: 0b0000_0001 },
        0x08 => InstructionInfo { mnemonic: "NOP", bytes: 1, cycles: 4, affected_flags: 0b0000_0000 },
        0x09 => InstructionInfo { mnemonic: "DAD B", bytes: 1, cycles: 10, affected_flags: 0b0000_0001 },
        0x0A => InstructionInfo { mnemonic: "LDAX B", bytes: 1, cycles: 7, affected_flags: 0b0000_0000 },
        0x0B => InstructionInfo { mnemonic: "DCX B", bytes: 1, cycles: 5, affected_flags: 0b0000_0000 },
        0x0C => InstructionInfo { mnemonic: "INR C", bytes: 1, cycles: 5, affected_flags: 0b1101_0100 },
        0x0D => InstructionInfo { mnemonic: "DCR C", bytes: 1, cycles: 5, affected_flags: 0b1101_0100 },
        0x0E => InstructionInfo { mnemonic: "MVI C,d8", bytes: 2, cycles: 7, affected_flags: 0b0000_0000 },
        0x0F => InstructionInfo { mnemonic: "RRC", bytes: 1, cycles: 4, affected_flags: 0b0000_0001 },
        0x10 => InstructionInfo { mnemonic: "NOP", bytes: 1, cycles: 4, affected_flags: 0b0000_0000 },
        0x11 => InstructionInfo { mnemonic: "LXI D,d16", bytes: 3, cycles: 10, affected_flags: 0b0000_0000 },
        0x12 => InstructionInfo { mnemonic: "STAX D", bytes: 1, cycles: 7, affected_flags: 0b0000_0000 },
        0x13 => InstructionInfo { mnemonic: "INX D", bytes: 1, cycles: 5, affected_flags: 0b0000_0000 },
        0x14 => InstructionInfo { mnemonic: "INR D", bytes: 1, cycles: 5, affected_flags: 0b1101_0100 },
        0x15 => InstructionInfo { mnemonic: "DCR D", bytes: 1, cycles: 5, affected_flags: 0b1101_0100 },
        0x16 => InstructionInfo { mnemonic: "MVI D,d8", bytes: 2, cycles: 7, affected_flags: 0b0000_0000 },
        0x17 => InstructionInfo { mnemonic: "RAL", bytes: 1, cycles: 4, affected_flags: 0b0000_0001 },
        0x18 => InstructionInfo { mnemonic: "NOP", bytes: 1, cycles: 4, affected_flags: 0b0000_0000 },
        0x19 => InstructionInfo { mnemonic: "DAD D", bytes: 1, cycles: 10, affected_flags: 0b0000_0001 },
        0x1A => InstructionInfo { mnemonic: "LDAX D", bytes: 1, cycles: 7, affected_flags: 0b0000_0000 },
        0x1B => InstructionInfo { mnemonic: "DCX D", bytes: 1, cycles: 5, affected_flags: 0b0000_0000 },
        0x1C => InstructionInfo { mnemonic: "INR E", bytes: 1, cycles: 5, affected_flags: 0b1101_0100 },
        0x1D => InstructionInfo { mnemonic: "DCR E", bytes: 1, cycles: 5, affected_flags: 0b1101_0100 },
        0x1E => InstructionInfo { mnemonic: "MVI E,d8", bytes: 2, cycles: 7, affected_flags: 0b0000_0000 },
        0x1F => InstructionInfo { mnemonic: "RAR", bytes: 1, cycles: 4, affected_flags: 0b0000_0001 },
        0x20 => InstructionInfo { mnemonic: "NOP", bytes: 1, cycles: 4, affected_flags: 0b0000_0000 },
        0x21 => InstructionInfo { mnemonic: "LXI H,d16", bytes: 3, cycles: 10, affected_flags: 0b0000_0000 },
        0x22 => InstructionInfo { mnemonic: "SHLD a16", bytes: 3, cycles: 16, affected_flags: 0b0000_0000 },
        0x23 => InstructionInfo { mnemonic: "INX H", bytes: 1, cycles: 5, affected_flags: 0b0000_0000 },
        0x24 => InstructionInfo { mnemonic: "INR H", bytes: 1, cycles: 5, affected_flags: 0b1101_0100 },
        0x25 => InstructionInfo { mnemonic: "DCR H", bytes: 1, cycles: 5, affected_flags: 0b1101_0100 },
        0x26 => InstructionInfo { mnemonic: "MVI H,d8", bytes: 2, cycles: 7, affected_flags: 0b0000_0000 },
        0x27 => InstructionInfo { mnemonic: "DAA", bytes: 1, cycles: 4, affected_flags: 0b1101_0101 },
        0x28 => InstructionInfo { mnemonic: "NOP", bytes: 1, cycles: 4, affected_flags: 0b0000_0000 },
        0x29 => InstructionInfo { mnemonic: "DAD H", bytes: 1, cycles: 10, affected_flags: 0b0000_0001 },
        0x2A => InstructionInfo { mnemonic: "LHLD a16", bytes: 3, cycles: 16, affected_flags: 0b0000_0000 },
        0x2B => InstructionInfo { mnemonic: "DCX H", bytes: 1, cycles: 5, affected_flags: 0b0000_0000 },
        0x2C => InstructionInfo { mnemonic: "INR L", bytes: 1, cycles: 5, affected_flags: 0b1101_0100 },
        0x2D => InstructionInfo { mnemonic: "DCR L", bytes: 1, cycles: 5, affected_flags: 0b1101_0100 },
        0x2E => InstructionInfo { mnemonic: "MVI L,d8", bytes: 2, cycles: 7, affected_flags: 0b0000_0000 },
        0x2F => InstructionInfo { mnemonic: "CMA", bytes: 1, cycles: 4, affected_flags: 0b0000_0000 },
        0x30 => InstructionInfo { mnemonic: "NOP", bytes: 1, cycles: 4, affected_flags: 0b0000_0000 },
        0x31 => InstructionInfo { mnemonic: "LXI SP,d16", bytes: 3, cycles: 10, affected_flags: 0b0000_0000 },
        0x32 => InstructionInfo { mnemonic: "STA a16", bytes: 3, cycles: 13, affected_flags: 0b0000_0000 },
        0x33 => InstructionInfo { mnemonic: "INX SP", bytes: 1, cycles: 5, affected_flags: 0b0000_0000 },
        0x34 => InstructionInfo { mnemonic: "INR M", bytes: 1, cycles: 10, affected_flags: 0b1101_0100 },
        0x35 => InstructionInfo { mnemonic: "DCR M", bytes: 1, cycles: 10, affected_flags: 0b1101_0100 },
        0x36 => InstructionInfo { mnemonic: "MVI M,d8", bytes: 2, cycles: 10, affected_flags: 0b0000_0000 },
        0x37 => InstructionInfo { mnemonic: "STC", bytes: 1, cycles: 4, affected_flags: 0b0000_0001 },
        0x38 => InstructionInfo { mnemonic: "NOP", bytes: 1, cycles: 4, affected_flags: 0b0000_0000 },
        0x39 => InstructionInfo { mnemonic: "DAD SP", bytes: 1, cycles: 10, affected_flags: 0b0000_0001 },
        0x3A => InstructionInfo { mnemonic: "LDA a16", bytes: 3, cycles: 13, affected_flags: 0b0000_0000 },
        0x3B => InstructionInfo { mnemonic: "DCX SP", bytes: 1, cycles: 5, affected_flags: 0b0000_0000 },
        0x3C => InstructionInfo { mnemonic: "INR A", bytes: 1, cycles: 5, affected_flags: 0b1101_0100 },
        0x3D => InstructionInfo { mnemonic: "DCR A", bytes: 1, cycles: 5, affected_flags: 0b1101_0100 },
        0x3E => InstructionInfo { mnemonic: "MVI A,d8", bytes: 2, cycles: 7, affected_flags: 0b0000_0000 },
        0x3F => InstructionInfo { mnemonic: "CMC", bytes: 1, cycles: 4, affected_flags: 0b0000_0001 },
        0x40 => InstructionInfo { mnemonic: "MOV B,B", bytes: 1, cycles: 5, affected_flags: 0b0000_0000 },
        0x41 => InstructionInfo { mnemonic: "MOV B,C", bytes: 1, cycles: 5, affected_flags: 0b0000_0000 },
        0x42 => InstructionInfo { mnemonic: "MOV B,D", bytes: 1, cycles: 5, affected_flags: 0b0000_0000 },
        0x43 => InstructionInfo { mnemonic: "MOV B,E", bytes: 1, cycles: 5, affected_flags: 0b0000_0000 },
        0x44 => InstructionInfo { mnemonic: "MOV B,H", bytes: 1, cycles: 5, affected_flags: 0b0000_0000 },
        0x45 => InstructionInfo { mnemonic: "MOV B,L", bytes: 1, cycles: 5, affected_flags: 0b0000_0000 },
        0x46 => InstructionInfo { mnemonic: "MOV B,M", bytes: 1, cycles: 7, affected_flags: 0b0000_0000 },
        0x47 => InstructionInfo { mnemonic: "MOV B,A", bytes: 1, cycles: 5, affected_flags: 0b0000_0000 },
        0x48 => InstructionInfo { mnemonic: "MOV C,B", bytes: 1, cycles: 5, affected_flags: 0b0000_0000 },
        0x49 => InstructionInfo { mnemonic: "MOV C,C", bytes: 1, cycles: 5, affected_flags: 0b0000_0000 },
        0x4A => InstructionInfo { mnemonic: "MOV C,D", bytes: 1, cycles: 5, affected_flags: 0b0000_0000 },
        0x4B => InstructionInfo { mnemonic: "MOV C,E", bytes: 1, cycles: 5, affected_flags: 0b0000_0000 },
        0x4C => InstructionInfo { mnemonic: "MOV C,H", bytes: 1, cycles: 5, affected_flags: 0b0000_0000 },
        0x4D => InstructionInfo { mnemonic: "MOV C,L", bytes: 1, cycles: 5, affected_flags: 0b0000_0000 },
        0x4E => InstructionInfo { mnemonic: "MOV C,M", bytes: 1, cycles: 7, affected_flags: 0b0000_0000 },
        0x4F => InstructionInfo { mnemonic: "MOV C,A", bytes: 1, cycles: 5, affected_flags: 0b0000_0000 },
        0x50 => InstructionInfo { mnemonic: "MOV D,B", bytes: 1, cycles: 5, affected_flags: 0b0000_0000 },
        0x51 => InstructionInfo { mnemonic: "MOV D,C", bytes: 1, cycles: 5, affected_flags: 0b0000_0000 },
        0x52 => InstructionInfo { mnemonic: "MOV D,D", bytes: 1, cycles: 5, affected_flags: 0b0000_0000 },
        0x53 => InstructionInfo { mnemonic: "MOV D,E", bytes: 1, cycles: 5, affected_flags: 0b0000_0000 },
        0x54 => InstructionInfo { mnemonic: "MOV D,H", bytes: 1, cycles: 5, affected_flags: 0b0000_0000 },
        0x55 => InstructionInfo { mnemonic: "MOV D,L", bytes: 1, cycles: 5, affected_flags: 0b0000_0000 },
        0x56 => InstructionInfo { mnemonic: "MOV D,M", bytes: 1, cycles: 7, affected_flags: 0b0000_0000 },
        0x57 => InstructionInfo { mnemonic: "MOV D,A", bytes: 1, cycles: 5, affected_flags: 0b0000_0000 },
        0x58 => InstructionInfo { mnemonic: "MOV E,B", bytes: 1, cycles: 5, affected_flags: 0b0000_0000 },
        0x59 => InstructionInfo { mnemonic: "MOV E,C", bytes: 1, cycles: 5, affected_flags: 0b0000_0000 },
        0x5A => InstructionInfo { mnemonic: "MOV E,D", bytes: 1, cycles: 5, affected_flags: 0b0000_0000 },
        0x5B => InstructionInfo { mnemonic: "MOV E,E", bytes: 1, cycles: 5, affected_flags: 0b0000_0000 },
        0x5C => InstructionInfo { mnemonic: "MOV E,H", bytes: 1, cycles: 5, affected_flags: 0b0000_0000 },
        0x5D => InstructionInfo { mnemonic: "MOV E,L", bytes: 1, cycles: 5, affected_flags: 0b0000_0000 },
        0x5E => InstructionInfo { mnemonic: "MOV E,M", bytes: 1, cycles: 7, affected_flags: 0b0000_0000 },
        0x5F => InstructionInfo { mnemonic: "MOV E,A", bytes: 1, cycles: 5, affected_flags: 0b0000_0000 },
        0x60 => InstructionInfo { mnemonic: "MOV H,B", bytes: 1, cycles: 5, affected_flags: 0b0000_0000 },
        0x61 => InstructionInfo { mnemonic: "MOV H,C", bytes: 1, cycles: 5, affected_flags: 0b0000_0000 },
        0x62 => InstructionInfo { mnemonic: "MOV H,D", bytes: 1, cycles: 5, affected_flags: 0b0000_0000 },
        0x63 => InstructionInfo { mnemonic: "MOV H,E", bytes: 1, cycles: 5, affected_flags: 0b0000_0000 },
        0x64 => InstructionInfo { mnemonic: "MOV H,H", bytes: 1, cycles: 5, affected_flags: 0b0000_0000 },
        0x65 => InstructionInfo { mnemonic: "MOV H,L", bytes: 1, cycles: 5, affected_flags: 0b0000_0000 },
        0x66 => InstructionInfo { mnemonic: "MOV H,M", bytes: 1, cycles: 7, affected_flags: 0b0000_0000 },
        0x67 => InstructionInfo { mnemonic: "MOV H,A", bytes: 1, cycles: 5, affected_flags: 0b0000_0000 },
        0x68 => InstructionInfo { mnemonic: "MOV L,B", bytes: 1, cycles: 5, affected_flags: 0b0000_0000 },
        0x69 => InstructionInfo { mnemonic: "MOV L,C", bytes: 1, cycles: 5, affected_flags: 0b0000_0000 },
        0x6A => InstructionInfo { mnemonic: "MOV L,D", bytes: 1, cycles: 5, affected_flags: 0b0000_0000 },
        0x6B => InstructionInfo { mnemonic: "MOV L,E", bytes: 1, cycles: 5, affected_flags: 0b0000_0000 },
        0x6C => InstructionInfo { mnemonic: "MOV L,H", bytes: 1, cycles: 5, affected_flags: 0b0000_0000 },
        0x6D => InstructionInfo { mnemonic: "MOV L,L", bytes: 1, cycles: 5, affected_flags: 0b0000_0000 },
        0x6E => InstructionInfo { mnemonic: "MOV L,M", bytes: 1, cycles: 7, affected_flags: 0b0000_0000 },
        0x6F => InstructionInfo { mnemonic: "MOV L,A", bytes: 1, cycles: 5, affected_flags: 0b0000_0000 },
        0x70 => InstructionInfo { mnemonic: "MOV M,B", bytes: 1, cycles: 7, affected_flags: 0b0000_0000 },
        0x71 => InstructionInfo { mnemonic: "MOV M,C", bytes: 1, cycles: 7, affected_flags: 0b0000_0000 },
        0x72 => InstructionInfo { mnemonic: "MOV M,D", bytes: 1, cycles: 7, affected_flags: 0b0000_0000 },
        0x73 => InstructionInfo { mnemonic: "MOV M,E", bytes: 1, cycles: 7, affected_flags: 0b0000_0000 },
        0x74 => InstructionInfo { mnemonic: "MOV M,H", bytes: 1, cycles: 7, affected_flags: 0b0000_0000 },
        0x75 => InstructionInfo { mnemonic: "MOV M,L", bytes: 1, cycles: 7, affected_flags: 0b0000_0000 },
        0x76 => InstructionInfo { mnemonic: "HLT", bytes: 1, cycles: 7, affected_flags: 0b0000_0000 },
        0x77 => InstructionInfo { mnemonic: "MOV M,A", bytes: 1, cycles: 7, affected_flags: 0b0000_0000 },
        0x78 => InstructionInfo { mnemonic: "MOV A,B", bytes: 1, cycles: 5, affected_flags: 0b0000_0000 },
        0x79 => InstructionInfo { mnemonic: "MOV A,C", bytes: 1, cycles: 5, affected_flags: 0b0000_0000 },
        0x7A => InstructionInfo { mnemonic: "MOV A,D", bytes: 1, cycles: 5, affected_flags: 0b0000_0000 },
        0x7B => InstructionInfo { mnemonic: "MOV A,E", bytes: 1, cycles: 5, affected_flags: 0b0000_0000 },
        0x7C => InstructionInfo { mnemonic: "MOV A,H", bytes: 1, cycles: 5, affected_flags: 0b0000_0000 },
        0x7D => InstructionInfo { mnemonic: "MOV A,L", bytes: 1, cycles: 5, affected_flags: 0b0000_0000 },
        0x7E => InstructionInfo { mnemonic: "MOV A,M", bytes: 1, cycles: 7, affected_flags: 0b0000_0000 },
        0x7F => InstructionInfo { mnemonic: "MOV A,A", bytes: 1, cycles: 5, affected_flags: 0b0000_0000 },
        0x80 => InstructionInfo { mnemonic: "ADD B", bytes: 1, cycles: 4, affected_flags: 0b1101_0101 },
        0x81 => InstructionInfo { mnemonic: "ADD C", bytes: 1, cycles: 4, affected_flags: 0b1101_0101 },
        0x82 => InstructionInfo { mnemonic: "ADD D", bytes: 1, cycles: 4, affected_flags: 0b1101_0101 },
        0x83 => InstructionInfo { mnemonic: "ADD E", bytes: 1, cycles: 4, affected_flags: 0b1101_0101 },
        0x84 => InstructionInfo { mnemonic: "ADD H", bytes: 1, cycles: 4, affected_flags: 0b1101_0101 },
        0x85 => InstructionInfo { mnemonic: "ADD L", bytes: 1, cycles: 4, affected_flags: 0b1101_0101 },
        0x86 => InstructionInfo { mnemonic: "ADD M", bytes: 1, cycles: 7, affected_flags: 0b1101_0101 },
        0x87 => InstructionInfo { mnemonic: "ADD A", bytes: 1, cycles: 4, affected_flags: 0b1101_0101 },
        0x88 => InstructionInfo { mnemonic: "ADC B", bytes: 1, cycles: 4, affected_flags: 0b1101_0101 },
        0x89 => InstructionInfo { mnemonic: "ADC C", bytes: 1, cycles: 4, affected_flags: 0b1101_0101 },
        0x8A => InstructionInfo { mnemonic: "ADC D", bytes: 1, cycles: 4, affected_flags: 0b1101_0101 },
        0x8B => InstructionInfo { mnemonic: "ADC E", bytes: 1, cycles: 4, affected_flags: 0b1101_0101 },
        0x8C => InstructionInfo { mnemonic: "ADC H", bytes: 1, cycles: 4, affected_flags: 0b1101_0101 },
        0x8D => InstructionInfo { mnemonic: "ADC L", bytes: 1, cycles: 4, affected_flags: 0b1101_0101 },
        0x8E => InstructionInfo { mnemonic: "ADC M", bytes: 1, cycles: 7, affected_flags: 0b1101_0101 },
        0x8F => InstructionInfo { mnemonic: "ADC A", bytes: 1, cycles: 4, affected_flags: 0b1101_0101 },
        0x90 => InstructionInfo { mnemonic: "SUB B", bytes: 1, cycles: 4, affected_flags: 0b1101_0101 },
        0x91 => InstructionInfo { mnemonic: "SUB C", bytes: 1, cycles: 4, affected_flags: 0b1101_0101 },
        0x92 => InstructionInfo { mnemonic: "SUB D", bytes: 1, cycles: 4, affected_flags: 0b1101_0101 },
        0x93 => InstructionInfo { mnemonic: "SUB E", bytes: 1, cycles: 4, affected_flags: 0b1101_0101 },
        0x94 => InstructionInfo { mnemonic: "SUB H", bytes: 1, cycles: 4, affected_flags: 0b1101_0101 },
        0x95 => InstructionInfo { mnemonic: "SUB L", bytes: 1, cycles: 4, affected_flags: 0b1101_0101 },
        0x96 => InstructionInfo { mnemonic: "SUB M", bytes: 1, cycles: 7, affected_flags: 0b1101_0101 },
        0x97 => InstructionInfo { mnemonic: "SUB A", bytes: 1, cycles: 4, affected_flags: 0b1101_0101 },
        0x98 => InstructionInfo { mnemonic: "SBB B", bytes: 1, cycles: 4, affected_flags: 0b1101_0101 },
        0x99 => InstructionInfo { mnemonic: "SBB C", bytes: 1, cycles: 4, affected_flags: 0b1101_0101 },
        0x9A => InstructionInfo { mnemonic: "SBB D", bytes: 1, cycles: 4, affected_flags: 0b1101_0101 },
        0x9B => InstructionInfo { mnemonic: "SBB E", bytes: 1, cycles: 4, affected_flags: 0b1101_0101 },
        0x9C => InstructionInfo { mnemonic: "SBB H", bytes: 1, cycles: 4, affected_flags: 0b1101_0101 },
        0x9D => InstructionInfo { mnemonic: "SBB L", bytes: 1, cycles: 4, affected_flags: 0b1101_0101 },
        0x9E => InstructionInfo { mnemonic: "SBB M", bytes: 1, cycles: 7, affected_flags: 0b1101_0101 },
        0x9F => InstructionInfo { mnemonic: "SBB A", bytes: 1, cycles: 4, affected_flags: 0b1101_0101 },
        0xA0 => InstructionInfo { mnemonic: "ANA B", bytes: 1, cycles: 4, affected_flags: 0b1101_0101 },
        0xA1 => InstructionInfo { mnemonic: "ANA C", bytes: 1, cycles: 4, affected_flags: 0b1101_0101 },
        0xA2 => InstructionInfo { mnemonic: "ANA D", bytes: 1, cycles: 4, affected_flags: 0b1101_0101 },
        0xA3 => InstructionInfo { mnemonic: "ANA E", bytes: 1, cycles: 4, affected_flags: 0b1101_0101 },
        0xA4 => InstructionInfo { mnemonic: "ANA H", bytes: 1, cycles: 4, affected_flags: 0b1101_0101 },
        0xA5 => InstructionInfo { mnemonic: "ANA L", bytes: 1, cycles: 4, affected_flags: 0b1101_0101 },
        0xA6 => InstructionInfo { mnemonic: "ANA M", bytes: 1, cycles: 7, affected_flags: 0b1101_0101 },
        0xA7 => InstructionInfo { mnemonic: "ANA A", bytes: 1, cycles: 4, affected_flags: 0b1101_0101 },
        0xA8 => InstructionInfo { mnemonic: "XRA B", bytes: 1, cycles: 4, affected_flags: 0b1101_0101 },
        0xA9 => InstructionInfo { mnemonic: "XRA C", bytes: 1, cycles: 4, affected_flags: 0b1101_0101 },
        0xAA => InstructionInfo { mnemonic: "XRA D", bytes: 1, cycles: 4, affected_flags: 0b1101_0101 },
        0xAB => InstructionInfo { mnemonic: "XRA E", bytes: 1, cycles: 4, affected_flags: 0b1101_0101 },
        0xAC => InstructionInfo { mnemonic: "XRA H", bytes: 1, cycles: 4, affected_flags: 0b1101_0101 },
        0xAD => InstructionInfo { mnemonic: "XRA L", bytes: 1, cycles: 4, affected_flags: 0b1101_0101 },
        0xAE => InstructionInfo { mnemonic: "XRA M", bytes: 1, cycles: 7, affected_flags: 0b1101_0101 },
        0xAF => InstructionInfo { mnemonic: "XRA A", bytes: 1, cycles: 4, affected_flags: 0b1101_0101 },
        0xB0 => InstructionInfo { mnemonic: "ORA B", bytes: 1, cycles: 4, affected_flags: 0b1101_0101 },
        0xB1 => InstructionInfo { mnemonic: "ORA C", bytes: 1, cycles: 4, affected_flags: 0b1101_0101 },
        0xB2 => InstructionInfo { mnemonic: "ORA D", bytes: 1, cycles: 4, affected_flags: 0b1101_0101 },
        0xB3 => InstructionInfo { mnemonic: "ORA E", bytes: 1, cycles: 4, affected_flags: 0b1101_0101 },
        0xB4 => InstructionInfo { mnemonic: "ORA H", bytes: 1, cycles: 4, affected_flags: 0b1101_0101 },
        0xB5 => InstructionInfo { mnemonic: "ORA L", bytes: 1, cycles: 4, affected_flags: 0b1101_0101 },
        0xB6 => InstructionInfo { mnemonic: "ORA M", bytes: 1, cycles: 7, affected_flags: 0b1101_0101 },
        0xB7 => InstructionInfo { mnemonic: "ORA A", bytes: 1, cycles: 4, affected_flags: 0b1101_0101 },
        0xB8 => InstructionInfo { mnemonic: "CMP B", bytes: 1, cycles: 4, affected_flags: 0b1101_0101 },
        0xB9 => InstructionInfo { mnemonic: "CMP C", bytes: 1, cycles: 4, affected_flags: 0b1101_0101 },
        0xBA => InstructionInfo { mnemonic: "CMP D", bytes: 1, cycles: 4, affected_flags: 0b1101_0101 },
        0xBB => InstructionInfo { mnemonic: "CMP E", bytes: 1, cycles: 4, affected_flags: 0b1101_0101 },
        0xBC => InstructionInfo { mnemonic: "CMP H", bytes: 1, cycles: 4, affected_flags: 0b1101_0101 },
        0xBD => InstructionInfo { mnemonic: "CMP L", bytes: 1, cycles: 4, affected_flags: 0b1101_0101 },
        0xBE => InstructionInfo { mnemonic: "CMP M", bytes: 1, cycles: 7, affected_flags: 0b1101_0101 },
        0xBF => InstructionInfo { mnemonic: "CMP A", bytes: 1, cycles: 4, affected_flags: 0b1101_0101 },
        0xC0 => InstructionInfo { mnemonic: "RNZ", bytes: 1, cycles: 11, affected_flags: 0b0000_0000 },
        0xC1 => InstructionInfo { mnemonic: "POP B", bytes: 1, cycles: 10, affected_flags: 0b0000_0000 },
        0xC2 => InstructionInfo { mnemonic: "JNZ a16", bytes: 3, cycles: 10, affected_flags: 0b0000_0000 },
        0xC3 => InstructionInfo { mnemonic: "JMP a16", bytes: 3, cycles: 10, affected_flags: 0b0000_0000 },
        0xC4 => InstructionInfo { mnemonic: "CNZ a16", bytes: 3, cycles: 17, affected_flags: 0b0000_0000 },
        0xC5 => InstructionInfo { mnemonic: "PUSH B", bytes: 1, cycles: 11, affected_flags: 0b0000_0000 },
        0xC6 => InstructionInfo { mnemonic: "ADI d8", bytes: 2, cycles: 7, affected_flags: 0b1101_0101 },
        0xC7 => InstructionInfo { mnemonic: "RST 0", bytes: 1, cycles: 11, affected_flags: 0b0000_0000 },
        0xC8 => InstructionInfo { mnemonic: "RZ", bytes: 1, cycles: 11, affected_flags: 0b0000_0000 },
        0xC9 => InstructionInfo { mnemonic: "RET", bytes: 1, cycles: 10, affected_flags: 0b0000_0000 },
        0xCA => InstructionInfo { mnemonic: "JZ a16", bytes: 3, cycles: 10, affected_flags: 0b0000_0000 },
        0xCB => InstructionInfo { mnemonic: "JMP a16", bytes: 3, cycles: 10, affected_flags: 0b0000_0000 },
        0xCC => InstructionInfo { mnemonic: "CZ a16", bytes: 3, cycles: 17, affected_flags: 0b0000_0000 },
        0xCD => InstructionInfo { mnemonic: "CALL a16", bytes: 3, cycles: 17, affected_flags: 0b0000_0000 },
        0xCE => InstructionInfo { mnemonic: "ACI d8", bytes: 2, cycles: 7, affected_flags: 0b1101_0101 },
        0xCF => InstructionInfo { mnemonic: "RST 1", bytes: 1, cycles: 11, affected_flags: 0b0000_0000 },
        0xD0 => InstructionInfo { mnemonic: "RNC", bytes: 1, cycles: 11, affected_flags: 0b0000_0000 },
        0xD1 => InstructionInfo { mnemonic: "POP D", bytes: 1, cycles: 10, affected_flags: 0b0000_0000 },
        0xD2 => InstructionInfo { mnemonic: "JNC a16", bytes: 3, cycles: 10, affected_flags: 0b0000_0000 },
        0xD3 => InstructionInfo { mnemonic: "OUT d8", bytes: 2, cycles: 10, affected_flags: 0b0000_0000 },
        0xD4 => InstructionInfo { mnemonic: "CNC a16", bytes: 3, cycles: 17, affected_flags: 0b0000_0000 },
        0xD5 => InstructionInfo { mnemonic: "PUSH D", bytes: 1, cycles: 11, affected_flags: 0b0000_0000 },
        0xD6 => InstructionInfo { mnemonic: "SUI d8", bytes: 2, cycles: 7, affected_flags: 0b1101_0101 },
        0xD7 => InstructionInfo { mnemonic: "RST 2", bytes: 1, cycles: 11, affected_flags: 0b0000_0000 },
        0xD8 => InstructionInfo { mnemonic: "RC", bytes: 1, cycles: 11, affected_flags: 0b0000_0000 },
        0xD9 => InstructionInfo { mnemonic: "RET", bytes: 1, cycles: 10, affected_flags: 0b0000_0000 },
        0xDA => InstructionInfo { mnemonic: "JC a16", bytes: 3, cycles: 10, affected_flags: 0b0000_0000 },
        0xDB => InstructionInfo { mnemonic: "IN d8", bytes: 2, cycles: 10, affected_flags: 0b0000_0000 },
        0xDC => InstructionInfo { mnemonic: "CC a16", bytes: 3, cycles: 17, affected_flags: 0b0000_0000 },
        0xDD => InstructionInfo { mnemonic: "CALL a16", bytes: 3, cycles: 17, affected_flags: 0b0000_0000 },
        0xDE => InstructionInfo { mnemonic: "SBI d8", bytes: 2, cycles: 7, affected_flags: 0b1101_0101 },
        0xDF => InstructionInfo { mnemonic: "RST 3", bytes: 1, cycles: 11, affected_flags: 0b0000_0000 },
        0xE0 => InstructionInfo { mnemonic: "RPO", bytes: 1, cycles: 11, affected_flags: 0b0000_0000 },
        0xE1 => InstructionInfo { mnemonic: "POP H", bytes: 1, cycles: 10, affected_flags: 0b0000_0000 },
        0xE2 => InstructionInfo { mnemonic: "JPO a16", bytes: 3, cycles: 10, affected_flags: 0b0000_0000 },
        0xE3 => InstructionInfo { mnemonic: "XTHL", bytes: 1, cycles: 18, affected_flags: 0b0000_0000 },
        0xE4 => InstructionInfo { mnemonic: "CPO a16", bytes: 3, cycles: 17, affected_flags: 0b0000_0000 },
        0xE5 => InstructionInfo { mnemonic: "PUSH H", bytes: 1, cycles: 11, affected_flags: 0b0000_0000 },
        0xE6 => InstructionInfo { mnemonic: "ANI d8", bytes: 2, cycles: 7, affected_flags: 0b1101_0101 },
        0xE7 => InstructionInfo { mnemonic: "RST 4", bytes: 1, cycles: 11, affected_flags: 0b0000_0000 },
        0xE8 => InstructionInfo { mnemonic: "RPE", bytes: 1, cycles: 11, affected_flags: 0b0000_0000 },
        0xE9 => InstructionInfo { mnemonic: "PCHL", bytes: 1, cycles: 5, affected_flags: 0b0000_0000 },
        0xEA => InstructionInfo { mnemonic: "JPE a16", bytes: 3, cycles: 10, affected_flags: 0b0000_0000 },
        0xEB => InstructionInfo { mnemonic: "XCHG", bytes: 1, cycles: 5, affected_flags: 0b0000_0000 },
        0xEC => InstructionInfo { mnemonic: "CPE a16", bytes: 3, cycles: 17, affected_flags: 0b0000_0000 },
        0xED => InstructionInfo { mnemonic: "CALL a16", bytes: 3, cycles: 17, affected_flags: 0b0000_0000 },
        0xEE => InstructionInfo { mnemonic: "XRI d8", bytes: 2, cycles: 7, affected_flags: 0b1101_0101 },
        0xEF => InstructionInfo { mnemonic: "RST 5", bytes: 1, cycles: 11, affected_flags: 0b0000_0000 },
        0xF0 => InstructionInfo { mnemonic: "RP", bytes: 1, cycles: 11, affected_flags: 0b0000_0000 },
        0xF1 => InstructionInfo { mnemonic: "POP PSW", bytes: 1, cycles: 10, affected_flags: 0b1101_0101 },
        0xF2 => InstructionInfo { mnemonic: "JP a16", bytes: 3, cycles: 10, affected_flags: 0b0000_0000 },
        0xF3 => InstructionInfo { mnemonic: "DI", bytes: 1, cycles: 4, affected_flags: 0b0000_0000 },
        0xF4 => InstructionInfo { mnemonic: "CP a16", bytes: 3, cycles: 17, affected_flags: 0b0000_0000 },
        0xF5 => InstructionInfo { mnemonic: "PUSH PSW", bytes: 1, cycles: 11, affected_flags: 0b0000_0000 },
        0xF6 => InstructionInfo { mnemonic: "ORId8", bytes: 2, cycles: 7, affected_flags: 0b1101_0101 },
        0xF7 => InstructionInfo { mnemonic: "RST 6", bytes: 1, cycles: 11, affected_flags: 0b0000_0000 },
        0xF8 => InstructionInfo { mnemonic: "RM", bytes: 1, cycles: 11, affected_flags: 0b0000_0000 },
        0xF9 => InstructionInfo { mnemonic: "SPHL", bytes: 1, cycles: 5, affected_flags: 0b0000_0000 },
        0xFA => InstructionInfo { mnemonic: "JM a16", bytes: 3, cycles: 10, affected_flags: 0b0000_0000 },
        0xFB => InstructionInfo { mnemonic: "EI", bytes: 1, cycles: 4, affected_flags: 0b0000_0000 },
        0xFC => InstructionInfo { mnemonic: "CM a16", bytes: 3, cycles: 17, affected_flags: 0b0000_0000 },
        0xFD => InstructionInfo { mnemonic: "CALL a16", bytes: 3, cycles: 17, affected_flags: 0b0000_0000 },
        0xFE => InstructionInfo { mnemonic: "CPI d8", bytes: 2, cycles: 7, affected_flags: 0b1101_0101 },
        0xFF => InstructionInfo { mnemonic: "RST 7", bytes: 1, cycles: 11, affected_flags: 0b0000_0000 },
    }
}

} // verus!
