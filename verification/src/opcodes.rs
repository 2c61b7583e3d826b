//! The opcode table: what each of the 256 opcode bytes stands for. The
//! table is laid out as the usual opcode matrix, one block of sixteen rows
//! for each high nibble.

use crate::cpu::AddressingMode;
use vstd::prelude::*;

verus! {

/// One row of the opcode table.
#[derive(Clone, Copy, Debug)]
pub struct OpCode {
    pub code: u8,
    /// The instruction's name; names of undocumented instructions start
    /// with `*`.
    pub mnemonic: &'static str,
    /// How many operand bytes follow the opcode byte: 0, 1 or 2.
    pub additional_bytes: u8,
    /// The base number of CPU cycles the instruction takes.
    pub cycles: u8,
    pub mode: AddressingMode,
}

impl OpCode {
    pub fn new(
        code: u8,
        mnemonic: &'static str,
        additional_bytes: u8,
        cycles: u8,
        mode: AddressingMode,
    ) -> (r: Self)
        ensures
            r == (OpCode { code, mnemonic, additional_bytes, cycles, mode }),
    {
        OpCode { code, mnemonic, additional_bytes, cycles, mode }
    }
}

/// The row of the table for opcode byte `code`, if the byte is an
/// instruction.
pub open spec fn opcode_entry(code: u8) -> Option<OpCode> {
    match code / 16 {
        0x0 => block_0(code),
        0x1 => block_1(code),
        0x2 => block_2(code),
        0x3 => block_3(code),
        0x4 => block_4(code),
        0x5 => block_5(code),
        0x6 => block_6(code),
        0x7 => block_7(code),
        0x8 => block_8(code),
        0x9 => block_9(code),
        0xA => block_a(code),
        0xB => block_b(code),
        0xC => block_c(code),
        0xD => block_d(code),
        0xE => block_e(code),
        _ => block_f(code),
    }
}

/// The rows for opcode bytes `0x00..=0x0F`.
pub open spec fn block_0(code: u8) -> Option<OpCode> {
    match code {
        0x00 => Some(OpCode { code: 0x00, mnemonic: "BRK", additional_bytes: 0, cycles: 7, mode: AddressingMode::Implied }),
        0x01 => Some(OpCode { code: 0x01, mnemonic: "ORA", additional_bytes: 1, cycles: 6, mode: AddressingMode::Indirect_X }),
        0x02 => Some(OpCode { code: 0x02, mnemonic: "*NOP", additional_bytes: 0, cycles: 2, mode: AddressingMode::Implied }),
        0x03 => Some(OpCode { code: 0x03, mnemonic: "*SLO", additional_bytes: 1, cycles: 8, mode: AddressingMode::Indirect_X }),
        0x04 => Some(OpCode { code: 0x04, mnemonic: "*NOP", additional_bytes: 1, cycles: 3, mode: AddressingMode::ZeroPage }),
        0x05 => Some(OpCode { code: 0x05, mnemonic: "ORA", additional_bytes: 1, cycles: 3, mode: AddressingMode::ZeroPage }),
        0x06 => Some(OpCode { code: 0x06, mnemonic: "ASL", additional_bytes: 1, cycles: 5, mode: AddressingMode::ZeroPage }),
        0x07 => Some(OpCode { code: 0x07, mnemonic: "*SLO", additional_bytes: 1, cycles: 5, mode: AddressingMode::ZeroPage }),
        0x08 => Some(OpCode { code: 0x08, mnemonic: "PHP", additional_bytes: 0, cycles: 3, mode: AddressingMode::Implied }),
        0x09 => Some(OpCode { code: 0x09, mnemonic: "ORA", additional_bytes: 1, cycles: 2, mode: AddressingMode::Immediate }),
        0x0A => Some(OpCode { code: 0x0A, mnemonic: "ASL", additional_bytes: 0, cycles: 2, mode: AddressingMode::Implied }),
        0x0B => Some(OpCode { code: 0x0B, mnemonic: "*ANC", additional_bytes: 1, cycles: 2, mode: AddressingMode::Immediate }),
        0x0C => Some(OpCode { code: 0x0C, mnemonic: "*NOP", additional_bytes: 2, cycles: 4, mode: AddressingMode::Absolute }),
        0x0D => Some(OpCode { code: 0x0D, mnemonic: "ORA", additional_bytes: 2, cycles: 4, mode: AddressingMode::Absolute }),
        0x0E => Some(OpCode { code: 0x0E, mnemonic: "ASL", additional_bytes: 2, cycles: 6, mode: AddressingMode::Absolute }),
        0x0F => Some(OpCode { code: 0x0F, mnemonic: "*SLO", additional_bytes: 2, cycles: 6, mode: AddressingMode::Absolute }),
        _ => None,
    }
}

/// The rows for opcode bytes `0x10..=0x1F`.
pub open spec fn block_1(code: u8) -> Option<OpCode> {
    match code {
        0x10 => Some(OpCode { code: 0x10, mnemonic: "BPL", additional_bytes: 1, cycles: 2, mode: AddressingMode::Implied }),
        0x11 => Some(OpCode { code: 0x11, mnemonic: "ORA", additional_bytes: 1, cycles: 5, mode: AddressingMode::Indirect_Y }),
        0x12 => Some(OpCode { code: 0x12, mnemonic: "*NOP", additional_bytes: 0, cycles: 2, mode: AddressingMode::Implied }),
        0x13 => Some(OpCode { code: 0x13, mnemonic: "*SLO", additional_bytes: 1, cycles: 8, mode: AddressingMode::Indirect_Y }),
        0x14 => Some(OpCode { code: 0x14, mnemonic: "*NOP", additional_bytes: 1, cycles: 4, mode: AddressingMode::ZeroPage_X }),
        0x15 => Some(OpCode { code: 0x15, mnemonic: "ORA", additional_bytes: 1, cycles: 4, mode: AddressingMode::ZeroPage_X }),
        0x16 => Some(OpCode { code: 0x16, mnemonic: "ASL", additional_bytes: 1, cycles: 6, mode: AddressingMode::ZeroPage_X }),
        0x17 => Some(OpCode { code: 0x17, mnemonic: "*SLO", additional_bytes: 1, cycles: 6, mode: AddressingMode::ZeroPage_X }),
        0x18 => Some(OpCode { code: 0x18, mnemonic: "CLC", additional_bytes: 0, cycles: 2, mode: AddressingMode::Implied }),
        0x19 => Some(OpCode { code: 0x19, mnemonic: "ORA", additional_bytes: 2, cycles: 4, mode: AddressingMode::Absolute_Y }),
        0x1A => Some(OpCode { code: 0x1A, mnemonic: "*NOP", additional_bytes: 0, cycles: 2, mode: AddressingMode::Implied }),
        0x1B => Some(OpCode { code: 0x1B, mnemonic: "*SLO", additional_bytes: 2, cycles: 7, mode: AddressingMode::Absolute_Y }),
        0x1C => Some(OpCode { code: 0x1C, mnemonic: "*NOP", additional_bytes: 2, cycles: 4, mode: AddressingMode::Absolute_X }),
        0x1D => Some(OpCode { code: 0x1D, mnemonic: "ORA", additional_bytes: 2, cycles: 4, mode: AddressingMode::Absolute_X }),
        0x1E => Some(OpCode { code: 0x1E, mnemonic: "ASL", additional_bytes: 2, cycles: 7, mode: AddressingMode::Absolute_X }),
        0x1F => Some(OpCode { code: 0x1F, mnemonic: "*SLO", additional_bytes: 2, cycles: 7, mode: AddressingMode::Absolute_X }),
        _ => None,
    }
}

/// The rows for opcode bytes `0x20..=0x2F`.
pub open spec fn block_2(code: u8) -> Option<OpCode> {
    match code {
        0x20 => Some(OpCode { code: 0x20, mnemonic: "JSR", additional_bytes: 2, cycles: 6, mode: AddressingMode::Implied }),
        0x21 => Some(OpCode { code: 0x21, mnemonic: "AND", additional_bytes: 1, cycles: 6, mode: AddressingMode::Indirect_X }),
        0x22 => Some(OpCode { code: 0x22, mnemonic: "*NOP", additional_bytes: 0, cycles: 2, mode: AddressingMode::Implied }),
        0x23 => Some(OpCode { code: 0x23, mnemonic: "*RLA", additional_bytes: 1, cycles: 8, mode: AddressingMode::Indirect_X }),
        0x24 => Some(OpCode { code: 0x24, mnemonic: "BIT", additional_bytes: 1, cycles: 3, mode: AddressingMode::ZeroPage }),
        0x25 => Some(OpCode { code: 0x25, mnemonic: "AND", additional_bytes: 1, cycles: 3, mode: AddressingMode::ZeroPage }),
        0x26 => Some(OpCode { code: 0x26, mnemonic: "ROL", additional_bytes: 1, cycles: 5, mode: AddressingMode::ZeroPage }),
        0x27 => Some(OpCode { code: 0x27, mnemonic: "*RLA", additional_bytes: 1, cycles: 5, mode: AddressingMode::ZeroPage }),
        0x28 => Some(OpCode { code: 0x28, mnemonic: "PLP", additional_bytes: 0, cycles: 4, mode: AddressingMode::Implied }),
        0x29 => Some(OpCode { code: 0x29, mnemonic: "AND", additional_bytes: 1, cycles: 2, mode: AddressingMode::Immediate }),
        0x2A => Some(OpCode { code: 0x2A, mnemonic: "ROL", additional_bytes: 0, cycles: 2, mode: AddressingMode::Implied }),
        0x2B => Some(OpCode { code: 0x2B, mnemonic: "*ANC", additional_bytes: 1, cycles: 2, mode: AddressingMode::Immediate }),
        0x2C => Some(OpCode { code: 0x2C, mnemonic: "BIT", additional_bytes: 2, cycles: 4, mode: AddressingMode::Absolute }),
        0x2D => Some(OpCode { code: 0x2D, mnemonic: "AND", additional_bytes: 2, cycles: 4, mode: AddressingMode::Absolute }),
        0x2E => Some(OpCode { code: 0x2E, mnemonic: "ROL", additional_bytes: 2, cycles: 6, mode: AddressingMode::Absolute }),
        0x2F => Some(OpCode { code: 0x2F, mnemonic: "*RLA", additional_bytes: 2, cycles: 6, mode: AddressingMode::Absolute }),
        _ => None,
    }
}

/// The rows for opcode bytes `0x30..=0x3F`.
pub open spec fn block_3(code: u8) -> Option<OpCode> {
    match code {
        0x30 => Some(OpCode { code: 0x30, mnemonic: "BMI", additional_bytes: 1, cycles: 2, mode: AddressingMode::Implied }),
        0x31 => Some(OpCode { code: 0x31, mnemonic: "AND", additional_bytes: 1, cycles: 5, mode: AddressingMode::Indirect_Y }),
        0x32 => Some(OpCode { code: 0x32, mnemonic: "*NOP", additional_bytes: 0, cycles: 2, mode: AddressingMode::Implied }),
        0x33 => Some(OpCode { code: 0x33, mnemonic: "*RLA", additional_bytes: 1, cycles: 8, mode: AddressingMode::Indirect_Y }),
        0x34 => Some(OpCode { code: 0x34, mnemonic: "*NOP", additional_bytes: 1, cycles: 4, mode: AddressingMode::ZeroPage_X }),
        0x35 => Some(OpCode { code: 0x35, mnemonic: "AND", additional_bytes: 1, cycles: 4, mode: AddressingMode::ZeroPage_X }),
        0x36 => Some(OpCode { code: 0x36, mnemonic: "ROL", additional_bytes: 1, cycles: 6, mode: AddressingMode::ZeroPage_X }),
        0x37 => Some(OpCode { code: 0x37, mnemonic: "*RLA", additional_bytes: 1, cycles: 6, mode: AddressingMode::ZeroPage_X }),
        0x38 => Some(OpCode { code: 0x38, mnemonic: "SEC", additional_bytes: 0, cycles: 2, mode: AddressingMode::Implied }),
        0x39 => Some(OpCode { code: 0x39, mnemonic: "AND", additional_bytes: 2, cycles: 4, mode: AddressingMode::Absolute_Y }),
        0x3A => Some(OpCode { code: 0x3A, mnemonic: "*NOP", additional_bytes: 0, cycles: 2, mode: AddressingMode::Implied }),
        0x3B => Some(OpCode { code: 0x3B, mnemonic: "*RLA", additional_bytes: 2, cycles: 7, mode: AddressingMode::Absolute_Y }),
        0x3C => Some(OpCode { code: 0x3C, mnemonic: "*NOP", additional_bytes: 2, cycles: 4, mode: AddressingMode::Absolute_X }),
        0x3D => Some(OpCode { code: 0x3D, mnemonic: "AND", additional_bytes: 2, cycles: 4, mode: AddressingMode::Absolute_X }),
        0x3E => Some(OpCode { code: 0x3E, mnemonic: "ROL", additional_bytes: 2, cycles: 7, mode: AddressingMode::Absolute_X }),
        0x3F => Some(OpCode { code: 0x3F, mnemonic: "*RLA", additional_bytes: 2, cycles: 7, mode: AddressingMode::Absolute_X }),
        _ => None,
    }
}

/// The rows for opcode bytes `0x40..=0x4F`.
pub open spec fn block_4(code: u8) -> Option<OpCode> {
    match code {
        0x40 => Some(OpCode { code: 0x40, mnemonic: "RTI", additional_bytes: 0, cycles: 6, mode: AddressingMode::Implied }),
        0x41 => Some(OpCode { code: 0x41, mnemonic: "EOR", additional_bytes: 1, cycles: 6, mode: AddressingMode::Indirect_X }),
        0x42 => Some(OpCode { code: 0x42, mnemonic: "*NOP", additional_bytes: 0, cycles: 2, mode: AddressingMode::Implied }),
        0x43 => Some(OpCode { code: 0x43, mnemonic: "*SRE", additional_bytes: 1, cycles: 8, mode: AddressingMode::Indirect_X }),
        0x44 => Some(OpCode { code: 0x44, mnemonic: "*NOP", additional_bytes: 1, cycles: 3, mode: AddressingMode::ZeroPage }),
        0x45 => Some(OpCode { code: 0x45, mnemonic: "EOR", additional_bytes: 1, cycles: 3, mode: AddressingMode::ZeroPage }),
        0x46 => Some(OpCode { code: 0x46, mnemonic: "LSR", additional_bytes: 1, cycles: 5, mode: AddressingMode::ZeroPage }),
        0x47 => Some(OpCode { code: 0x47, mnemonic: "*SRE", additional_bytes: 1, cycles: 5, mode: AddressingMode::ZeroPage }),
        0x48 => Some(OpCode { code: 0x48, mnemonic: "PHA", additional_bytes: 0, cycles: 3, mode: AddressingMode::Implied }),
        0x49 => Some(OpCode { code: 0x49, mnemonic: "EOR", additional_bytes: 1, cycles: 2, mode: AddressingMode::Immediate }),
        0x4A => Some(OpCode { code: 0x4A, mnemonic: "LSR", additional_bytes: 0, cycles: 2, mode: AddressingMode::Implied }),
        0x4B => Some(OpCode { code: 0x4B, mnemonic: "*ALR", additional_bytes: 1, cycles: 2, mode: AddressingMode::Immediate }),
        0x4C => Some(OpCode { code: 0x4C, mnemonic: "JMP", additional_bytes: 2, cycles: 3, mode: AddressingMode::Implied }),
        0x4D => Some(OpCode { code: 0x4D, mnemonic: "EOR", additional_bytes: 2, cycles: 4, mode: AddressingMode::Absolute }),
        0x4E => Some(OpCode { code: 0x4E, mnemonic: "LSR", additional_bytes: 2, cycles: 6, mode: AddressingMode::Absolute }),
        0x4F => Some(OpCode { code: 0x4F, mnemonic: "*SRE", additional_bytes: 2, cycles: 6, mode: AddressingMode::Absolute }),
        _ => None,
    }
}

/// The rows for opcode bytes `0x50..=0x5F`.
pub open spec fn block_5(code: u8) -> Option<OpCode> {
    match code {
        0x50 => Some(OpCode { code: 0x50, mnemonic: "BVC", additional_bytes: 1, cycles: 2, mode: AddressingMode::Implied }),
        0x51 => Some(OpCode { code: 0x51, mnemonic: "EOR", additional_bytes: 1, cycles: 5, mode: AddressingMode::Indirect_Y }),
        0x52 => Some(OpCode { code: 0x52, mnemonic: "*NOP", additional_bytes: 0, cycles: 2, mode: AddressingMode::Implied }),
        0x53 => Some(OpCode { code: 0x53, mnemonic: "*SRE", additional_bytes: 1, cycles: 8, mode: AddressingMode::Indirect_Y }),
        0x54 => Some(OpCode { code: 0x54, mnemonic: "*NOP", additional_bytes: 1, cycles: 4, mode: AddressingMode::ZeroPage_X }),
        0x55 => Some(OpCode { code: 0x55, mnemonic: "EOR", additional_bytes: 1, cycles: 4, mode: AddressingMode::ZeroPage_X }),
        0x56 => Some(OpCode { code: 0x56, mnemonic: "LSR", additional_bytes: 1, cycles: 6, mode: AddressingMode::ZeroPage_X }),
        0x57 => Some(OpCode { code: 0x57, mnemonic: "*SRE", additional_bytes: 1, cycles: 6, mode: AddressingMode::ZeroPage_X }),
        0x58 => Some(OpCode { code: 0x58, mnemonic: "CLI", additional_bytes: 0, cycles: 2, mode: AddressingMode::Implied }),
        0x59 => Some(OpCode { code: 0x59, mnemonic: "EOR", additional_bytes: 2, cycles: 4, mode: AddressingMode::Absolute_Y }),
        0x5A => Some(OpCode { code: 0x5A, mnemonic: "*NOP", additional_bytes: 0, cycles: 2, mode: AddressingMode::Implied }),
        0x5B => Some(OpCode { code: 0x5B, mnemonic: "*SRE", additional_bytes: 2, cycles: 7, mode: AddressingMode::Absolute_Y }),
        0x5C => Some(OpCode { code: 0x5C, mnemonic: "*NOP", additional_bytes: 2, cycles: 4, mode: AddressingMode::Absolute_X }),
        0x5D => Some(OpCode { code: 0x5D, mnemonic: "EOR", additional_bytes: 2, cycles: 4, mode: AddressingMode::Absolute_X }),
        0x5E => Some(OpCode { code: 0x5E, mnemonic: "LSR", additional_bytes: 2, cycles: 7, mode: AddressingMode::Absolute_X }),
        0x5F => Some(OpCode { code: 0x5F, mnemonic: "*SRE", additional_bytes: 2, cycles: 7, mode: AddressingMode::Absolute_X }),
        _ => None,
    }
}

/// The rows for opcode bytes `0x60..=0x6F`.
pub open spec fn block_6(code: u8) -> Option<OpCode> {
    match code {
        0x60 => Some(OpCode { code: 0x60, mnemonic: "RTS", additional_bytes: 0, cycles: 6, mode: AddressingMode::Implied }),
        0x61 => Some(OpCode { code: 0x61, mnemonic: "ADC", additional_bytes: 1, cycles: 6, mode: AddressingMode::Indirect_X }),
        0x62 => Some(OpCode { code: 0x62, mnemonic: "*NOP", additional_bytes: 0, cycles: 2, mode: AddressingMode::Implied }),
        0x63 => Some(OpCode { code: 0x63, mnemonic: "*RRA", additional_bytes: 1, cycles: 8, mode: AddressingMode::Indirect_X }),
        0x64 => Some(OpCode { code: 0x64, mnemonic: "*NOP", additional_bytes: 1, cycles: 3, mode: AddressingMode::ZeroPage }),
        0x65 => Some(OpCode { code: 0x65, mnemonic: "ADC", additional_bytes: 1, cycles: 3, mode: AddressingMode::ZeroPage }),
        0x66 => Some(OpCode { code: 0x66, mnemonic: "ROR", additional_bytes: 1, cycles: 5, mode: AddressingMode::ZeroPage }),
        0x67 => Some(OpCode { code: 0x67, mnemonic: "*RRA", additional_bytes: 1, cycles: 5, mode: AddressingMode::ZeroPage }),
        0x68 => Some(OpCode { code: 0x68, mnemonic: "PLA", additional_bytes: 0, cycles: 4, mode: AddressingMode::Implied }),
        0x69 => Some(OpCode { code: 0x69, mnemonic: "ADC", additional_bytes: 1, cycles: 2, mode: AddressingMode::Immediate }),
        0x6A => Some(OpCode { code: 0x6A, mnemonic: "ROR", additional_bytes: 0, cycles: 2, mode: AddressingMode::Implied }),
        0x6B => Some(OpCode { code: 0x6B, mnemonic: "*ARR", additional_bytes: 1, cycles: 2, mode: AddressingMode::Immediate }),
        0x6C => Some(OpCode { code: 0x6C, mnemonic: "JMP", additional_bytes: 2, cycles: 5, mode: AddressingMode::Implied }),
        0x6D => Some(OpCode { code: 0x6D, mnemonic: "ADC", additional_bytes: 2, cycles: 4, mode: AddressingMode::Absolute }),
        0x6E => Some(OpCode { code: 0x6E, mnemonic: "ROR", additional_bytes: 2, cycles: 6, mode: AddressingMode::Absolute }),
        0x6F => Some(OpCode { code: 0x6F, mnemonic: "*RRA", additional_bytes: 2, cycles: 6, mode: AddressingMode::Absolute }),
        _ => None,
    }
}

/// The rows for opcode bytes `0x70..=0x7F`.
pub open spec fn block_7(code: u8) -> Option<OpCode> {
    match code {
        0x70 => Some(OpCode { code: 0x70, mnemonic: "BVS", additional_bytes: 1, cycles: 2, mode: AddressingMode::Implied }),
        0x71 => Some(OpCode { code: 0x71, mnemonic: "ADC", additional_bytes: 1, cycles: 5, mode: AddressingMode::Indirect_Y }),
        0x72 => Some(OpCode { code: 0x72, mnemonic: "*NOP", additional_bytes: 0, cycles: 2, mode: AddressingMode::Implied }),
        0x73 => Some(OpCode { code: 0x73, mnemonic: "*RRA", additional_bytes: 1, cycles: 8, mode: AddressingMode::Indirect_Y }),
        0x74 => Some(OpCode { code: 0x74, mnemonic: "*NOP", additional_bytes: 1, cycles: 4, mode: AddressingMode::ZeroPage_X }),
        0x75 => Some(OpCode { code: 0x75, mnemonic: "ADC", additional_bytes: 1, cycles: 4, mode: AddressingMode::ZeroPage_X }),
        0x76 => Some(OpCode { code: 0x76, mnemonic: "ROR", additional_bytes: 1, cycles: 6, mode: AddressingMode::ZeroPage_X }),
        0x77 => Some(OpCode { code: 0x77, mnemonic: "*RRA", additional_bytes: 1, cycles: 6, mode: AddressingMode::ZeroPage_X }),
        0x78 => Some(OpCode { code: 0x78, mnemonic: "SEI", additional_bytes: 0, cycles: 2, mode: AddressingMode::Implied }),
        0x79 => Some(OpCode { code: 0x79, mnemonic: "ADC", additional_bytes: 2, cycles: 4, mode: AddressingMode::Absolute_Y }),
        0x7A => Some(OpCode { code: 0x7A, mnemonic: "*NOP", additional_bytes: 0, cycles: 2, mode: AddressingMode::Implied }),
        0x7B => Some(OpCode { code: 0x7B, mnemonic: "*RRA", additional_bytes: 2, cycles: 7, mode: AddressingMode::Absolute_Y }),
        0x7C => Some(OpCode { code: 0x7C, mnemonic: "*NOP", additional_bytes: 2, cycles: 4, mode: AddressingMode::Absolute_X }),
        0x7D => Some(OpCode { code: 0x7D, mnemonic: "ADC", additional_bytes: 2, cycles: 4, mode: AddressingMode::Absolute_X }),
        0x7E => Some(OpCode { code: 0x7E, mnemonic: "ROR", additional_bytes: 2, cycles: 7, mode: AddressingMode::Absolute_X }),
        0x7F => Some(OpCode { code: 0x7F, mnemonic: "*RRA", additional_bytes: 2, cycles: 7, mode: AddressingMode::Absolute_X }),
        _ => None,
    }
}

/// The rows for opcode bytes `0x80..=0x8F`.
pub open spec fn block_8(code: u8) -> Option<OpCode> {
    match code {
        0x80 => Some(OpCode { code: 0x80, mnemonic: "*NOP", additional_bytes: 1, cycles: 2, mode: AddressingMode::Immediate }),
        0x81 => Some(OpCode { code: 0x81, mnemonic: "STA", additional_bytes: 1, cycles: 6, mode: AddressingMode::Indirect_X }),
        0x82 => Some(OpCode { code: 0x82, mnemonic: "*NOP", additional_bytes: 1, cycles: 2, mode: AddressingMode::Immediate }),
        0x83 => Some(OpCode { code: 0x83, mnemonic: "*SAX", additional_bytes: 1, cycles: 6, mode: AddressingMode::Indirect_X }),
        0x84 => Some(OpCode { code: 0x84, mnemonic: "STY", additional_bytes: 1, cycles: 3, mode: AddressingMode::ZeroPage }),
        0x85 => Some(OpCode { code: 0x85, mnemonic: "STA", additional_bytes: 1, cycles: 3, mode: AddressingMode::ZeroPage }),
        0x86 => Some(OpCode { code: 0x86, mnemonic: "STX", additional_bytes: 1, cycles: 3, mode: AddressingMode::ZeroPage }),
        0x87 => Some(OpCode { code: 0x87, mnemonic: "*SAX", additional_bytes: 1, cycles: 3, mode: AddressingMode::ZeroPage }),
        0x88 => Some(OpCode { code: 0x88, mnemonic: "DEY", additional_bytes: 0, cycles: 2, mode: AddressingMode::Implied }),
        0x89 => Some(OpCode { code: 0x89, mnemonic: "*NOP", additional_bytes: 1, cycles: 2, mode: AddressingMode::Immediate }),
        0x8A => Some(OpCode { code: 0x8A, mnemonic: "TXA", additional_bytes: 0, cycles: 2, mode: AddressingMode::Implied }),
        0x8B => Some(OpCode { code: 0x8B, mnemonic: "*XAA", additional_bytes: 1, cycles: 3, mode: AddressingMode::Immediate }),
        0x8C => Some(OpCode { code: 0x8C, mnemonic: "STY", additional_bytes: 2, cycles: 4, mode: AddressingMode::Absolute }),
        0x8D => Some(OpCode { code: 0x8D, mnemonic: "STA", additional_bytes: 2, cycles: 4, mode: AddressingMode::Absolute }),
        0x8E => Some(OpCode { code: 0x8E, mnemonic: "STX", additional_bytes: 2, cycles: 4, mode: AddressingMode::Absolute }),
        0x8F => Some(OpCode { code: 0x8F, mnemonic: "*SAX", additional_bytes: 2, cycles: 4, mode: AddressingMode::Absolute }),
        _ => None,
    }
}

/// The rows for opcode bytes `0x90..=0x9F`.
pub open spec fn block_9(code: u8) -> Option<OpCode> {
    match code {
        0x90 => Some(OpCode { code: 0x90, mnemonic: "BCC", additional_bytes: 1, cycles: 2, mode: AddressingMode::Implied }),
        0x91 => Some(OpCode { code: 0x91, mnemonic: "STA", additional_bytes: 1, cycles: 6, mode: AddressingMode::Indirect_Y }),
        0x92 => Some(OpCode { code: 0x92, mnemonic: "*NOP", additional_bytes: 0, cycles: 2, mode: AddressingMode::Implied }),
        0x93 => Some(OpCode { code: 0x93, mnemonic: "*AHX", additional_bytes: 1, cycles: 8, mode: AddressingMode::Indirect_Y }),
        0x94 => Some(OpCode { code: 0x94, mnemonic: "STY", additional_bytes: 1, cycles: 4, mode: AddressingMode::ZeroPage_X }),
        0x95 => Some(OpCode { code: 0x95, mnemonic: "STA", additional_bytes: 1, cycles: 4, mode: AddressingMode::ZeroPage_X }),
        0x96 => Some(OpCode { code: 0x96, mnemonic: "STX", additional_bytes: 1, cycles: 4, mode: AddressingMode::ZeroPage_Y }),
        0x97 => Some(OpCode { code: 0x97, mnemonic: "*SAX", additional_bytes: 1, cycles: 4, mode: AddressingMode::ZeroPage_Y }),
        0x98 => Some(OpCode { code: 0x98, mnemonic: "TYA", additional_bytes: 0, cycles: 2, mode: AddressingMode::Implied }),
        0x99 => Some(OpCode { code: 0x99, mnemonic: "STA", additional_bytes: 2, cycles: 5, mode: AddressingMode::Absolute_Y }),
        0x9A => Some(OpCode { code: 0x9A, mnemonic: "TXS", additional_bytes: 0, cycles: 2, mode: AddressingMode::Implied }),
        0x9B => Some(OpCode { code: 0x9B, mnemonic: "*TAS", additional_bytes: 2, cycles: 2, mode: AddressingMode::Absolute_Y }),
        0x9C => Some(OpCode { code: 0x9C, mnemonic: "*SHY", additional_bytes: 2, cycles: 4, mode: AddressingMode::Absolute_X }),
        0x9D => Some(OpCode { code: 0x9D, mnemonic: "STA", additional_bytes: 2, cycles: 5, mode: AddressingMode::Absolute_X }),
        0x9E => Some(OpCode { code: 0x9E, mnemonic: "*SHX", additional_bytes: 2, cycles: 4, mode: AddressingMode::Absolute_Y }),
        0x9F => Some(OpCode { code: 0x9F, mnemonic: "*AHX", additional_bytes: 2, cycles: 4, mode: AddressingMode::Absolute_Y }),
        _ => None,
    }
}

/// The rows for opcode bytes `0xA0..=0xAF`.
pub open spec fn block_a(code: u8) -> Option<OpCode> {
    match code {
        0xA0 => Some(OpCode { code: 0xA0, mnemonic: "LDY", additional_bytes: 1, cycles: 2, mode: AddressingMode::Immediate }),
        0xA1 => Some(OpCode { code: 0xA1, mnemonic: "LDA", additional_bytes: 1, cycles: 6, mode: AddressingMode::Indirect_X }),
        0xA2 => Some(OpCode { code: 0xA2, mnemonic: "LDX", additional_bytes: 1, cycles: 2, mode: AddressingMode::Immediate }),
        0xA3 => Some(OpCode { code: 0xA3, mnemonic: "*LAX", additional_bytes: 1, cycles: 6, mode: AddressingMode::Indirect_X }),
        0xA4 => Some(OpCode { code: 0xA4, mnemonic: "LDY", additional_bytes: 1, cycles: 3, mode: AddressingMode::ZeroPage }),
        0xA5 => Some(OpCode { code: 0xA5, mnemonic: "LDA", additional_bytes: 1, cycles: 3, mode: AddressingMode::ZeroPage }),
        0xA6 => Some(OpCode { code: 0xA6, mnemonic: "LDX", additional_bytes: 1, cycles: 3, mode: AddressingMode::ZeroPage }),
        0xA7 => Some(OpCode { code: 0xA7, mnemonic: "*LAX", additional_bytes: 1, cycles: 3, mode: AddressingMode::ZeroPage }),
        0xA8 => Some(OpCode { code: 0xA8, mnemonic: "TAY", additional_bytes: 0, cycles: 2, mode: AddressingMode::Implied }),
        0xA9 => Some(OpCode { code: 0xA9, mnemonic: "LDA", additional_bytes: 1, cycles: 2, mode: AddressingMode::Immediate }),
        0xAA => Some(OpCode { code: 0xAA, mnemonic: "TAX", additional_bytes: 0, cycles: 2, mode: AddressingMode::Implied }),
        0xAB => Some(OpCode { code: 0xAB, mnemonic: "*LXA", additional_bytes: 1, cycles: 3, mode: AddressingMode::Immediate }),
        0xAC => Some(OpCode { code: 0xAC, mnemonic: "LDY", additional_bytes: 2, cycles: 4, mode: AddressingMode::Absolute }),
        0xAD => Some(OpCode { code: 0xAD, mnemonic: "LDA", additional_bytes: 2, cycles: 4, mode: AddressingMode::Absolute }),
        0xAE => Some(OpCode { code: 0xAE, mnemonic: "LDX", additional_bytes: 2, cycles: 4, mode: AddressingMode::Absolute }),
        0xAF => Some(OpCode { code: 0xAF, mnemonic: "*LAX", additional_bytes: 2, cycles: 4, mode: AddressingMode::Absolute }),
        _ => None,
    }
}

/// The rows for opcode bytes `0xB0..=0xBF`.
pub open spec fn block_b(code: u8) -> Option<OpCode> {
    match code {
        0xB0 => Some(OpCode { code: 0xB0, mnemonic: "BCS", additional_bytes: 1, cycles: 2, mode: AddressingMode::Implied }),
        0xB1 => Some(OpCode { code: 0xB1, mnemonic: "LDA", additional_bytes: 1, cycles: 5, mode: AddressingMode::Indirect_Y }),
        0xB2 => Some(OpCode { code: 0xB2, mnemonic: "*NOP", additional_bytes: 0, cycles: 2, mode: AddressingMode::Implied }),
        0xB3 => Some(OpCode { code: 0xB3, mnemonic: "*LAX", additional_bytes: 1, cycles: 5, mode: AddressingMode::Indirect_Y }),
        0xB4 => Some(OpCode { code: 0xB4, mnemonic: "LDY", additional_bytes: 1, cycles: 4, mode: AddressingMode::ZeroPage_X }),
        0xB5 => Some(OpCode { code: 0xB5, mnemonic: "LDA", additional_bytes: 1, cycles: 4, mode: AddressingMode::ZeroPage_X }),
        0xB6 => Some(OpCode { code: 0xB6, mnemonic: "LDX", additional_bytes: 1, cycles: 4, mode: AddressingMode::ZeroPage_Y }),
        0xB7 => Some(OpCode { code: 0xB7, mnemonic: "*LAX", additional_bytes: 1, cycles: 4, mode: AddressingMode::ZeroPage_Y }),
        0xB8 => Some(OpCode { code: 0xB8, mnemonic: "CLV", additional_bytes: 0, cycles: 2, mode: AddressingMode::Implied }),
        0xB9 => Some(OpCode { code: 0xB9, mnemonic: "LDA", additional_bytes: 2, cycles: 4, mode: AddressingMode::Absolute_Y }),
        0xBA => Some(OpCode { code: 0xBA, mnemonic: "TSX", additional_bytes: 0, cycles: 2, mode: AddressingMode::Implied }),
        0xBB => Some(OpCode { code: 0xBB, mnemonic: "*LAS", additional_bytes: 2, cycles: 2, mode: AddressingMode::Absolute_Y }),
        0xBC => Some(OpCode { code: 0xBC, mnemonic: "LDY", additional_bytes: 2, cycles: 4, mode: AddressingMode::Absolute_X }),
        0xBD => Some(OpCode { code: 0xBD, mnemonic: "LDA", additional_bytes: 2, cycles: 4, mode: AddressingMode::Absolute_X }),
        0xBE => Some(OpCode { code: 0xBE, mnemonic: "LDX", additional_bytes: 2, cycles: 4, mode: AddressingMode::Absolute_Y }),
        0xBF => Some(OpCode { code: 0xBF, mnemonic: "*LAX", additional_bytes: 2, cycles: 4, mode: AddressingMode::Absolute_Y }),
        _ => None,
    }
}

/// The rows for opcode bytes `0xC0..=0xCF`.
pub open spec fn block_c(code: u8) -> Option<OpCode> {
    match code {
        0xC0 => Some(OpCode { code: 0xC0, mnemonic: "CPY", additional_bytes: 1, cycles: 2, mode: AddressingMode::Immediate }),
        0xC1 => Some(OpCode { code: 0xC1, mnemonic: "CMP", additional_bytes: 1, cycles: 6, mode: AddressingMode::Indirect_X }),
        0xC2 => Some(OpCode { code: 0xC2, mnemonic: "*NOP", additional_bytes: 1, cycles: 2, mode: AddressingMode::Immediate }),
        0xC3 => Some(OpCode { code: 0xC3, mnemonic: "*DCP", additional_bytes: 1, cycles: 8, mode: AddressingMode::Indirect_X }),
        0xC4 => Some(OpCode { code: 0xC4, mnemonic: "CPY", additional_bytes: 1, cycles: 3, mode: AddressingMode::ZeroPage }),
        0xC5 => Some(OpCode { code: 0xC5, mnemonic: "CMP", additional_bytes: 1, cycles: 3, mode: AddressingMode::ZeroPage }),
        0xC6 => Some(OpCode { code: 0xC6, mnemonic: "DEC", additional_bytes: 1, cycles: 5, mode: AddressingMode::ZeroPage }),
        0xC7 => Some(OpCode { code: 0xC7, mnemonic: "*DCP", additional_bytes: 1, cycles: 5, mode: AddressingMode::ZeroPage }),
        0xC8 => Some(OpCode { code: 0xC8, mnemonic: "INY", additional_bytes: 0, cycles: 2, mode: AddressingMode::Implied }),
        0xC9 => Some(OpCode { code: 0xC9, mnemonic: "CMP", additional_bytes: 1, cycles: 2, mode: AddressingMode::Immediate }),
        0xCA => Some(OpCode { code: 0xCA, mnemonic: "DEX", additional_bytes: 0, cycles: 2, mode: AddressingMode::Implied }),
        0xCB => Some(OpCode { code: 0xCB, mnemonic: "*AXS", additional_bytes: 1, cycles: 2, mode: AddressingMode::Immediate }),
        0xCC => Some(OpCode { code: 0xCC, mnemonic: "CPY", additional_bytes: 2, cycles: 4, mode: AddressingMode::Absolute }),
        0xCD => Some(OpCode { code: 0xCD, mnemonic: "CMP", additional_bytes: 2, cycles: 4, mode: AddressingMode::Absolute }),
        0xCE => Some(OpCode { code: 0xCE, mnemonic: "DEC", additional_bytes: 2, cycles: 6, mode: AddressingMode::Absolute }),
        0xCF => Some(OpCode { code: 0xCF, mnemonic: "*DCP", additional_bytes: 2, cycles: 6, mode: AddressingMode::Absolute }),
        _ => None,
    }
}

/// The rows for opcode bytes `0xD0..=0xDF`.
pub open spec fn block_d(code: u8) -> Option<OpCode> {
    match code {
        0xD0 => Some(OpCode { code: 0xD0, mnemonic: "BNE", additional_bytes: 1, cycles: 2, mode: AddressingMode::Implied }),
        0xD1 => Some(OpCode { code: 0xD1, mnemonic: "CMP", additional_bytes: 1, cycles: 5, mode: AddressingMode::Indirect_Y }),
        0xD2 => Some(OpCode { code: 0xD2, mnemonic: "*NOP", additional_bytes: 0, cycles: 2, mode: AddressingMode::Implied }),
        0xD3 => Some(OpCode { code: 0xD3, mnemonic: "*DCP", additional_bytes: 1, cycles: 8, mode: AddressingMode::Indirect_Y }),
        0xD4 => Some(OpCode { code: 0xD4, mnemonic: "*NOP", additional_bytes: 1, cycles: 4, mode: AddressingMode::ZeroPage_X }),
        0xD5 => Some(OpCode { code: 0xD5, mnemonic: "CMP", additional_bytes: 1, cycles: 4, mode: AddressingMode::ZeroPage_X }),
        0xD6 => Some(OpCode { code: 0xD6, mnemonic: "DEC", additional_bytes: 1, cycles: 6, mode: AddressingMode::ZeroPage_X }),
        0xD7 => Some(OpCode { code: 0xD7, mnemonic: "*DCP", additional_bytes: 1, cycles: 6, mode: AddressingMode::ZeroPage_X }),
        0xD8 => Some(OpCode { code: 0xD8, mnemonic: "CLD", additional_bytes: 0, cycles: 2, mode: AddressingMode::Implied }),
        0xD9 => Some(OpCode { code: 0xD9, mnemonic: "CMP", additional_bytes: 2, cycles: 4, mode: AddressingMode::Absolute_Y }),
        0xDA => Some(OpCode { code: 0xDA, mnemonic: "*NOP", additional_bytes: 0, cycles: 2, mode: AddressingMode::Implied }),
        0xDB => Some(OpCode { code: 0xDB, mnemonic: "*DCP", additional_bytes: 2, cycles: 7, mode: AddressingMode::Absolute_Y }),
        0xDC => Some(OpCode { code: 0xDC, mnemonic: "*NOP", additional_bytes: 2, cycles: 4, mode: AddressingMode::Absolute_X }),
        0xDD => Some(OpCode { code: 0xDD, mnemonic: "CMP", additional_bytes: 2, cycles: 4, mode: AddressingMode::Absolute_X }),
        0xDE => Some(OpCode { code: 0xDE, mnemonic: "DEC", additional_bytes: 2, cycles: 7, mode: AddressingMode::Absolute_X }),
        0xDF => Some(OpCode { code: 0xDF, mnemonic: "*DCP", additional_bytes: 2, cycles: 7, mode: AddressingMode::Absolute_X }),
        _ => None,
    }
}

/// The rows for opcode bytes `0xE0..=0xEF`.
pub open spec fn block_e(code: u8) -> Option<OpCode> {
    match code {
        0xE0 => Some(OpCode { code: 0xE0, mnemonic: "CPX", additional_bytes: 1, cycles: 2, mode: AddressingMode::Immediate }),
        0xE1 => Some(OpCode { code: 0xE1, mnemonic: "SBC", additional_bytes: 1, cycles: 6, mode: AddressingMode::Indirect_X }),
        0xE2 => Some(OpCode { code: 0xE2, mnemonic: "*NOP", additional_bytes: 1, cycles: 2, mode: AddressingMode::Immediate }),
        0xE3 => Some(OpCode { code: 0xE3, mnemonic: "*ISB", additional_bytes: 1, cycles: 8, mode: AddressingMode::Indirect_X }),
        0xE4 => Some(OpCode { code: 0xE4, mnemonic: "CPX", additional_bytes: 1, cycles: 3, mode: AddressingMode::ZeroPage }),
        0xE5 => Some(OpCode { code: 0xE5, mnemonic: "SBC", additional_bytes: 1, cycles: 3, mode: AddressingMode::ZeroPage }),
        0xE6 => Some(OpCode { code: 0xE6, mnemonic: "INC", additional_bytes: 1, cycles: 5, mode: AddressingMode::ZeroPage }),
        0xE7 => Some(OpCode { code: 0xE7, mnemonic: "*ISB", additional_bytes: 1, cycles: 5, mode: AddressingMode::ZeroPage }),
        0xE8 => Some(OpCode { code: 0xE8, mnemonic: "INX", additional_bytes: 0, cycles: 2, mode: AddressingMode::Implied }),
        0xE9 => Some(OpCode { code: 0xE9, mnemonic: "SBC", additional_bytes: 1, cycles: 2, mode: AddressingMode::Immediate }),
        0xEA => Some(OpCode { code: 0xEA, mnemonic: "NOP", additional_bytes: 0, cycles: 2, mode: AddressingMode::Implied }),
        0xEB => Some(OpCode { code: 0xEB, mnemonic: "*SBC", additional_bytes: 1, cycles: 2, mode: AddressingMode::Immediate }),
        0xEC => Some(OpCode { code: 0xEC, mnemonic: "CPX", additional_bytes: 2, cycles: 4, mode: AddressingMode::Absolute }),
        0xED => Some(OpCode { code: 0xED, mnemonic: "SBC", additional_bytes: 2, cycles: 4, mode: AddressingMode::Absolute }),
        0xEE => Some(OpCode { code: 0xEE, mnemonic: "INC", additional_bytes: 2, cycles: 6, mode: AddressingMode::Absolute }),
        0xEF => Some(OpCode { code: 0xEF, mnemonic: "*ISB", additional_bytes: 2, cycles: 6, mode: AddressingMode::Absolute }),
        _ => None,
    }
}

/// The rows for opcode bytes `0xF0..=0xFF`.
pub open spec fn block_f(code: u8) -> Option<OpCode> {
    match code {
        0xF0 => Some(OpCode { code: 0xF0, mnemonic: "BEQ", additional_bytes: 1, cycles: 2, mode: AddressingMode::Implied }),
        0xF1 => Some(OpCode { code: 0xF1, mnemonic: "SBC", additional_bytes: 1, cycles: 5, mode: AddressingMode::Indirect_Y }),
        0xF2 => Some(OpCode { code: 0xF2, mnemonic: "*NOP", additional_bytes: 0, cycles: 2, mode: AddressingMode::Implied }),
        0xF3 => Some(OpCode { code: 0xF3, mnemonic: "*ISB", additional_bytes: 1, cycles: 8, mode: AddressingMode::Indirect_Y }),
        0xF4 => Some(OpCode { code: 0xF4, mnemonic: "*NOP", additional_bytes: 1, cycles: 4, mode: AddressingMode::ZeroPage_X }),
        0xF5 => Some(OpCode { code: 0xF5, mnemonic: "SBC", additional_bytes: 1, cycles: 4, mode: AddressingMode::ZeroPage_X }),
        0xF6 => Some(OpCode { code: 0xF6, mnemonic: "INC", additional_bytes: 1, cycles: 6, mode: AddressingMode::ZeroPage_X }),
        0xF7 => Some(OpCode { code: 0xF7, mnemonic: "*ISB", additional_bytes: 1, cycles: 6, mode: AddressingMode::ZeroPage_X }),
        0xF8 => Some(OpCode { code: 0xF8, mnemonic: "SED", additional_bytes: 0, cycles: 2, mode: AddressingMode::Implied }),
        0xF9 => Some(OpCode { code: 0xF9, mnemonic: "SBC", additional_bytes: 2, cycles: 4, mode: AddressingMode::Absolute_Y }),
        0xFA => Some(OpCode { code: 0xFA, mnemonic: "*NOP", additional_bytes: 0, cycles: 2, mode: AddressingMode::Implied }),
        0xFB => Some(OpCode { code: 0xFB, mnemonic: "*ISB", additional_bytes: 2, cycles: 7, mode: AddressingMode::Absolute_Y }),
        0xFC => Some(OpCode { code: 0xFC, mnemonic: "*NOP", additional_bytes: 2, cycles: 4, mode: AddressingMode::Absolute_X }),
        0xFD => Some(OpCode { code: 0xFD, mnemonic: "SBC", additional_bytes: 2, cycles: 4, mode: AddressingMode::Absolute_X }),
        0xFE => Some(OpCode { code: 0xFE, mnemonic: "INC", additional_bytes: 2, cycles: 7, mode: AddressingMode::Absolute_X }),
        0xFF => Some(OpCode { code: 0xFF, mnemonic: "*ISB", additional_bytes: 2, cycles: 7, mode: AddressingMode::Absolute_X }),
        _ => None,
    }
}

/// No byte is left without a row, and every row carries its own opcode
/// byte, at most two operand bytes and between two and eight cycles.
pub proof fn lemma_opcode_entry(code: u8)
    ensures
        opcode_entry(code) is Some,
        opcode_entry(code).unwrap().code == code,
        opcode_entry(code).unwrap().additional_bytes <= 2,
        2 <= opcode_entry(code).unwrap().cycles <= 8,
{
}

fn lookup_0(code: u8) -> (r: Option<OpCode>)
    ensures
        r == block_0(code),
{
    match code {
        0x00 => Some(OpCode::new(0x00, "BRK", 0, 7, AddressingMode::Implied)),
        0x01 => Some(OpCode::new(0x01, "ORA", 1, 6, AddressingMode::Indirect_X)),
        0x02 => Some(OpCode::new(0x02, "*NOP", 0, 2, AddressingMode::Implied)),
        0x03 => Some(OpCode::new(0x03, "*SLO", 1, 8, AddressingMode::Indirect_X)),
        0x04 => Some(OpCode::new(0x04, "*NOP", 1, 3, AddressingMode::ZeroPage)),
        0x05 => Some(OpCode::new(0x05, "ORA", 1, 3, AddressingMode::ZeroPage)),
        0x06 => Some(OpCode::new(0x06, "ASL", 1, 5, AddressingMode::ZeroPage)),
        0x07 => Some(OpCode::new(0x07, "*SLO", 1, 5, AddressingMode::ZeroPage)),
        0x08 => Some(OpCode::new(0x08, "PHP", 0, 3, AddressingMode::Implied)),
        0x09 => Some(OpCode::new(0x09, "ORA", 1, 2, AddressingMode::Immediate)),
        0x0A => Some(OpCode::new(0x0A, "ASL", 0, 2, AddressingMode::Implied)),
        0x0B => Some(OpCode::new(0x0B, "*ANC", 1, 2, AddressingMode::Immediate)),
        0x0C => Some(OpCode::new(0x0C, "*NOP", 2, 4, AddressingMode::Absolute)),
        0x0D => Some(OpCode::new(0x0D, "ORA", 2, 4, AddressingMode::Absolute)),
        0x0E => Some(OpCode::new(0x0E, "ASL", 2, 6, AddressingMode::Absolute)),
        0x0F => Some(OpCode::new(0x0F, "*SLO", 2, 6, AddressingMode::Absolute)),
        _ => None,
    }
}

fn lookup_1(code: u8) -> (r: Option<OpCode>)
    ensures
        r == block_1(code),
{
    match code {
        0x10 => Some(OpCode::new(0x10, "BPL", 1, 2, AddressingMode::Implied)),
        0x11 => Some(OpCode::new(0x11, "ORA", 1, 5, AddressingMode::Indirect_Y)),
        0x12 => Some(OpCode::new(0x12, "*NOP", 0, 2, AddressingMode::Implied)),
        0x13 => Some(OpCode::new(0x13, "*SLO", 1, 8, AddressingMode::Indirect_Y)),
        0x14 => Some(OpCode::new(0x14, "*NOP", 1, 4, AddressingMode::ZeroPage_X)),
        0x15 => Some(OpCode::new(0x15, "ORA", 1, 4, AddressingMode::ZeroPage_X)),
        0x16 => Some(OpCode::new(0x16, "ASL", 1, 6, AddressingMode::ZeroPage_X)),
        0x17 => Some(OpCode::new(0x17, "*SLO", 1, 6, AddressingMode::ZeroPage_X)),
        0x18 => Some(OpCode::new(0x18, "CLC", 0, 2, AddressingMode::Implied)),
        0x19 => Some(OpCode::new(0x19, "ORA", 2, 4, AddressingMode::Absolute_Y)),
        0x1A => Some(OpCode::new(0x1A, "*NOP", 0, 2, AddressingMode::Implied)),
        0x1B => Some(OpCode::new(0x1B, "*SLO", 2, 7, AddressingMode::Absolute_Y)),
        0x1C => Some(OpCode::new(0x1C, "*NOP", 2, 4, AddressingMode::Absolute_X)),
        0x1D => Some(OpCode::new(0x1D, "ORA", 2, 4, AddressingMode::Absolute_X)),
        0x1E => Some(OpCode::new(0x1E, "ASL", 2, 7, AddressingMode::Absolute_X)),
        0x1F => Some(OpCode::new(0x1F, "*SLO", 2, 7, AddressingMode::Absolute_X)),
        _ => None,
    }
}

fn lookup_2(code: u8) -> (r: Option<OpCode>)
    ensures
        r == block_2(code),
{
    match code {
        0x20 => Some(OpCode::new(0x20, "JSR", 2, 6, AddressingMode::Implied)),
        0x21 => Some(OpCode::new(0x21, "AND", 1, 6, AddressingMode::Indirect_X)),
        0x22 => Some(OpCode::new(0x22, "*NOP", 0, 2, AddressingMode::Implied)),
        0x23 => Some(OpCode::new(0x23, "*RLA", 1, 8, AddressingMode::Indirect_X)),
        0x24 => Some(OpCode::new(0x24, "BIT", 1, 3, AddressingMode::ZeroPage)),
        0x25 => Some(OpCode::new(0x25, "AND", 1, 3, AddressingMode::ZeroPage)),
        0x26 => Some(OpCode::new(0x26, "ROL", 1, 5, AddressingMode::ZeroPage)),
        0x27 => Some(OpCode::new(0x27, "*RLA", 1, 5, AddressingMode::ZeroPage)),
        0x28 => Some(OpCode::new(0x28, "PLP", 0, 4, AddressingMode::Implied)),
        0x29 => Some(OpCode::new(0x29, "AND", 1, 2, AddressingMode::Immediate)),
        0x2A => Some(OpCode::new(0x2A, "ROL", 0, 2, AddressingMode::Implied)),
        0x2B => Some(OpCode::new(0x2B, "*ANC", 1, 2, AddressingMode::Immediate)),
        0x2C => Some(OpCode::new(0x2C, "BIT", 2, 4, AddressingMode::Absolute)),
        0x2D => Some(OpCode::new(0x2D, "AND", 2, 4, AddressingMode::Absolute)),
        0x2E => Some(OpCode::new(0x2E, "ROL", 2, 6, AddressingMode::Absolute)),
        0x2F => Some(OpCode::new(0x2F, "*RLA", 2, 6, AddressingMode::Absolute)),
        _ => None,
    }
}

fn lookup_3(code: u8) -> (r: Option<OpCode>)
    ensures
        r == block_3(code),
{
    match code {
        0x30 => Some(OpCode::new(0x30, "BMI", 1, 2, AddressingMode::Implied)),
        0x31 => Some(OpCode::new(0x31, "AND", 1, 5, AddressingMode::Indirect_Y)),
        0x32 => Some(OpCode::new(0x32, "*NOP", 0, 2, AddressingMode::Implied)),
        0x33 => Some(OpCode::new(0x33, "*RLA", 1, 8, AddressingMode::Indirect_Y)),
        0x34 => Some(OpCode::new(0x34, "*NOP", 1, 4, AddressingMode::ZeroPage_X)),
        0x35 => Some(OpCode::new(0x35, "AND", 1, 4, AddressingMode::ZeroPage_X)),
        0x36 => Some(OpCode::new(0x36, "ROL", 1, 6, AddressingMode::ZeroPage_X)),
        0x37 => Some(OpCode::new(0x37, "*RLA", 1, 6, AddressingMode::ZeroPage_X)),
        0x38 => Some(OpCode::new(0x38, "SEC", 0, 2, AddressingMode::Implied)),
        0x39 => Some(OpCode::new(0x39, "AND", 2, 4, AddressingMode::Absolute_Y)),
        0x3A => Some(OpCode::new(0x3A, "*NOP", 0, 2, AddressingMode::Implied)),
        0x3B => Some(OpCode::new(0x3B, "*RLA", 2, 7, AddressingMode::Absolute_Y)),
        0x3C => Some(OpCode::new(0x3C, "*NOP", 2, 4, AddressingMode::Absolute_X)),
        0x3D => Some(OpCode::new(0x3D, "AND", 2, 4, AddressingMode::Absolute_X)),
        0x3E => Some(OpCode::new(0x3E, "ROL", 2, 7, AddressingMode::Absolute_X)),
        0x3F => Some(OpCode::new(0x3F, "*RLA", 2, 7, AddressingMode::Absolute_X)),
        _ => None,
    }
}

fn lookup_4(code: u8) -> (r: Option<OpCode>)
    ensures
        r == block_4(code),
{
    match code {
        0x40 => Some(OpCode::new(0x40, "RTI", 0, 6, AddressingMode::Implied)),
        0x41 => Some(OpCode::new(0x41, "EOR", 1, 6, AddressingMode::Indirect_X)),
        0x42 => Some(OpCode::new(0x42, "*NOP", 0, 2, AddressingMode::Implied)),
        0x43 => Some(OpCode::new(0x43, "*SRE", 1, 8, AddressingMode::Indirect_X)),
        0x44 => Some(OpCode::new(0x44, "*NOP", 1, 3, AddressingMode::ZeroPage)),
        0x45 => Some(OpCode::new(0x45, "EOR", 1, 3, AddressingMode::ZeroPage)),
        0x46 => Some(OpCode::new(0x46, "LSR", 1, 5, AddressingMode::ZeroPage)),
        0x47 => Some(OpCode::new(0x47, "*SRE", 1, 5, AddressingMode::ZeroPage)),
        0x48 => Some(OpCode::new(0x48, "PHA", 0, 3, AddressingMode::Implied)),
        0x49 => Some(OpCode::new(0x49, "EOR", 1, 2, AddressingMode::Immediate)),
        0x4A => Some(OpCode::new(0x4A, "LSR", 0, 2, AddressingMode::Implied)),
        0x4B => Some(OpCode::new(0x4B, "*ALR", 1, 2, AddressingMode::Immediate)),
        0x4C => Some(OpCode::new(0x4C, "JMP", 2, 3, AddressingMode::Implied)),
        0x4D => Some(OpCode::new(0x4D, "EOR", 2, 4, AddressingMode::Absolute)),
        0x4E => Some(OpCode::new(0x4E, "LSR", 2, 6, AddressingMode::Absolute)),
        0x4F => Some(OpCode::new(0x4F, "*SRE", 2, 6, AddressingMode::Absolute)),
        _ => None,
    }
}

fn lookup_5(code: u8) -> (r: Option<OpCode>)
    ensures
        r == block_5(code),
{
    match code {
        0x50 => Some(OpCode::new(0x50, "BVC", 1, 2, AddressingMode::Implied)),
        0x51 => Some(OpCode::new(0x51, "EOR", 1, 5, AddressingMode::Indirect_Y)),
        0x52 => Some(OpCode::new(0x52, "*NOP", 0, 2, AddressingMode::Implied)),
        0x53 => Some(OpCode::new(0x53, "*SRE", 1, 8, AddressingMode::Indirect_Y)),
        0x54 => Some(OpCode::new(0x54, "*NOP", 1, 4, AddressingMode::ZeroPage_X)),
        0x55 => Some(OpCode::new(0x55, "EOR", 1, 4, AddressingMode::ZeroPage_X)),
        0x56 => Some(OpCode::new(0x56, "LSR", 1, 6, AddressingMode::ZeroPage_X)),
        0x57 => Some(OpCode::new(0x57, "*SRE", 1, 6, AddressingMode::ZeroPage_X)),
        0x58 => Some(OpCode::new(0x58, "CLI", 0, 2, AddressingMode::Implied)),
        0x59 => Some(OpCode::new(0x59, "EOR", 2, 4, AddressingMode::Absolute_Y)),
        0x5A => Some(OpCode::new(0x5A, "*NOP", 0, 2, AddressingMode::Implied)),
        0x5B => Some(OpCode::new(0x5B, "*SRE", 2, 7, AddressingMode::Absolute_Y)),
        0x5C => Some(OpCode::new(0x5C, "*NOP", 2, 4, AddressingMode::Absolute_X)),
        0x5D => Some(OpCode::new(0x5D, "EOR", 2, 4, AddressingMode::Absolute_X)),
        0x5E => Some(OpCode::new(0x5E, "LSR", 2, 7, AddressingMode::Absolute_X)),
        0x5F => Some(OpCode::new(0x5F, "*SRE", 2, 7, AddressingMode::Absolute_X)),
        _ => None,
    }
}

fn lookup_6(code: u8) -> (r: Option<OpCode>)
    ensures
        r == block_6(code),
{
    match code {
        0x60 => Some(OpCode::new(0x60, "RTS", 0, 6, AddressingMode::Implied)),
        0x61 => Some(OpCode::new(0x61, "ADC", 1, 6, AddressingMode::Indirect_X)),
        0x62 => Some(OpCode::new(0x62, "*NOP", 0, 2, AddressingMode::Implied)),
        0x63 => Some(OpCode::new(0x63, "*RRA", 1, 8, AddressingMode::Indirect_X)),
        0x64 => Some(OpCode::new(0x64, "*NOP", 1, 3, AddressingMode::ZeroPage)),
        0x65 => Some(OpCode::new(0x65, "ADC", 1, 3, AddressingMode::ZeroPage)),
        0x66 => Some(OpCode::new(0x66, "ROR", 1, 5, AddressingMode::ZeroPage)),
        0x67 => Some(OpCode::new(0x67, "*RRA", 1, 5, AddressingMode::ZeroPage)),
        0x68 => Some(OpCode::new(0x68, "PLA", 0, 4, AddressingMode::Implied)),
        0x69 => Some(OpCode::new(0x69, "ADC", 1, 2, AddressingMode::Immediate)),
        0x6A => Some(OpCode::new(0x6A, "ROR", 0, 2, AddressingMode::Implied)),
        0x6B => Some(OpCode::new(0x6B, "*ARR", 1, 2, AddressingMode::Immediate)),
        0x6C => Some(OpCode::new(0x6C, "JMP", 2, 5, AddressingMode::Implied)),
        0x6D => Some(OpCode::new(0x6D, "ADC", 2, 4, AddressingMode::Absolute)),
        0x6E => Some(OpCode::new(0x6E, "ROR", 2, 6, AddressingMode::Absolute)),
        0x6F => Some(OpCode::new(0x6F, "*RRA", 2, 6, AddressingMode::Absolute)),
        _ => None,
    }
}

fn lookup_7(code: u8) -> (r: Option<OpCode>)
    ensures
        r == block_7(code),
{
    match code {
        0x70 => Some(OpCode::new(0x70, "BVS", 1, 2, AddressingMode::Implied)),
        0x71 => Some(OpCode::new(0x71, "ADC", 1, 5, AddressingMode::Indirect_Y)),
        0x72 => Some(OpCode::new(0x72, "*NOP", 0, 2, AddressingMode::Implied)),
        0x73 => Some(OpCode::new(0x73, "*RRA", 1, 8, AddressingMode::Indirect_Y)),
        0x74 => Some(OpCode::new(0x74, "*NOP", 1, 4, AddressingMode::ZeroPage_X)),
        0x75 => Some(OpCode::new(0x75, "ADC", 1, 4, AddressingMode::ZeroPage_X)),
        0x76 => Some(OpCode::new(0x76, "ROR", 1, 6, AddressingMode::ZeroPage_X)),
        0x77 => Some(OpCode::new(0x77, "*RRA", 1, 6, AddressingMode::ZeroPage_X)),
        0x78 => Some(OpCode::new(0x78, "SEI", 0, 2, AddressingMode::Implied)),
        0x79 => Some(OpCode::new(0x79, "ADC", 2, 4, AddressingMode::Absolute_Y)),
        0x7A => Some(OpCode::new(0x7A, "*NOP", 0, 2, AddressingMode::Implied)),
        0x7B => Some(OpCode::new(0x7B, "*RRA", 2, 7, AddressingMode::Absolute_Y)),
        0x7C => Some(OpCode::new(0x7C, "*NOP", 2, 4, AddressingMode::Absolute_X)),
        0x7D => Some(OpCode::new(0x7D, "ADC", 2, 4, AddressingMode::Absolute_X)),
        0x7E => Some(OpCode::new(0x7E, "ROR", 2, 7, AddressingMode::Absolute_X)),
        0x7F => Some(OpCode::new(0x7F, "*RRA", 2, 7, AddressingMode::Absolute_X)),
        _ => None,
    }
}

fn lookup_8(code: u8) -> (r: Option<OpCode>)
    ensures
        r == block_8(code),
{
    match code {
        0x80 => Some(OpCode::new(0x80, "*NOP", 1, 2, AddressingMode::Immediate)),
        0x81 => Some(OpCode::new(0x81, "STA", 1, 6, AddressingMode::Indirect_X)),
        0x82 => Some(OpCode::new(0x82, "*NOP", 1, 2, AddressingMode::Immediate)),
        0x83 => Some(OpCode::new(0x83, "*SAX", 1, 6, AddressingMode::Indirect_X)),
        0x84 => Some(OpCode::new(0x84, "STY", 1, 3, AddressingMode::ZeroPage)),
        0x85 => Some(OpCode::new(0x85, "STA", 1, 3, AddressingMode::ZeroPage)),
        0x86 => Some(OpCode::new(0x86, "STX", 1, 3, AddressingMode::ZeroPage)),
        0x87 => Some(OpCode::new(0x87, "*SAX", 1, 3, AddressingMode::ZeroPage)),
        0x88 => Some(OpCode::new(0x88, "DEY", 0, 2, AddressingMode::Implied)),
        0x89 => Some(OpCode::new(0x89, "*NOP", 1, 2, AddressingMode::Immediate)),
        0x8A => Some(OpCode::new(0x8A, "TXA", 0, 2, AddressingMode::Implied)),
        0x8B => Some(OpCode::new(0x8B, "*XAA", 1, 3, AddressingMode::Immediate)),
        0x8C => Some(OpCode::new(0x8C, "STY", 2, 4, AddressingMode::Absolute)),
        0x8D => Some(OpCode::new(0x8D, "STA", 2, 4, AddressingMode::Absolute)),
        0x8E => Some(OpCode::new(0x8E, "STX", 2, 4, AddressingMode::Absolute)),
        0x8F => Some(OpCode::new(0x8F, "*SAX", 2, 4, AddressingMode::Absolute)),
        _ => None,
    }
}

fn lookup_9(code: u8) -> (r: Option<OpCode>)
    ensures
        r == block_9(code),
{
    match code {
        0x90 => Some(OpCode::new(0x90, "BCC", 1, 2, AddressingMode::Implied)),
        0x91 => Some(OpCode::new(0x91, "STA", 1, 6, AddressingMode::Indirect_Y)),
        0x92 => Some(OpCode::new(0x92, "*NOP", 0, 2, AddressingMode::Implied)),
        0x93 => Some(OpCode::new(0x93, "*AHX", 1, 8, AddressingMode::Indirect_Y)),
        0x94 => Some(OpCode::new(0x94, "STY", 1, 4, AddressingMode::ZeroPage_X)),
        0x95 => Some(OpCode::new(0x95, "STA", 1, 4, AddressingMode::ZeroPage_X)),
        0x96 => Some(OpCode::new(0x96, "STX", 1, 4, AddressingMode::ZeroPage_Y)),
        0x97 => Some(OpCode::new(0x97, "*SAX", 1, 4, AddressingMode::ZeroPage_Y)),
        0x98 => Some(OpCode::new(0x98, "TYA", 0, 2, AddressingMode::Implied)),
        0x99 => Some(OpCode::new(0x99, "STA", 2, 5, AddressingMode::Absolute_Y)),
        0x9A => Some(OpCode::new(0x9A, "TXS", 0, 2, AddressingMode::Implied)),
        0x9B => Some(OpCode::new(0x9B, "*TAS", 2, 2, AddressingMode::Absolute_Y)),
        0x9C => Some(OpCode::new(0x9C, "*SHY", 2, 4, AddressingMode::Absolute_X)),
        0x9D => Some(OpCode::new(0x9D, "STA", 2, 5, AddressingMode::Absolute_X)),
        0x9E => Some(OpCode::new(0x9E, "*SHX", 2, 4, AddressingMode::Absolute_Y)),
        0x9F => Some(OpCode::new(0x9F, "*AHX", 2, 4, AddressingMode::Absolute_Y)),
        _ => None,
    }
}

fn lookup_a(code: u8) -> (r: Option<OpCode>)
    ensures
        r == block_a(code),
{
    match code {
        0xA0 => Some(OpCode::new(0xA0, "LDY", 1, 2, AddressingMode::Immediate)),
        0xA1 => Some(OpCode::new(0xA1, "LDA", 1, 6, AddressingMode::Indirect_X)),
        0xA2 => Some(OpCode::new(0xA2, "LDX", 1, 2, AddressingMode::Immediate)),
        0xA3 => Some(OpCode::new(0xA3, "*LAX", 1, 6, AddressingMode::Indirect_X)),
        0xA4 => Some(OpCode::new(0xA4, "LDY", 1, 3, AddressingMode::ZeroPage)),
        0xA5 => Some(OpCode::new(0xA5, "LDA", 1, 3, AddressingMode::ZeroPage)),
        0xA6 => Some(OpCode::new(0xA6, "LDX", 1, 3, AddressingMode::ZeroPage)),
        0xA7 => Some(OpCode::new(0xA7, "*LAX", 1, 3, AddressingMode::ZeroPage)),
        0xA8 => Some(OpCode::new(0xA8, "TAY", 0, 2, AddressingMode::Implied)),
        0xA9 => Some(OpCode::new(0xA9, "LDA", 1, 2, AddressingMode::Immediate)),
        0xAA => Some(OpCode::new(0xAA, "TAX", 0, 2, AddressingMode::Implied)),
        0xAB => Some(OpCode::new(0xAB, "*LXA", 1, 3, AddressingMode::Immediate)),
        0xAC => Some(OpCode::new(0xAC, "LDY", 2, 4, AddressingMode::Absolute)),
        0xAD => Some(OpCode::new(0xAD, "LDA", 2, 4, AddressingMode::Absolute)),
        0xAE => Some(OpCode::new(0xAE, "LDX", 2, 4, AddressingMode::Absolute)),
        0xAF => Some(OpCode::new(0xAF, "*LAX", 2, 4, AddressingMode::Absolute)),
        _ => None,
    }
}

fn lookup_b(code: u8) -> (r: Option<OpCode>)
    ensures
        r == block_b(code),
{
    match code {
        0xB0 => Some(OpCode::new(0xB0, "BCS", 1, 2, AddressingMode::Implied)),
        0xB1 => Some(OpCode::new(0xB1, "LDA", 1, 5, AddressingMode::Indirect_Y)),
        0xB2 => Some(OpCode::new(0xB2, "*NOP", 0, 2, AddressingMode::Implied)),
        0xB3 => Some(OpCode::new(0xB3, "*LAX", 1, 5, AddressingMode::Indirect_Y)),
        0xB4 => Some(OpCode::new(0xB4, "LDY", 1, 4, AddressingMode::ZeroPage_X)),
        0xB5 => Some(OpCode::new(0xB5, "LDA", 1, 4, AddressingMode::ZeroPage_X)),
        0xB6 => Some(OpCode::new(0xB6, "LDX", 1, 4, AddressingMode::ZeroPage_Y)),
        0xB7 => Some(OpCode::new(0xB7, "*LAX", 1, 4, AddressingMode::ZeroPage_Y)),
        0xB8 => Some(OpCode::new(0xB8, "CLV", 0, 2, AddressingMode::Implied)),
        0xB9 => Some(OpCode::new(0xB9, "LDA", 2, 4, AddressingMode::Absolute_Y)),
        0xBA => Some(OpCode::new(0xBA, "TSX", 0, 2, AddressingMode::Implied)),
        0xBB => Some(OpCode::new(0xBB, "*LAS", 2, 2, AddressingMode::Absolute_Y)),
        0xBC => Some(OpCode::new(0xBC, "LDY", 2, 4, AddressingMode::Absolute_X)),
        0xBD => Some(OpCode::new(0xBD, "LDA", 2, 4, AddressingMode::Absolute_X)),
        0xBE => Some(OpCode::new(0xBE, "LDX", 2, 4, AddressingMode::Absolute_Y)),
        0xBF => Some(OpCode::new(0xBF, "*LAX", 2, 4, AddressingMode::Absolute_Y)),
        _ => None,
    }
}

fn lookup_c(code: u8) -> (r: Option<OpCode>)
    ensures
        r == block_c(code),
{
    match code {
        0xC0 => Some(OpCode::new(0xC0, "CPY", 1, 2, AddressingMode::Immediate)),
        0xC1 => Some(OpCode::new(0xC1, "CMP", 1, 6, AddressingMode::Indirect_X)),
        0xC2 => Some(OpCode::new(0xC2, "*NOP", 1, 2, AddressingMode::Immediate)),
        0xC3 => Some(OpCode::new(0xC3, "*DCP", 1, 8, AddressingMode::Indirect_X)),
        0xC4 => Some(OpCode::new(0xC4, "CPY", 1, 3, AddressingMode::ZeroPage)),
        0xC5 => Some(OpCode::new(0xC5, "CMP", 1, 3, AddressingMode::ZeroPage)),
        0xC6 => Some(OpCode::new(0xC6, "DEC", 1, 5, AddressingMode::ZeroPage)),
        0xC7 => Some(OpCode::new(0xC7, "*DCP", 1, 5, AddressingMode::ZeroPage)),
        0xC8 => Some(OpCode::new(0xC8, "INY", 0, 2, AddressingMode::Implied)),
        0xC9 => Some(OpCode::new(0xC9, "CMP", 1, 2, AddressingMode::Immediate)),
        0xCA => Some(OpCode::new(0xCA, "DEX", 0, 2, AddressingMode::Implied)),
        0xCB => Some(OpCode::new(0xCB, "*AXS", 1, 2, AddressingMode::Immediate)),
        0xCC => Some(OpCode::new(0xCC, "CPY", 2, 4, AddressingMode::Absolute)),
        0xCD => Some(OpCode::new(0xCD, "CMP", 2, 4, AddressingMode::Absolute)),
        0xCE => Some(OpCode::new(0xCE, "DEC", 2, 6, AddressingMode::Absolute)),
        0xCF => Some(OpCode::new(0xCF, "*DCP", 2, 6, AddressingMode::Absolute)),
        _ => None,
    }
}

fn lookup_d(code: u8) -> (r: Option<OpCode>)
    ensures
        r == block_d(code),
{
    match code {
        0xD0 => Some(OpCode::new(0xD0, "BNE", 1, 2, AddressingMode::Implied)),
        0xD1 => Some(OpCode::new(0xD1, "CMP", 1, 5, AddressingMode::Indirect_Y)),
        0xD2 => Some(OpCode::new(0xD2, "*NOP", 0, 2, AddressingMode::Implied)),
        0xD3 => Some(OpCode::new(0xD3, "*DCP", 1, 8, AddressingMode::Indirect_Y)),
        0xD4 => Some(OpCode::new(0xD4, "*NOP", 1, 4, AddressingMode::ZeroPage_X)),
        0xD5 => Some(OpCode::new(0xD5, "CMP", 1, 4, AddressingMode::ZeroPage_X)),
        0xD6 => Some(OpCode::new(0xD6, "DEC", 1, 6, AddressingMode::ZeroPage_X)),
        0xD7 => Some(OpCode::new(0xD7, "*DCP", 1, 6, AddressingMode::ZeroPage_X)),
        0xD8 => Some(OpCode::new(0xD8, "CLD", 0, 2, AddressingMode::Implied)),
        0xD9 => Some(OpCode::new(0xD9, "CMP", 2, 4, AddressingMode::Absolute_Y)),
        0xDA => Some(OpCode::new(0xDA, "*NOP", 0, 2, AddressingMode::Implied)),
        0xDB => Some(OpCode::new(0xDB, "*DCP", 2, 7, AddressingMode::Absolute_Y)),
        0xDC => Some(OpCode::new(0xDC, "*NOP", 2, 4, AddressingMode::Absolute_X)),
        0xDD => Some(OpCode::new(0xDD, "CMP", 2, 4, AddressingMode::Absolute_X)),
        0xDE => Some(OpCode::new(0xDE, "DEC", 2, 7, AddressingMode::Absolute_X)),
        0xDF => Some(OpCode::new(0xDF, "*DCP", 2, 7, AddressingMode::Absolute_X)),
        _ => None,
    }
}

fn lookup_e(code: u8) -> (r: Option<OpCode>)
    ensures
        r == block_e(code),
{
    match code {
        0xE0 => Some(OpCode::new(0xE0, "CPX", 1, 2, AddressingMode::Immediate)),
        0xE1 => Some(OpCode::new(0xE1, "SBC", 1, 6, AddressingMode::Indirect_X)),
        0xE2 => Some(OpCode::new(0xE2, "*NOP", 1, 2, AddressingMode::Immediate)),
        0xE3 => Some(OpCode::new(0xE3, "*ISB", 1, 8, AddressingMode::Indirect_X)),
        0xE4 => Some(OpCode::new(0xE4, "CPX", 1, 3, AddressingMode::ZeroPage)),
        0xE5 => Some(OpCode::new(0xE5, "SBC", 1, 3, AddressingMode::ZeroPage)),
        0xE6 => Some(OpCode::new(0xE6, "INC", 1, 5, AddressingMode::ZeroPage)),
        0xE7 => Some(OpCode::new(0xE7, "*ISB", 1, 5, AddressingMode::ZeroPage)),
        0xE8 => Some(OpCode::new(0xE8, "INX", 0, 2, AddressingMode::Implied)),
        0xE9 => Some(OpCode::new(0xE9, "SBC", 1, 2, AddressingMode::Immediate)),
        0xEA => Some(OpCode::new(0xEA, "NOP", 0, 2, AddressingMode::Implied)),
        0xEB => Some(OpCode::new(0xEB, "*SBC", 1, 2, AddressingMode::Immediate)),
        0xEC => Some(OpCode::new(0xEC, "CPX", 2, 4, AddressingMode::Absolute)),
        0xED => Some(OpCode::new(0xED, "SBC", 2, 4, AddressingMode::Absolute)),
        0xEE => Some(OpCode::new(0xEE, "INC", 2, 6, AddressingMode::Absolute)),
        0xEF => Some(OpCode::new(0xEF, "*ISB", 2, 6, AddressingMode::Absolute)),
        _ => None,
    }
}

fn lookup_f(code: u8) -> (r: Option<OpCode>)
    ensures
        r == block_f(code),
{
    match code {
        0xF0 => Some(OpCode::new(0xF0, "BEQ", 1, 2, AddressingMode::Implied)),
        0xF1 => Some(OpCode::new(0xF1, "SBC", 1, 5, AddressingMode::Indirect_Y)),
        0xF2 => Some(OpCode::new(0xF2, "*NOP", 0, 2, AddressingMode::Implied)),
        0xF3 => Some(OpCode::new(0xF3, "*ISB", 1, 8, AddressingMode::Indirect_Y)),
        0xF4 => Some(OpCode::new(0xF4, "*NOP", 1, 4, AddressingMode::ZeroPage_X)),
        0xF5 => Some(OpCode::new(0xF5, "SBC", 1, 4, AddressingMode::ZeroPage_X)),
        0xF6 => Some(OpCode::new(0xF6, "INC", 1, 6, AddressingMode::ZeroPage_X)),
        0xF7 => Some(OpCode::new(0xF7, "*ISB", 1, 6, AddressingMode::ZeroPage_X)),
        0xF8 => Some(OpCode::new(0xF8, "SED", 0, 2, AddressingMode::Implied)),
        0xF9 => Some(OpCode::new(0xF9, "SBC", 2, 4, AddressingMode::Absolute_Y)),
        0xFA => Some(OpCode::new(0xFA, "*NOP", 0, 2, AddressingMode::Implied)),
        0xFB => Some(OpCode::new(0xFB, "*ISB", 2, 7, AddressingMode::Absolute_Y)),
        0xFC => Some(OpCode::new(0xFC, "*NOP", 2, 4, AddressingMode::Absolute_X)),
        0xFD => Some(OpCode::new(0xFD, "SBC", 2, 4, AddressingMode::Absolute_X)),
        0xFE => Some(OpCode::new(0xFE, "INC", 2, 7, AddressingMode::Absolute_X)),
        0xFF => Some(OpCode::new(0xFF, "*ISB", 2, 7, AddressingMode::Absolute_X)),
        _ => None,
    }
}

/// Looks up opcode byte `opcode` in the table.
pub fn get_opcode_details(opcode: &u8) -> (r: Option<OpCode>)
    ensures
        r == opcode_entry(*opcode),
{
    let code = *opcode;
    match code / 16 {
        0x0 => lookup_0(code),
        0x1 => lookup_1(code),
        0x2 => lookup_2(code),
        0x3 => lookup_3(code),
        0x4 => lookup_4(code),
        0x5 => lookup_5(code),
        0x6 => lookup_6(code),
        0x7 => lookup_7(code),
        0x8 => lookup_8(code),
        0x9 => lookup_9(code),
        0xA => lookup_a(code),
        0xB => lookup_b(code),
        0xC => lookup_c(code),
        0xD => lookup_d(code),
        0xE => lookup_e(code),
        _ => lookup_f(code),
    }
}

} // verus!
