use nes_core::cpu::AddressingMode;
use nes_core::opcodes::{get_opcode_details, OpCode};

fn row(code: u8) -> (String, u8, u8, AddressingMode) {
    let details = get_opcode_details(&code).unwrap();
    assert_eq!(details.code, code);
    (details.mnemonic.to_string(), details.additional_bytes, details.cycles, details.mode)
}

#[test]
fn every_byte_has_a_row_of_its_own() {
    for code in 0..=255u8 {
        let details = get_opcode_details(&code).unwrap();
        assert_eq!(details.code, code);
        assert!(details.additional_bytes <= 2);
        assert!(2 <= details.cycles && details.cycles <= 8);
        assert!(!details.mnemonic.is_empty());
    }
}

#[test]
fn operand_bytes_follow_the_addressing_mode() {
    for code in 0..=255u8 {
        let details = get_opcode_details(&code).unwrap();
        let expected = match details.mode {
            AddressingMode::Immediate
            | AddressingMode::ZeroPage
            | AddressingMode::ZeroPage_X
            | AddressingMode::ZeroPage_Y
            | AddressingMode::Indirect_X
            | AddressingMode::Indirect_Y => Some(1),
            AddressingMode::Absolute | AddressingMode::Absolute_X | AddressingMode::Absolute_Y => {
                Some(2)
            }
            _ => None,
        };
        if let Some(bytes) = expected {
            assert_eq!(details.additional_bytes, bytes, "opcode {:02x}", code);
        }
    }
}

#[test]
fn documented_rows() {
    assert_eq!(row(0x00), ("BRK".to_string(), 0, 7, AddressingMode::Implied));
    assert_eq!(row(0xEA), ("NOP".to_string(), 0, 2, AddressingMode::Implied));
    assert_eq!(row(0xA9), ("LDA".to_string(), 1, 2, AddressingMode::Immediate));
    assert_eq!(row(0xA5), ("LDA".to_string(), 1, 3, AddressingMode::ZeroPage));
    assert_eq!(row(0xB5), ("LDA".to_string(), 1, 4, AddressingMode::ZeroPage_X));
    assert_eq!(row(0xB6), ("LDX".to_string(), 1, 4, AddressingMode::ZeroPage_Y));
    assert_eq!(row(0xAD), ("LDA".to_string(), 2, 4, AddressingMode::Absolute));
    assert_eq!(row(0xBD), ("LDA".to_string(), 2, 4, AddressingMode::Absolute_X));
    assert_eq!(row(0xB9), ("LDA".to_string(), 2, 4, AddressingMode::Absolute_Y));
    assert_eq!(row(0xA1), ("LDA".to_string(), 1, 6, AddressingMode::Indirect_X));
    assert_eq!(row(0xB1), ("LDA".to_string(), 1, 5, AddressingMode::Indirect_Y));
    assert_eq!(row(0x69), ("ADC".to_string(), 1, 2, AddressingMode::Immediate));
    assert_eq!(row(0x1E), ("ASL".to_string(), 2, 7, AddressingMode::Absolute_X));
    assert_eq!(row(0x48), ("PHA".to_string(), 0, 3, AddressingMode::Implied));
    assert_eq!(row(0x68), ("PLA".to_string(), 0, 4, AddressingMode::Implied));
    assert_eq!(row(0x91), ("STA".to_string(), 1, 6, AddressingMode::Indirect_Y));
}

#[test]
fn jumps_and_branches_carry_their_operand_bytes_with_the_implied_mode() {
    assert_eq!(row(0x4C), ("JMP".to_string(), 2, 3, AddressingMode::Implied));
    assert_eq!(row(0x6C), ("JMP".to_string(), 2, 5, AddressingMode::Implied));
    assert_eq!(row(0x20), ("JSR".to_string(), 2, 6, AddressingMode::Implied));
    assert_eq!(row(0x60), ("RTS".to_string(), 0, 6, AddressingMode::Implied));
    assert_eq!(row(0x40), ("RTI".to_string(), 0, 6, AddressingMode::Implied));
    for code in [0x10u8, 0x30, 0x50, 0x70, 0x90, 0xB0, 0xD0, 0xF0] {
        let (_, bytes, cycles, mode) = row(code);
        assert_eq!((bytes, cycles, mode), (1, 2, AddressingMode::Implied));
    }
    assert_eq!(row(0xD0).0, "BNE");
    assert_eq!(row(0xF0).0, "BEQ");
}

#[test]
fn undocumented_rows_are_starred() {
    assert_eq!(row(0xC7), ("*DCP".to_string(), 1, 5, AddressingMode::ZeroPage));
    assert_eq!(row(0x3B), ("*RLA".to_string(), 2, 7, AddressingMode::Absolute_Y));
    assert_eq!(row(0x03), ("*SLO".to_string(), 1, 8, AddressingMode::Indirect_X));
    assert_eq!(row(0x53), ("*SRE".to_string(), 1, 8, AddressingMode::Indirect_Y));
    assert_eq!(row(0x6F), ("*RRA".to_string(), 2, 6, AddressingMode::Absolute));
    assert_eq!(row(0xFF), ("*ISB".to_string(), 2, 7, AddressingMode::Absolute_X));
    assert_eq!(row(0xB7), ("*LAX".to_string(), 1, 4, AddressingMode::ZeroPage_Y));
    assert_eq!(row(0x83), ("*SAX".to_string(), 1, 6, AddressingMode::Indirect_X));
    assert_eq!(row(0xEB), ("*SBC".to_string(), 1, 2, AddressingMode::Immediate));
    assert_eq!(row(0x1A), ("*NOP".to_string(), 0, 2, AddressingMode::Implied));
    assert_eq!(row(0x80), ("*NOP".to_string(), 1, 2, AddressingMode::Immediate));
    assert_eq!(row(0xFC), ("*NOP".to_string(), 2, 4, AddressingMode::Absolute_X));
    assert_eq!(row(0x9B), ("*TAS".to_string(), 2, 2, AddressingMode::Absolute_Y));
    assert_eq!(row(0x93), ("*AHX".to_string(), 1, 8, AddressingMode::Indirect_Y));
}

#[test]
fn a_row_is_made_of_its_five_parts() {
    let row = OpCode::new(0x42, "XYZ", 2, 7, AddressingMode::Absolute_Y);
    assert_eq!(row.code, 0x42);
    assert_eq!(row.mnemonic, "XYZ");
    assert_eq!(row.additional_bytes, 2);
    assert_eq!(row.cycles, 7);
    assert_eq!(row.mode, AddressingMode::Absolute_Y);
}
